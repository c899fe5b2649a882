//! Types and verified logic for the trades endpoints: the trade list url,
//! and the checked reshaping of trade list and trade detail responses.

use vstd::prelude::*;
use vstd::string::*;

verus! {

use crate::text::{dec_str, str_eq, u64_to_string};
use crate::{Limit, RoboatError, User};

/// The type of the trade you want to request (Inbound, Outbound,
/// Completed, Inactive).
#[allow(missing_docs)]
#[derive(Clone, Copy, Debug, PartialEq, Eq, Structural)]
pub enum TradeType {
    Inbound,
    Outbound,
    Completed,
    Inactive,
}

impl TradeType {
    /// The spelling of this trade type inside the trades list url.
    pub open spec fn spec_as_str(self) -> Seq<char> {
        match self {
            TradeType::Inbound => "inbound"@,
            TradeType::Outbound => "outbound"@,
            TradeType::Completed => "completed"@,
            TradeType::Inactive => "inactive"@,
        }
    }

    /// The name of this trade type as the trades list url spells it.
    pub fn as_str(self) -> (r: &'static str)
        ensures
            r@ == self.spec_as_str(),
    {
        match self {
            TradeType::Inbound => "inbound",
            TradeType::Outbound => "outbound",
            TradeType::Completed => "completed",
            TradeType::Inactive => "inactive",
        }
    }
}

/// The status of a Roblox trade. `Open` is the status for both inbound
/// and outbound trades.
#[allow(missing_docs)]
#[derive(Clone, Copy, Debug, PartialEq, Eq, Structural)]
pub enum TradeStatus {
    Open,
    Completed,
    Declined,
    Expired,
    RejectedDueToError,
}

/// The trade status that the service spells `s`, if any.
pub open spec fn spec_trade_status_from_str(s: Seq<char>) -> Option<TradeStatus> {
    if s == "Open"@ {
        Some(TradeStatus::Open)
    } else if s == "Completed"@ {
        Some(TradeStatus::Completed)
    } else if s == "Declined"@ {
        Some(TradeStatus::Declined)
    } else if s == "Expired"@ {
        Some(TradeStatus::Expired)
    } else if s == "RejectedDueToError"@ {
        Some(TradeStatus::RejectedDueToError)
    } else {
        None
    }
}

impl TradeStatus {
    /// Parses a trade status name; an unknown name is a malformed
    /// response.
    pub fn from_str(s: &str) -> (r: Result<TradeStatus, RoboatError>)
        ensures
            match spec_trade_status_from_str(s@) {
                Some(status) => r == Ok::<TradeStatus, RoboatError>(status),
                None => r == Err::<TradeStatus, RoboatError>(RoboatError::MalformedResponse),
            },
    {
        if str_eq(s, "Open") {
            Ok(TradeStatus::Open)
        } else if str_eq(s, "Completed") {
            Ok(TradeStatus::Completed)
        } else if str_eq(s, "Declined") {
            Ok(TradeStatus::Declined)
        } else if str_eq(s, "Expired") {
            Ok(TradeStatus::Expired)
        } else if str_eq(s, "RejectedDueToError") {
            Ok(TradeStatus::RejectedDueToError)
        } else {
            Err(RoboatError::MalformedResponse)
        }
    }
}

/// The details of a Roblox trade as listed by the trades list endpoint.
#[derive(Clone, Debug)]
pub struct Trade {
    /// The id of the trade. Used for accepting, declining and fetching
    /// trades.
    pub trade_id: u64,
    /// The details of the person you're trading with.
    pub partner: User,
    /// Whether one of the parties can still act on the trade.
    pub is_active: bool,
    /// The status of the trade.
    pub status: TradeStatus,
}

/// The details of an item in a trade.
#[allow(missing_docs)]
#[derive(Clone, Debug)]
pub struct TradeItem {
    pub item_id: u64,
    /// The serial number of the item. Only exists for limited Us.
    pub serial_number: Option<u64>,
    /// The unique asset id of the item.
    pub uaid: u64,
    pub name: String,
    /// The recent average price of the item.
    pub rap: u64,
}

/// The details of a trade.
#[derive(Clone, Debug)]
pub struct TradeDetails {
    /// Your partner in the trade deal.
    pub partner: User,
    /// The items you're offering.
    pub your_items: Vec<TradeItem>,
    /// The amount of robux you're offering.
    pub your_robux: u64,
    /// The items your partner is offering.
    pub partner_items: Vec<TradeItem>,
    /// The amount of robux your partner is offering.
    pub partner_robux: u64,
    /// The creation time of the trade in ISO 8601 format.
    pub created: String,
    /// The expiration time of the trade in ISO 8601 format.
    pub expiration: Option<String>,
    /// Whether one of the parties can still act on the trade.
    pub is_active: bool,
    /// The status of the trade.
    pub status: TradeStatus,
}

/// The raw shape of one user inside a trades response.
#[allow(missing_docs)]
#[derive(Clone, Debug)]
pub struct TradeUserRaw {
    pub id: i64,
    pub name: String,
    pub display_name: String,
}

/// The raw shape of one entry of the trades list response.
#[allow(missing_docs)]
#[derive(Clone, Debug)]
pub struct TradeRaw {
    pub id: i64,
    pub user: TradeUserRaw,
    pub created: String,
    pub expiration: String,
    pub is_active: bool,
    pub status: TradeStatus,
}

/// The raw shape of one asset inside a trade offer.
#[allow(missing_docs)]
#[derive(Clone, Debug)]
pub struct UserAssetRaw {
    pub id: i64,
    pub serial_number: Option<i64>,
    pub asset_id: i64,
    pub name: String,
    pub recent_average_price: i64,
}

/// One side of a trade: a user, the assets they put up, and their robux.
#[allow(missing_docs)]
#[derive(Clone, Debug)]
pub struct OfferRaw {
    pub user: TradeUserRaw,
    pub user_assets: Vec<UserAssetRaw>,
    pub robux: i64,
}

/// The raw shape of the trade details response. The account's user is the
/// first offer and the trade partner is the next; this is true for
/// inbound, outbound, and completed trades.
#[allow(missing_docs)]
#[derive(Clone, Debug)]
pub struct TradeDetailsResponse {
    pub offers: Vec<OfferRaw>,
    pub id: i64,
    pub created: String,
    pub expiration: Option<String>,
    pub is_active: bool,
    pub status: String,
}

/// The url of the trades list: the trade type, a fixed descending sort
/// order, the page cursor (empty when none), and the page size.
pub open spec fn spec_trades_url(trade_type: TradeType, limit: Limit, cursor: Option<String>) -> Seq<
    char,
> {
    "https://trades.roblox.com/v1/trades/"@ + trade_type.spec_as_str() + "?sortOrder=Desc&cursor="@
        + (match cursor {
        Some(c) => c@,
        None => Seq::<char>::empty(),
    }) + "&limit="@ + dec_str(limit.spec_to_u64() as nat)
}

/// Builds the url of the trades list for one page.
pub fn trades_url(trade_type: TradeType, limit: Limit, cursor: &Option<String>) -> (r: String)
    ensures
        r@ == spec_trades_url(trade_type, limit, *cursor),
{
    let mut url = String::from_str("https://trades.roblox.com/v1/trades/");
    url.append(trade_type.as_str());
    url.append("?sortOrder=Desc&cursor=");
    if let Some(c) = cursor {
        url.append(c.as_str());
    }
    url.append("&limit=");
    let encoded = u64_to_string(limit.to_u64());
    url.append(encoded.as_str());
    proof {
        assert(url@ =~= spec_trades_url(trade_type, limit, *cursor));
    }
    url
}

/// How one listed trade relates to its raw entry.
pub open spec fn spec_trade_from_raw(raw: TradeRaw, t: Trade) -> bool {
    &&& t.trade_id == raw.id as u64
    &&& t.partner.user_id == raw.user.id as u64
    &&& t.partner.username == raw.user.name
    &&& t.partner.display_name == raw.user.display_name
    &&& t.is_active == raw.is_active
    &&& t.status == raw.status
}

/// Reshapes the raw entries of a trades list response, keeping the order.
pub fn trades_from_response(data: Vec<TradeRaw>) -> (trades: Vec<Trade>)
    ensures
        trades@.len() == data@.len(),
        forall|i: int| 0 <= i < data@.len() ==> #[trigger] spec_trade_from_raw(
            data@[i],
            trades@[i],
        ),
{
    let mut trades: Vec<Trade> = Vec::new();
    let mut i: usize = 0;
    while i < data.len()
        invariant
            i <= data.len(),
            trades@.len() == i,
            forall|j: int| 0 <= j < i ==> #[trigger] spec_trade_from_raw(data@[j], trades@[j]),
        decreases data.len() - i,
    {
        let entry = &data[i];
        let partner = User {
            user_id: entry.user.id as u64,
            username: entry.user.name.clone(),
            display_name: entry.user.display_name.clone(),
        };
        trades.push(
            Trade {
                trade_id: entry.id as u64,
                partner,
                is_active: entry.is_active,
                status: entry.status,
            },
        );
        i = i + 1;
    }
    trades
}

/// How one trade item relates to its raw asset.
pub open spec fn spec_trade_item_from_raw(raw: UserAssetRaw, t: TradeItem) -> bool {
    &&& t.item_id == raw.asset_id as u64
    &&& t.serial_number == (match raw.serial_number {
        Some(s) => Some(s as u64),
        None => None::<u64>,
    })
    &&& t.uaid == raw.id as u64
    &&& t.name == raw.name
    &&& t.rap == raw.recent_average_price as u64
}

/// Reshapes the assets of one side of a trade, keeping the order.
fn trade_items_from_offer(assets: &Vec<UserAssetRaw>) -> (items: Vec<TradeItem>)
    ensures
        items@.len() == assets@.len(),
        forall|i: int| 0 <= i < assets@.len() ==> #[trigger] spec_trade_item_from_raw(
            assets@[i],
            items@[i],
        ),
{
    let mut items: Vec<TradeItem> = Vec::new();
    let mut i: usize = 0;
    while i < assets.len()
        invariant
            i <= assets.len(),
            items@.len() == i,
            forall|j: int| 0 <= j < i ==> #[trigger] spec_trade_item_from_raw(
                assets@[j],
                items@[j],
            ),
        decreases assets.len() - i,
    {
        let asset = &assets[i];
        let serial_number = match asset.serial_number {
            Some(s) => Some(s as u64),
            None => None,
        };
        items.push(
            TradeItem {
                item_id: asset.asset_id as u64,
                serial_number,
                uaid: asset.id as u64,
                name: asset.name.clone(),
                rap: asset.recent_average_price as u64,
            },
        );
        i = i + 1;
    }
    items
}

/// How the public trade details relate to the raw response: the first
/// offer is yours, the second is the partner's, and the status name is
/// parsed.
pub open spec fn spec_trade_details_from_response(raw: TradeDetailsResponse, d: TradeDetails) -> bool {
    &&& d.partner.user_id == raw.offers[1].user.id as u64
    &&& d.partner.username == raw.offers[1].user.name
    &&& d.partner.display_name == raw.offers[1].user.display_name
    &&& d.your_items@.len() == raw.offers[0].user_assets@.len()
    &&& forall|i: int|
        0 <= i < raw.offers[0].user_assets@.len() ==> #[trigger] spec_trade_item_from_raw(
            raw.offers[0].user_assets@[i],
            d.your_items@[i],
        )
    &&& d.partner_items@.len() == raw.offers[1].user_assets@.len()
    &&& forall|i: int|
        0 <= i < raw.offers[1].user_assets@.len() ==> #[trigger] spec_trade_item_from_raw(
            raw.offers[1].user_assets@[i],
            d.partner_items@[i],
        )
    &&& d.your_robux == raw.offers[0].robux as u64
    &&& d.partner_robux == raw.offers[1].robux as u64
    &&& d.created == raw.created
    &&& d.expiration == raw.expiration
    &&& d.is_active == raw.is_active
    &&& Some(d.status) == spec_trade_status_from_str(raw.status@)
}

/// Checks and reshapes the trade details response. A response with fewer
/// than two offers, or an unknown status name, is malformed.
pub fn trade_details_from_response(raw: TradeDetailsResponse) -> (r: Result<
    TradeDetails,
    RoboatError,
>)
    ensures
        r is Err <==> raw.offers@.len() < 2 || spec_trade_status_from_str(raw.status@) is None,
        r matches Err(e) ==> e is MalformedResponse,
        r matches Ok(d) ==> spec_trade_details_from_response(raw, d),
{
    if raw.offers.len() < 2 {
        return Err(RoboatError::MalformedResponse);
    }
    let status = match TradeStatus::from_str(raw.status.as_str()) {
        Ok(status) => status,
        Err(_) => return Err(RoboatError::MalformedResponse),
    };
    let partner = User {
        user_id: raw.offers[1].user.id as u64,
        username: raw.offers[1].user.name.clone(),
        display_name: raw.offers[1].user.display_name.clone(),
    };
    let your_items = trade_items_from_offer(&raw.offers[0].user_assets);
    let partner_items = trade_items_from_offer(&raw.offers[1].user_assets);
    Ok(
        TradeDetails {
            partner,
            your_items,
            your_robux: raw.offers[0].robux as u64,
            partner_items,
            partner_robux: raw.offers[1].robux as u64,
            created: raw.created,
            expiration: raw.expiration,
            is_active: raw.is_active,
            status,
        },
    )
}

} // verus!
