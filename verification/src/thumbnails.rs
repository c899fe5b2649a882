//! Types and verified logic for the thumbnails endpoints: the request-id
//! strings the batch endpoint wants, and the reordering of its replies
//! into argument order.

use vstd::prelude::*;
use vstd::string::*;

verus! {

use crate::text::{dec_str, u64_to_string};

/// A size for an asset thumbnail.
#[allow(missing_docs)]
#[derive(Clone, Copy, Debug, PartialEq, Eq, Structural)]
pub enum ThumbnailSize {
    S30x30,
    S42x42,
    S50x50,
    S60x62,
    S75x75,
    S110x110,
    S140x140,
    S150x150,
    S160x100,
    S160x600,
    S250x250,
    S256x144,
    S300x250,
    S304x166,
    S384x216,
    S396x216,
    S420x420,
    S480x270,
    S512x512,
    S576x324,
    S700x700,
    S728x90,
    S768x432,
    S1200x80,
}

impl ThumbnailSize {
    /// The spelling of this size on the wire, width by height.
    pub open spec fn spec_as_str(self) -> Seq<char> {
        match self {
            ThumbnailSize::S30x30 => "30x30"@,
            ThumbnailSize::S42x42 => "42x42"@,
            ThumbnailSize::S50x50 => "50x50"@,
            ThumbnailSize::S60x62 => "60x62"@,
            ThumbnailSize::S75x75 => "75x75"@,
            ThumbnailSize::S110x110 => "110x110"@,
            ThumbnailSize::S140x140 => "140x140"@,
            ThumbnailSize::S150x150 => "150x150"@,
            ThumbnailSize::S160x100 => "160x100"@,
            ThumbnailSize::S160x600 => "160x600"@,
            ThumbnailSize::S250x250 => "250x250"@,
            ThumbnailSize::S256x144 => "256x144"@,
            ThumbnailSize::S300x250 => "300x250"@,
            ThumbnailSize::S304x166 => "304x166"@,
            ThumbnailSize::S384x216 => "384x216"@,
            ThumbnailSize::S396x216 => "396x216"@,
            ThumbnailSize::S420x420 => "420x420"@,
            ThumbnailSize::S480x270 => "480x270"@,
            ThumbnailSize::S512x512 => "512x512"@,
            ThumbnailSize::S576x324 => "576x324"@,
            ThumbnailSize::S700x700 => "700x700"@,
            ThumbnailSize::S728x90 => "728x90"@,
            ThumbnailSize::S768x432 => "768x432"@,
            ThumbnailSize::S1200x80 => "1200x80"@,
        }
    }

    /// The name of this size as the endpoints spell it.
    pub fn as_str(self) -> (r: &'static str)
        ensures
            r@ == self.spec_as_str(),
    {
        match self {
            ThumbnailSize::S30x30 => "30x30",
            ThumbnailSize::S42x42 => "42x42",
            ThumbnailSize::S50x50 => "50x50",
            ThumbnailSize::S60x62 => "60x62",
            ThumbnailSize::S75x75 => "75x75",
            ThumbnailSize::S110x110 => "110x110",
            ThumbnailSize::S140x140 => "140x140",
            ThumbnailSize::S150x150 => "150x150",
            ThumbnailSize::S160x100 => "160x100",
            ThumbnailSize::S160x600 => "160x600",
            ThumbnailSize::S250x250 => "250x250",
            ThumbnailSize::S256x144 => "256x144",
            ThumbnailSize::S300x250 => "300x250",
            ThumbnailSize::S304x166 => "304x166",
            ThumbnailSize::S384x216 => "384x216",
            ThumbnailSize::S396x216 => "396x216",
            ThumbnailSize::S420x420 => "420x420",
            ThumbnailSize::S480x270 => "480x270",
            ThumbnailSize::S512x512 => "512x512",
            ThumbnailSize::S576x324 => "576x324",
            ThumbnailSize::S700x700 => "700x700",
            ThumbnailSize::S728x90 => "728x90",
            ThumbnailSize::S768x432 => "768x432",
            ThumbnailSize::S1200x80 => "1200x80",
        }
    }
}

/// Used to convey which type of thumbnail to fetch.
#[allow(missing_docs)]
#[derive(Clone, Copy, Debug, PartialEq, Eq, Structural)]
pub enum ThumbnailType {
    Avatar,
    AvatarHeadshot,
    Asset,
}

/// The type name sent in the batch request body. Note the capital S in
/// `AvatarHeadShot`, which only this field uses.
pub open spec fn spec_thumbnail_type_string(thumbnail_type: ThumbnailType) -> Seq<char> {
    match thumbnail_type {
        ThumbnailType::Avatar => "Avatar"@,
        ThumbnailType::AvatarHeadshot => "AvatarHeadShot"@,
        ThumbnailType::Asset => "Asset"@,
    }
}

/// Generates the type name sent in the batch request body.
pub fn generate_thumbnail_type_string(thumbnail_type: ThumbnailType) -> (r: String)
    ensures
        r@ == spec_thumbnail_type_string(thumbnail_type),
{
    match thumbnail_type {
        ThumbnailType::Avatar => String::from_str("Avatar"),
        ThumbnailType::AvatarHeadshot => String::from_str("AvatarHeadShot"),
        ThumbnailType::Asset => String::from_str("Asset"),
    }
}

/// The image format asked for: only asset thumbnails name one.
pub open spec fn spec_format(thumbnail_type: ThumbnailType, r: Option<String>) -> bool {
    match thumbnail_type {
        ThumbnailType::Avatar => r is None,
        ThumbnailType::AvatarHeadshot => r is None,
        ThumbnailType::Asset => r matches Some(f) && f@ == "png"@,
    }
}

/// Generates the image format field of the batch request body.
pub fn generate_format(thumbnail_type: ThumbnailType) -> (r: Option<String>)
    ensures
        spec_format(thumbnail_type, r),
{
    match thumbnail_type {
        ThumbnailType::Avatar => None,
        ThumbnailType::AvatarHeadshot => None,
        ThumbnailType::Asset => Some(String::from_str("png")),
    }
}

/// The request id of one entry of a batch request: the target id and the
/// other request fields joined by colons, spelled differently for each
/// thumbnail type.
pub open spec fn spec_request_id_string(
    thumbnail_type: ThumbnailType,
    id: u64,
    size: ThumbnailSize,
) -> Seq<char> {
    match thumbnail_type {
        ThumbnailType::Avatar => dec_str(id as nat) + ":undefined:Avatar:"@ + size.spec_as_str()
            + ":null:regular"@,
        ThumbnailType::AvatarHeadshot => dec_str(id as nat) + ":undefined:AvatarHeadshot:"@
            + size.spec_as_str() + ":null:regular"@,
        ThumbnailType::Asset => dec_str(id as nat) + "::Asset:"@ + size.spec_as_str()
            + ":png:regular"@,
    }
}

/// Generates the request id of one entry of a batch request.
pub fn generate_request_id_string(thumbnail_type: ThumbnailType, id: u64, size: ThumbnailSize) -> (r:
    String)
    ensures
        r@ == spec_request_id_string(thumbnail_type, id, size),
{
    let mut out = u64_to_string(id);
    match thumbnail_type {
        ThumbnailType::Avatar => {
            out.append(":undefined:Avatar:");
            out.append(size.as_str());
            out.append(":null:regular");
        },
        ThumbnailType::AvatarHeadshot => {
            out.append(":undefined:AvatarHeadshot:");
            out.append(size.as_str());
            out.append(":null:regular");
        },
        ThumbnailType::Asset => {
            out.append("::Asset:");
            out.append(size.as_str());
            out.append(":png:regular");
        },
    }
    out
}

/// One entry of the batch endpoint's reply.
#[derive(Clone, Debug, PartialEq, Eq)]
pub struct AssetThumbnailUrlDataRaw {
    /// The request id this entry answers.
    pub request_id: String,
    /// The error code of this entry, zero when none.
    pub error_code: i64,
    /// The error message of this entry, empty when none.
    pub error_message: String,
    /// The id the thumbnail was requested for.
    pub target_id: i64,
    /// The processing state of the thumbnail.
    pub state: String,
    /// The url the thumbnail can be fetched from.
    pub image_url: String,
}

/// The first position at or after `i` in `args` holding this target id,
/// or nothing when the id never occurs.
pub open spec fn spec_target_position_from(args: Seq<u64>, id: u64, i: int) -> Option<int>
    decreases args.len() - i,
    when 0 <= i <= args.len()
{
    if i >= args.len() {
        None
    } else if args[i] == id {
        Some(i)
    } else {
        spec_target_position_from(args, id, i + 1)
    }
}

/// The rank of a reply entry for argument-order sorting: the first
/// position of its target id among the requested ids, with ids that were
/// never requested ranked last.
pub open spec fn spec_target_rank(args: Seq<u64>, id: u64) -> int {
    match spec_target_position_from(args, id, 0) {
        Some(p) => p,
        None => usize::MAX as int,
    }
}

/// Finds the rank of a target id among the requested ids.
fn position_of_target(arguments: &Vec<u64>, id: u64) -> (r: usize)
    ensures
        r as int == spec_target_rank(arguments@, id),
{
    let mut i: usize = 0;
    while i < arguments.len()
        invariant
            i <= arguments.len(),
            spec_target_position_from(arguments@, id, 0) == spec_target_position_from(
                arguments@,
                id,
                i as int,
            ),
        decreases arguments.len() - i,
    {
        if arguments[i] == id {
            return i;
        }
        i = i + 1;
    }
    usize::MAX
}

/// Whether the reply entries are ordered by the first occurrence of their
/// target id among the requested ids.
pub open spec fn spec_url_datas_sorted(datas: Seq<AssetThumbnailUrlDataRaw>, args: Seq<u64>) -> bool {
    forall|i: int, j: int|
        0 <= i < j < datas.len() ==> spec_target_rank(args, datas[i].target_id as u64)
            <= spec_target_rank(args, datas[j].target_id as u64)
}

/// Makes sure that the url datas are in the same order as the arguments.
/// Entries whose target id was never requested go last; the result holds
/// exactly the entries that came in.
pub fn sort_url_datas_by_argument_order(
    url_datas: &mut Vec<AssetThumbnailUrlDataRaw>,
    arguments: &Vec<u64>,
)
    ensures
        final(url_datas)@.to_multiset() == old(url_datas)@.to_multiset(),
        spec_url_datas_sorted(final(url_datas)@, arguments@),
{
    broadcast use vstd::seq_lib::group_to_multiset_ensures;
    broadcast use vstd::multiset::group_multiset_axioms;

    let ghost original: Seq<AssetThumbnailUrlDataRaw> = url_datas@;
    let mut sorted_datas: Vec<AssetThumbnailUrlDataRaw> = Vec::new();
    while url_datas.len() > 0
        invariant
            sorted_datas@.to_multiset().add(url_datas@.to_multiset()) =~= original.to_multiset(),
            spec_url_datas_sorted(sorted_datas@, arguments@),
            forall|i: int, j: int|
                0 <= i < sorted_datas@.len() && 0 <= j < url_datas@.len() ==> spec_target_rank(
                    arguments@,
                    sorted_datas@[i].target_id as u64,
                ) <= spec_target_rank(arguments@, url_datas@[j].target_id as u64),
        decreases url_datas.len(),
    {
        let mut min_index: usize = 0;
        let mut min_rank: usize = position_of_target(arguments, url_datas[0].target_id as u64);
        let mut k: usize = 1;
        while k < url_datas.len()
            invariant
                url_datas@.len() > 0,
                1 <= k <= url_datas@.len(),
                min_index < k,
                min_rank as int == spec_target_rank(
                    arguments@,
                    url_datas@[min_index as int].target_id as u64,
                ),
                forall|t: int|
                    0 <= t < k ==> min_rank as int <= spec_target_rank(
                        arguments@,
                        url_datas@[t].target_id as u64,
                    ),
            decreases url_datas.len() - k,
        {
            let rank = position_of_target(arguments, url_datas[k].target_id as u64);
            if rank < min_rank {
                min_rank = rank;
                min_index = k;
            }
            k = k + 1;
        }
        let ghost datas_before: Seq<AssetThumbnailUrlDataRaw> = url_datas@;
        let ghost sorted_before: Seq<AssetThumbnailUrlDataRaw> = sorted_datas@;
        let next = url_datas.remove(min_index);
        sorted_datas.push(next);
        proof {
            assert(url_datas@ == datas_before.remove(min_index as int));
            assert(next == datas_before[min_index as int]);
            vstd::seq_lib::to_multiset_remove(datas_before, min_index as int);
            assert(sorted_datas@ == sorted_before.push(next));
            vstd::seq_lib::to_multiset_build(sorted_before, next);
            assert(datas_before.contains(next));
            vstd::seq_lib::to_multiset_contains(datas_before, next);
            broadcast use vstd::multiset::group_multiset_axioms;

            assert(sorted_datas@.to_multiset().add(url_datas@.to_multiset())
                =~= original.to_multiset());
            assert forall|i: int, j: int|
                0 <= i < sorted_datas@.len() && 0 <= j < url_datas@.len() implies spec_target_rank(
                arguments@,
                sorted_datas@[i].target_id as u64,
            ) <= spec_target_rank(arguments@, url_datas@[j].target_id as u64) by {
                if j < min_index {
                    assert(url_datas@[j] == datas_before[j]);
                } else {
                    assert(url_datas@[j] == datas_before[j + 1]);
                }
                if i < sorted_before.len() {
                    assert(sorted_datas@[i] == sorted_before[i]);
                } else {
                    assert(sorted_datas@[i] == next);
                }
            }
            assert(spec_url_datas_sorted(sorted_datas@, arguments@));
        }
    }
    proof {
        broadcast use vstd::multiset::group_multiset_axioms;

        vstd::seq_lib::to_multiset_len(url_datas@);
        assert(url_datas@.to_multiset()
            =~= vstd::multiset::Multiset::<AssetThumbnailUrlDataRaw>::empty());
        assert(sorted_datas@.to_multiset().add(url_datas@.to_multiset())
            =~= sorted_datas@.to_multiset());
    }
    let ghost sorted_final: Seq<AssetThumbnailUrlDataRaw> = sorted_datas@;
    url_datas.append(&mut sorted_datas);
    proof {
        assert(url_datas@ =~= sorted_final);
    }
}

/// Pulls the image url out of each reply entry, keeping the order.
pub fn image_urls_of(url_datas: &Vec<AssetThumbnailUrlDataRaw>) -> (urls: Vec<String>)
    ensures
        urls@.len() == url_datas@.len(),
        forall|i: int| 0 <= i < urls@.len() ==> #[trigger] urls@[i]@ == url_datas@[i].image_url@,
{
    let mut urls: Vec<String> = Vec::new();
    let mut i: usize = 0;
    while i < url_datas.len()
        invariant
            i <= url_datas.len(),
            urls@.len() == i,
            forall|j: int| 0 <= j < i ==> #[trigger] urls@[j]@ == url_datas@[j].image_url@,
        decreases url_datas.len() - i,
    {
        urls.push(url_datas[i].image_url.clone());
        i = i + 1;
    }
    urls
}

} // verus!
