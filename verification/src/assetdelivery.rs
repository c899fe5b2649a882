//! Types for the asset delivery endpoints. These responses are very
//! dynamic and can miss almost any field, so most of them are optional.

use vstd::prelude::*;

verus! {

use crate::catalog::catalog_types::AssetType;
use crate::validation::RobloxErrorRaw;

/// Extra metadata attached to an asset location.
#[allow(missing_docs)]
#[derive(Clone, Debug)]
pub struct AssetMetadata {
    pub metadata_type: u8,
    pub value: String,
}

/// A download location of an asset, as the single-asset endpoint reports
/// it.
#[allow(missing_docs)]
#[derive(Clone, Debug)]
pub struct AssetLocation {
    pub asset_format: String,
    pub location: String,
    pub asset_metadatas: Vec<AssetMetadata>,
}

/// A download location of an asset, as the batch endpoint reports it.
#[allow(missing_docs)]
#[derive(Clone, Debug)]
pub struct Location {
    pub asset_format: Option<String>,
    pub location: Option<String>,
    pub asset_metadatas: Option<Vec<AssetMetadata>>,
}

/// Which content representation of an asset was served.
#[allow(missing_docs)]
#[derive(Clone, Debug)]
pub struct ContentRepresentationSpecifier {
    pub format: Option<String>,
    pub major_version: Option<String>,
    pub fidelity: Option<String>,
}

/// The metadata of one asset, as the single-asset endpoint reports it.
/// Note that errors can be embedded even under a success status.
#[allow(missing_docs)]
#[derive(Clone, Debug)]
pub struct AssetIdResponse {
    pub errors: Option<Vec<RobloxErrorRaw>>,
    pub locations: Vec<AssetLocation>,
    pub request_id: String,
    pub is_hash_dynamic: bool,
    pub is_copyright_protected: bool,
    pub is_archived: bool,
    pub asset_type_id: u64,
    pub is_recordable: bool,
}

/// One request of the asset batch endpoint. Every field is optional; the
/// set fields select which asset and which representation is asked for.
#[allow(missing_docs)]
#[derive(Clone, Debug)]
pub struct AssetBatchPayload {
    pub asset_name: Option<String>,
    pub asset_type: Option<String>,
    pub client_insert: Option<bool>,
    pub place_id: Option<String>,
    pub request_id: Option<String>,
    pub script_insert: Option<bool>,
    pub server_place_id: Option<String>,
    pub universe_id: Option<String>,
    pub accept: Option<String>,
    pub encoding: Option<String>,
    pub hash: Option<String>,
    pub user_asset_id: Option<String>,
    pub asset_id: Option<String>,
    pub version: Option<String>,
    pub asset_version_id: Option<String>,
    pub module_place_id: Option<String>,
    pub asset_format: Option<String>,
    pub roblox_asset_format: Option<String>,
    pub content_representation_priority_list: Option<String>,
    pub do_not_fallback_to_baseline_representation: Option<bool>,
}

/// One reply of the asset batch endpoint. Note that errors can be
/// embedded even under a success status.
#[allow(missing_docs)]
#[derive(Clone, Debug)]
pub struct AssetBatchResponse {
    pub errors: Option<Vec<RobloxErrorRaw>>,
    pub locations: Option<Vec<Location>>,
    pub request_id: Option<String>,
    pub is_hash_dynamic: Option<bool>,
    pub is_copyright_protected: Option<bool>,
    pub is_archived: Option<bool>,
    pub asset_type_id: Option<u8>,
    pub asset_type: Option<AssetType>,
    pub content_representation_specifier: Option<ContentRepresentationSpecifier>,
    pub is_recordable: Option<bool>,
}

} // verus!
