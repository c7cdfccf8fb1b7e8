//! The records that the remote service hands back.
use vstd::prelude::*;

verus! {

/// The optional content hashes published for an asset.
#[derive(Debug, Clone)]
pub struct AssetHashes {
    pub sha1: Option<String>,
    pub sha256: Option<String>,
    pub sha512: Option<String>,
    pub md5: Option<String>,
}

/// One retrievable file belonging to a package version.
#[derive(Debug, Clone)]
pub struct Asset {
    pub download_url: String,
    pub path: String,
    pub format: String,
    pub checksum: AssetHashes,
    pub content_type: String,
    pub last_modified: String,
}

/// One package version record.
#[derive(Debug, Clone)]
pub struct SearchItem {
    pub id: String,
    pub repository: String,
    pub format: String,
    pub group: Option<String>,
    pub name: String,
    pub version: String,
    pub assets: Vec<Asset>,
    pub tags: Vec<String>,
}

/// One page of search results: its items in the order the service gave
/// them, and the token that asks for the next page, if there is one.
#[derive(Debug, Clone)]
pub struct SearchReturnBody {
    pub items: Vec<SearchItem>,
    pub continuation_token: Option<String>,
}

/// serde_json's JSON document, carried through without being read.
#[verifier::external_type_specification]
#[verifier::external_body]
pub struct ExJsonValue(serde_json::Value);

/// A configured remote repository. Its attributes are a format-specific
/// document that this library carries without reading.
#[derive(Debug)]
pub struct Repository {
    pub name: String,
    pub format: String,
    pub url: String,
    pub attributes: serde_json::Value,
}

} // verus!
