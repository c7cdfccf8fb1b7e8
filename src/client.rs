//! The client's fixed configuration and the addresses it requests.
use vstd::prelude::*;
use crate::encode::{append_encoded, encoded};

verus! {

/// The path prefix of the service's REST interface, unless configured otherwise.
pub const DEFAULT_URL_PATH: &'static str = "/service/rest";

/// The API version segment, unless configured otherwise.
pub const DEFAULT_API_VERSION: &'static str = "/v1";

/// The search endpoint, relative to the API root.
pub const SEARCH_ENDPOINT: &'static str = "/search";

/// The repository listing endpoint, relative to the API root.
pub const REPOSITORIES_ENDPOINT: &'static str = "/repositories";

/// The view of an optional text value.
pub open spec fn str_opt_view(o: Option<&str>) -> Option<Seq<char>> {
    match o {
        Some(s) => Some(s@),
        None => None,
    }
}

/// A filter as sent: an absent one is sent empty, which matches everything.
pub open spec fn or_empty(o: Option<Seq<char>>) -> Seq<char> {
    match o {
        Some(s) => s,
        None => Seq::empty(),
    }
}

/// The query string of a search, without its continuation token: each
/// value percent-encoded, so that the string reads back unambiguously.
pub open spec fn query_string_spec(repository: Seq<char>, name: Seq<char>, version: Seq<char>) -> Seq<
    char,
> {
    "repository="@ + encoded(repository) + "&name="@ + encoded(name) + "&version="@ + encoded(
        version,
    )
}

/// What a continuation token adds to the query string.
pub open spec fn token_part(token: Option<Seq<char>>) -> Seq<char> {
    match token {
        Some(t) => "&continuationToken="@ + encoded(t),
        None => Seq::empty(),
    }
}

/// Where the service lives: fixed at construction and shared, read-only, by
/// every operation issued through the client.
#[derive(Debug, Clone)]
pub struct NexusClient {
    pub base_url: String,
    pub url_path: String,
    pub api_version: String,
}

impl NexusClient {
    /// A client for the given base address, with the default path prefix and
    /// API version.
    pub fn with_url(base_url: &str) -> (r: NexusClient)
        ensures
            r.base_url@ == base_url@,
            r.url_path@ == DEFAULT_URL_PATH@,
            r.api_version@ == DEFAULT_API_VERSION@,
    {
        NexusClient::construct(base_url, DEFAULT_URL_PATH, DEFAULT_API_VERSION)
    }

    /// A client with every part of its address given.
    pub fn construct(base_url: &str, url_path: &str, api_version: &str) -> (r: NexusClient)
        ensures
            r.base_url@ == base_url@,
            r.url_path@ == url_path@,
            r.api_version@ == api_version@,
    {
        NexusClient {
            base_url: base_url.to_string(),
            url_path: url_path.to_string(),
            api_version: api_version.to_string(),
        }
    }

    /// The address of an endpoint: base, path prefix, API version, endpoint.
    pub open spec fn endpoint_spec(self, endpoint: Seq<char>) -> Seq<char> {
        self.base_url@ + self.url_path@ + self.api_version@ + endpoint
    }

    /// The address of a search request.
    pub open spec fn search_url_spec(
        self,
        repository: Seq<char>,
        name: Seq<char>,
        version: Seq<char>,
        token: Option<Seq<char>>,
    ) -> Seq<char> {
        self.endpoint_spec(SEARCH_ENDPOINT@) + "?"@ + query_string_spec(repository, name, version)
            + token_part(token)
    }

    /// The address of `endpoint` under this client's API root.
    pub fn endpoint_url(&self, endpoint: &str) -> (r: String)
        ensures
            r@ == self.endpoint_spec(endpoint@),
    {
        let mut url = self.base_url.clone();
        url.append(self.url_path.as_str());
        url.append(self.api_version.as_str());
        url.append(endpoint);
        url
    }

    /// The address that lists the configured repositories; it has no query string.
    pub fn repositories_url(&self) -> (r: String)
        ensures
            r@ == self.endpoint_spec(REPOSITORIES_ENDPOINT@),
    {
        self.endpoint_url(REPOSITORIES_ENDPOINT)
    }

    /// The address of one search request. An absent name or version is sent
    /// empty (it matches everything); the continuation token is appended only
    /// when there is one. Every value is percent-encoded.
    pub fn search_url(
        &self,
        repository: &str,
        package_name: Option<&str>,
        version: Option<&str>,
        continuation_token: Option<&str>,
    ) -> (r: String)
        ensures
            r@ == self.search_url_spec(
                repository@,
                or_empty(str_opt_view(package_name)),
                or_empty(str_opt_view(version)),
                str_opt_view(continuation_token),
            ),
    {
        let mut url = self.endpoint_url(SEARCH_ENDPOINT);
        url.append("?");
        let query = query_string(repository, package_name, version);
        url.append(query.as_str());
        match continuation_token {
            Some(token) => {
                url.append("&continuationToken=");
                append_encoded(&mut url, token);
            },
            None => {},
        }
        url
    }
}

fn or_empty_str(o: Option<&str>) -> (r: &str)
    ensures
        r@ == or_empty(str_opt_view(o)),
{
    match o {
        Some(s) => s,
        None => {
            proof {
                reveal_strlit("");
            }
            ""
        },
    }
}

/// The query string of a search: repository, name and version filters, in
/// that order, each percent-encoded, an absent filter sent empty.
pub fn query_string(repository: &str, package_name: Option<&str>, version: Option<&str>) -> (r:
    String)
    ensures
        r@ == query_string_spec(
            repository@,
            or_empty(str_opt_view(package_name)),
            or_empty(str_opt_view(version)),
        ),
{
    let mut query = "repository=".to_string();
    append_encoded(&mut query, repository);
    query.append("&name=");
    append_encoded(&mut query, or_empty_str(package_name));
    query.append("&version=");
    append_encoded(&mut query, or_empty_str(version));
    query
}

} // verus!
