use nexus_client::auth::{resolve_credentials, Credentials};
use nexus_client::client::{query_string, NexusClient};
use nexus_client::download::{AssetOutcome, DownloadBatch, DownloadReport, NO_FILE_NAME};
use nexus_client::encode::url_encode;
use nexus_client::error::{check_status, NexusError};
use nexus_client::model::{Asset, AssetHashes, SearchItem, SearchReturnBody};
use nexus_client::search::{package_names, SearchSession, SearchStep};

const BASE: &str = "https://nexus.example.com";

fn credentials() -> Credentials {
    Credentials { identity: "builder".to_string(), secret: "SECRET-REDACTED".to_string() }
}

fn asset(path: &str) -> Asset {
    Asset {
        download_url: format!("{}/repository/{}", BASE, path),
        path: path.to_string(),
        format: "pypi".to_string(),
        checksum: AssetHashes { sha1: Some("abc123".to_string()), sha256: None, sha512: None, md5: None },
        content_type: "application/x-gzip".to_string(),
        last_modified: "2024-01-01T00:00:00.000+00:00".to_string(),
    }
}

fn item(id: &str, name: &str, version: &str, assets: Vec<Asset>) -> SearchItem {
    SearchItem {
        id: id.to_string(),
        repository: "pypi-internal".to_string(),
        format: "pypi".to_string(),
        group: None,
        name: name.to_string(),
        version: version.to_string(),
        assets,
        tags: Vec::new(),
    }
}

fn page(items: Vec<SearchItem>, token: Option<&str>) -> SearchReturnBody {
    SearchReturnBody { items, continuation_token: token.map(|t| t.to_string()) }
}

fn fetch_url(step: SearchStep) -> String {
    match step {
        SearchStep::Fetch(request) => request.url,
        other => panic!("expected a request, got {:?}", other),
    }
}

#[test]
fn with_url_uses_default_path_and_version() {
    let client = NexusClient::with_url(BASE);
    assert_eq!(client.base_url, BASE);
    assert_eq!(client.url_path, "/service/rest");
    assert_eq!(client.api_version, "/v1");
}

#[test]
fn construct_keeps_every_part() {
    let client = NexusClient::construct("http://localhost:8081", "/nexus", "/v2");
    assert_eq!(client.repositories_url(), "http://localhost:8081/nexus/v2/repositories");
}

#[test]
fn repositories_url_has_no_query() {
    let client = NexusClient::with_url(BASE);
    assert_eq!(client.repositories_url(), "https://nexus.example.com/service/rest/v1/repositories");
}

#[test]
fn search_url_with_all_filters() {
    let client = NexusClient::with_url(BASE);
    let url = client.search_url("pypi-internal", Some("document-store"), Some("0.2.1"), None);
    assert_eq!(
        url,
        "https://nexus.example.com/service/rest/v1/search?repository=pypi-internal&name=document-store&version=0.2.1"
    );
}

#[test]
fn search_url_sends_absent_filters_empty() {
    let client = NexusClient::with_url(BASE);
    let url = client.search_url("pypi-internal", None, None, None);
    assert_eq!(url, "https://nexus.example.com/service/rest/v1/search?repository=pypi-internal&name=&version=");
}

#[test]
fn search_url_appends_continuation_token() {
    let client = NexusClient::with_url(BASE);
    let url = client.search_url("pypi-internal", Some("document-store"), None, Some("abc"));
    assert_eq!(
        url,
        "https://nexus.example.com/service/rest/v1/search?repository=pypi-internal&name=document-store&version=&continuationToken=abc"
    );
}

#[test]
fn query_string_lists_filters_in_order() {
    assert_eq!(query_string("maven", Some("core"), None), "repository=maven&name=core&version=");
}

#[test]
fn missing_identity_fails() {
    let r = resolve_credentials(None, Some("SECRET-REDACTED".to_string()));
    assert!(matches!(r, Err(NexusError::MissingCredentials)));
}

#[test]
fn missing_secret_fails() {
    let r = resolve_credentials(Some("builder".to_string()), None);
    assert!(matches!(r, Err(NexusError::MissingCredentials)));
}

#[test]
fn empty_credentials_are_not_missing() {
    let r = resolve_credentials(Some(String::new()), Some(String::new())).unwrap();
    assert_eq!(r.identity, "");
    assert_eq!(r.secret, "");
}

#[test]
fn present_credentials_are_sent_with_each_request() {
    let creds = resolve_credentials(Some("builder".to_string()), Some("SECRET-REDACTED".to_string())).unwrap();
    let client = NexusClient::with_url(BASE);
    let session = SearchSession::new("pypi-internal", None, None, None);
    match session.next_step(&client, &creds) {
        SearchStep::Fetch(request) => {
            assert_eq!(request.identity, "builder");
            assert_eq!(request.secret, "SECRET-REDACTED");
        }
        other => panic!("expected a request, got {:?}", other),
    }
}

#[test]
fn search_concatenates_two_pages_following_the_token() {
    let client = NexusClient::with_url(BASE);
    let creds = credentials();
    let mut session = SearchSession::new("pypi-internal", Some("document-store"), Some("0.2.1"), None);

    let first = fetch_url(session.next_step(&client, &creds));
    assert!(!first.contains("continuationToken"));
    session.accept_page(page(vec![item("1", "document-store", "0.2.1", vec![asset("a/one.tar.gz")])], Some("abc")));

    let second = fetch_url(session.next_step(&client, &creds));
    assert!(second.ends_with("&version=0.2.1&continuationToken=abc"));
    session.accept_page(page(vec![item("2", "document-store", "0.2.1", vec![asset("b/two.whl")])], None));

    assert!(matches!(session.next_step(&client, &creds), SearchStep::Finished));
    assert_eq!(session.pages, 2);
    let items = session.finish().unwrap();
    assert_eq!(items.len(), 2);
    assert_eq!(items[0].id, "1");
    assert_eq!(items[1].id, "2");
}

#[test]
fn search_keeps_page_order_and_duplicates() {
    let client = NexusClient::with_url(BASE);
    let creds = credentials();
    let mut session = SearchSession::new("pypi-internal", None, None, None);
    let mut requests = 0;
    let pages = vec![
        page(vec![item("1", "a", "1", vec![]), item("2", "b", "1", vec![])], Some("t1")),
        page(vec![item("1", "a", "1", vec![])], Some("t2")),
        page(vec![item("3", "c", "1", vec![])], None),
    ];
    for p in pages {
        match session.next_step(&client, &creds) {
            SearchStep::Fetch(_) => requests += 1,
            other => panic!("expected a request, got {:?}", other),
        }
        session.accept_page(p);
    }
    assert!(matches!(session.next_step(&client, &creds), SearchStep::Finished));
    assert_eq!(requests, 3);
    let ids: Vec<String> = session.finish().unwrap().into_iter().map(|i| i.id).collect();
    assert_eq!(ids, vec!["1", "2", "1", "3"]);
}

#[test]
fn single_empty_page_ends_search() {
    let client = NexusClient::with_url(BASE);
    let creds = credentials();
    let mut session = SearchSession::new("pypi-internal", None, None, None);
    let _ = fetch_url(session.next_step(&client, &creds));
    session.accept_page(page(vec![], None));
    assert!(matches!(session.next_step(&client, &creds), SearchStep::Finished));
    assert!(session.finish().unwrap().is_empty());
}

#[test]
fn page_cap_stops_a_search_that_keeps_going() {
    let client = NexusClient::with_url(BASE);
    let creds = credentials();
    let mut session = SearchSession::new("pypi-internal", Some("x"), None, Some(2));
    for token in ["t1", "t1"] {
        let _ = fetch_url(session.next_step(&client, &creds));
        session.accept_page(page(vec![item("1", "x", "1", vec![])], Some(token)));
    }
    assert!(matches!(session.next_step(&client, &creds), SearchStep::PageLimitReached));
    match session.finish() {
        Err(NexusError::PageLimitExceeded { context, pages }) => {
            assert_eq!(context, "repository=pypi-internal&name=x&version=");
            assert_eq!(pages, 2);
        }
        other => panic!("expected the page cap, got {:?}", other),
    }
}

#[test]
fn package_names_project_in_order_with_duplicates() {
    let items = vec![
        item("1", "document-store", "0.2.1", vec![]),
        item("2", "requests", "2.0", vec![]),
        item("3", "document-store", "0.2.2", vec![]),
    ];
    assert_eq!(package_names(&items), vec!["document-store", "requests", "document-store"]);
    assert!(package_names(&Vec::new()).is_empty());
}

#[test]
fn download_takes_only_the_first_page() {
    // The search for pypi-internal / document-store / 0.2.1 answers with two
    // pages; the download is planned from the first alone.
    let client = NexusClient::with_url(BASE);
    let creds = credentials();
    let first = page(
        vec![item("1", "document-store", "0.2.1", vec![asset("packages/document-store/0.2.1/document_store-0.2.1.tar.gz")])],
        Some("abc"),
    );
    let second = page(vec![item("2", "document-store", "0.2.1", vec![asset("packages/other/other.whl")])], None);

    let mut session = SearchSession::new("pypi-internal", Some("document-store"), Some("0.2.1"), None);
    let _ = fetch_url(session.next_step(&client, &creds));
    session.accept_page(first.clone());
    let _ = fetch_url(session.next_step(&client, &creds));
    session.accept_page(second);
    assert_eq!(session.finish().unwrap().len(), 2);

    let mut batch = DownloadBatch::from_page(&first);
    assert_eq!(batch.tasks.len(), 1);
    let job = batch.next_download(&creds).unwrap();
    assert_eq!(job.file_name, "document_store-0.2.1.tar.gz");
    assert_eq!(
        job.request.url,
        "https://nexus.example.com/repository/packages/document-store/0.2.1/document_store-0.2.1.tar.gz"
    );
    batch.record(AssetOutcome::Saved { file_name: job.file_name.clone() });
    assert!(batch.next_download(&creds).is_none());
    match batch.report() {
        DownloadReport::Completed(outcomes) => assert_eq!(outcomes.len(), 1),
        DownloadReport::NotFound => panic!("the page held an item"),
    }
}

#[test]
fn item_without_assets_downloads_nothing() {
    let creds = credentials();
    let mut batch = DownloadBatch::from_page(&page(vec![item("1", "empty", "1", vec![])], None));
    assert!(batch.tasks.is_empty());
    assert!(batch.next_download(&creds).is_none());
    match batch.report() {
        DownloadReport::Completed(outcomes) => assert!(outcomes.is_empty()),
        DownloadReport::NotFound => panic!("the page held an item"),
    }
}

#[test]
fn no_items_is_not_found() {
    let creds = credentials();
    let mut batch = DownloadBatch::from_page(&page(vec![], None));
    assert!(!batch.found);
    assert!(batch.next_download(&creds).is_none());
    assert!(matches!(batch.report(), DownloadReport::NotFound));
}

#[test]
fn failed_asset_does_not_stop_its_sibling() {
    let creds = credentials();
    let first = page(vec![item("1", "pkg", "1", vec![asset("pkg/1/pkg-1.tar.gz"), asset("pkg/1/pkg-1.whl")])], None);
    let mut batch = DownloadBatch::from_page(&first);

    let job = batch.next_download(&creds).unwrap();
    assert_eq!(job.index, 0);
    batch.record(AssetOutcome::Failed(NexusError::NetworkError {
        context: job.file_name.clone(),
        detail: "connection refused".to_string(),
    }));

    let job = batch.next_download(&creds).unwrap();
    assert_eq!(job.index, 1);
    assert_eq!(job.file_name, "pkg-1.whl");
    batch.record(AssetOutcome::Saved { file_name: job.file_name.clone() });

    assert!(batch.next_download(&creds).is_none());
    match batch.report() {
        DownloadReport::Completed(outcomes) => {
            assert_eq!(outcomes.len(), 2);
            assert!(matches!(outcomes[0], AssetOutcome::Failed(NexusError::NetworkError { .. })));
            assert!(matches!(&outcomes[1], AssetOutcome::Saved { file_name } if file_name == "pkg-1.whl"));
        }
        DownloadReport::NotFound => panic!("the page held an item"),
    }
}

#[test]
fn asset_path_without_file_name_fails_alone() {
    let creds = credentials();
    let first = page(vec![item("1", "pkg", "1", vec![asset("pkg/.."), asset("pkg/pkg-1.zip")])], None);
    let mut batch = DownloadBatch::from_page(&first);
    assert!(batch.tasks[0].file_name.is_none());

    let job = batch.next_download(&creds).unwrap();
    assert_eq!(job.index, 1);
    assert_eq!(job.file_name, "pkg-1.zip");
    match &batch.outcomes[0] {
        AssetOutcome::Failed(NexusError::FilesystemError { context, detail }) => {
            assert_eq!(context, "repository=pypi-internal&name=pkg&version=1&path=pkg%2F..");
            assert_eq!(detail, NO_FILE_NAME);
        }
        other => panic!("expected a filesystem failure, got {:?}", other),
    }
}

#[test]
fn download_tasks_follow_item_then_asset_order() {
    let first = page(
        vec![
            item("1", "a", "1", vec![asset("a/x.tar.gz"), asset("a/y.whl")]),
            item("2", "b", "1", vec![]),
            item("3", "c", "1", vec![asset("c/z.zip")]),
        ],
        None,
    );
    let batch = DownloadBatch::from_page(&first);
    let names: Vec<Option<String>> = batch.tasks.iter().map(|t| t.file_name.clone()).collect();
    assert_eq!(names, vec![Some("x.tar.gz".to_string()), Some("y.whl".to_string()), Some("z.zip".to_string())]);
    let paths: Vec<&str> = batch.tasks.iter().map(|t| t.path.as_str()).collect();
    assert_eq!(paths, vec!["a/x.tar.gz", "a/y.whl", "c/z.zip"]);
}

#[test]
fn unreserved_characters_pass_unchanged() {
    assert_eq!(url_encode("AZaz09-._~"), "AZaz09-._~");
    assert_eq!(url_encode(""), "");
}

#[test]
fn reserved_characters_are_percent_encoded() {
    assert_eq!(url_encode("a b&c=d?e#f+g/h%"), "a%20b%26c%3Dd%3Fe%23f%2Bg%2Fh%25");
}

#[test]
fn non_ascii_is_encoded_by_its_utf8_bytes() {
    assert_eq!(url_encode("caf\u{e9}"), "caf%C3%A9");
    assert_eq!(url_encode("\u{1F600}"), "%F0%9F%98%80");
}

#[test]
fn search_values_cannot_run_into_each_other() {
    let client = NexusClient::with_url(BASE);
    let first = client.search_url("r", Some("y&version=z"), None, None);
    let second = client.search_url("r", Some("y"), Some("z&version="), None);
    assert_ne!(first, second);
    assert_eq!(first, "https://nexus.example.com/service/rest/v1/search?repository=r&name=y%26version%3Dz&version=");
    assert_eq!(second, "https://nexus.example.com/service/rest/v1/search?repository=r&name=y&version=z%26version%3D");
}

#[test]
fn continuation_token_is_encoded() {
    let client = NexusClient::with_url(BASE);
    let url = client.search_url("r", None, None, Some("a+b/c="));
    assert!(url.ends_with("&continuationToken=a%2Bb%2Fc%3D"));
}

#[test]
fn success_statuses_pass() {
    assert!(check_status(200, "repositories").is_ok());
    assert!(check_status(204, "repositories").is_ok());
    assert!(check_status(299, "repositories").is_ok());
}

#[test]
fn failure_statuses_become_http_errors() {
    for status in [199u16, 301, 401, 404, 500] {
        match check_status(status, "repository=r&name=&version=") {
            Err(NexusError::HttpError { context, status: s }) => {
                assert_eq!(context, "repository=r&name=&version=");
                assert_eq!(s, status);
            }
            other => panic!("expected an HTTP failure for {}, got {:?}", status, other),
        }
    }
}

#[test]
fn download_job_names_repository_package_version_and_path() {
    let creds = credentials();
    let first = page(vec![item("1", "document-store", "0.2.1", vec![asset("packages/ds/ds 1.tar.gz")])], None);
    let mut batch = DownloadBatch::from_page(&first);
    let job = batch.next_download(&creds).unwrap();
    assert_eq!(job.file_name, "ds 1.tar.gz");
    assert_eq!(
        job.context,
        "repository=pypi-internal&name=document-store&version=0.2.1&path=packages%2Fds%2Fds%201.tar.gz"
    );
}
