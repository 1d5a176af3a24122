//! The access policy, the fetch-step decision, and the outcome mappings.

use mdcat::resources::{
    complete_local_read, complete_process_fetch, curl_args, http_body_result,
    http_response_step, http_transport_failed, read_url_step, FetchStep, LocalReadOutcome,
    ProcessOutcome, ReadError, ResourceAccess, ResourceUrl,
};

/// The reader's view of a parsed URL: scheme, host (empty when absent),
/// and path.
fn model_of(u: &url::Url) -> ResourceUrl {
    ResourceUrl::new(u.scheme(), u.host_str().unwrap_or(""), u.path())
}

#[test]
fn resource_access_permits_local_resource() {
    let resource = model_of(&url::Url::parse("file:///foo/bar").unwrap());
    assert!(ResourceAccess::LocalOnly.permits(&resource));
    assert!(ResourceAccess::RemoteAllowed.permits(&resource));
}

#[test]
fn resource_access_permits_remote_file_url() {
    let resource = model_of(&url::Url::parse("file://example.com/foo/bar").unwrap());
    assert!(!ResourceAccess::LocalOnly.permits(&resource));
    assert!(ResourceAccess::RemoteAllowed.permits(&resource));
}

#[test]
fn resource_access_permits_https_url() {
    let resource = model_of(&url::Url::parse("https:///foo/bar").unwrap());
    assert!(!ResourceAccess::LocalOnly.permits(&resource));
    assert!(ResourceAccess::RemoteAllowed.permits(&resource));
}

#[test]
fn read_url_with_http_url_fails_if_local_only_access() {
    let url = model_of(&"https://eu.httpbin.org/status/404".parse::<url::Url>().unwrap());
    let error = match read_url_step(&url, ResourceAccess::LocalOnly) {
        FetchStep::Fail(e) => e.message(),
        step => panic!("Unexpected step: {:?}", step_kind(&step)),
    };
    assert_eq!(
        error,
        "Access denied to URL https://eu.httpbin.org/status/404 by policy LocalOnly"
    );
}

fn step_kind(step: &FetchStep) -> &'static str {
    match step {
        FetchStep::ReadLocalFile(_) => "ReadLocalFile",
        FetchStep::FetchRemote => "FetchRemote",
        FetchStep::Fail(_) => "Fail",
    }
}

#[test]
fn local_file_read_returns_its_bytes() {
    let url = model_of(&url::Url::parse("file:///tmp/t.txt").unwrap());
    let step = read_url_step(&url, ResourceAccess::LocalOnly);
    let path = match step {
        FetchStep::ReadLocalFile(path) => path,
        other => panic!("Unexpected step: {:?}", step_kind(&other)),
    };
    assert_eq!(path, "/tmp/t.txt");
    let outcome = LocalReadOutcome::Content(b"hello".to_vec());
    let result = complete_local_read(&url, outcome);
    assert_eq!(result, Ok(b"hello".to_vec()));
}

#[test]
fn hosted_file_url_is_denied_under_local_only() {
    let url = model_of(&url::Url::parse("file://example.com/foo/bar").unwrap());
    let error = match read_url_step(&url, ResourceAccess::LocalOnly) {
        FetchStep::Fail(e) => e,
        other => panic!("Unexpected step: {:?}", step_kind(&other)),
    };
    assert!(matches!(error, ReadError::AccessDenied { .. }));
    assert_eq!(
        error.message(),
        "Access denied to URL file://example.com/foo/bar by policy LocalOnly"
    );
}

#[test]
fn hosted_file_url_has_no_path_under_remote_allowed() {
    let url = model_of(&url::Url::parse("file://example.com/foo/bar").unwrap());
    let error = match read_url_step(&url, ResourceAccess::RemoteAllowed) {
        FetchStep::Fail(e) => e,
        other => panic!("Unexpected step: {:?}", step_kind(&other)),
    };
    assert!(matches!(error, ReadError::PathConversion { .. }));
    assert_eq!(
        error.message(),
        "Cannot convert URL file://example.com/foo/bar to file path"
    );
}

#[test]
fn http_url_is_dispatched_to_the_transport() {
    let url = model_of(&url::Url::parse("https://eu.httpbin.org/bytes/100").unwrap());
    let step = read_url_step(&url, ResourceAccess::RemoteAllowed);
    assert!(matches!(step, FetchStep::FetchRemote));
}

#[test]
fn http_status_404_yields_the_status_error() {
    let url = model_of(&url::Url::parse("https://eu.httpbin.org/status/404").unwrap());
    let step = read_url_step(&url, ResourceAccess::RemoteAllowed);
    assert!(matches!(step, FetchStep::FetchRemote));
    let error = http_response_step(&url, 404).unwrap_err();
    assert_eq!(
        error,
        ReadError::HttpStatus {
            url: "https://eu.httpbin.org/status/404".to_string(),
            status: 404
        }
    );
    assert_eq!(
        error.message(),
        "HTTP error status 404 by GET https://eu.httpbin.org/status/404"
    );
}

#[test]
fn http_status_200_body_of_length_100_yields_100_bytes() {
    let url = model_of(&url::Url::parse("https://eu.httpbin.org/bytes/100").unwrap());
    assert!(http_response_step(&url, 200).is_ok());
    let body: Vec<u8> = vec![7u8; 100];
    let result = http_body_result(&url, Ok(body.clone()));
    assert_eq!(result, Ok(body));
    assert_eq!(result.unwrap().len(), 100);
}

#[test]
fn http_status_299_is_still_a_success() {
    let url = model_of(&url::Url::parse("https://eu.httpbin.org/bytes/1").unwrap());
    assert!(http_response_step(&url, 299).is_ok());
    assert!(http_response_step(&url, 300).is_err());
    assert!(http_response_step(&url, 199).is_err());
}

#[test]
fn ftp_scheme_is_an_unsupported_protocol() {
    let url = model_of(&url::Url::parse("ftp://host/file").unwrap());
    let error = match read_url_step(&url, ResourceAccess::RemoteAllowed) {
        FetchStep::Fail(e) => e,
        other => panic!("Unexpected step: {:?}", step_kind(&other)),
    };
    assert!(matches!(error, ReadError::UnsupportedProtocol { .. }));
    assert_eq!(
        error.message(),
        "Cannot read from URL ftp://host/file, protocol ftp not supported"
    );
}

#[test]
fn file_open_failure_is_reported_with_the_url() {
    let url = ResourceUrl::new("file", "", "/no/such/file");
    let outcome = LocalReadOutcome::OpenFailed("No such file or directory".to_string());
    let error = complete_local_read(&url, outcome).unwrap_err();
    assert_eq!(
        error.message(),
        "Failed to open file at file:///no/such/file: No such file or directory"
    );
}

#[test]
fn file_read_failure_is_reported_with_the_url() {
    let url = ResourceUrl::new("file", "", "/dev/something");
    let outcome = LocalReadOutcome::ReadFailed("Input/output error".to_string());
    let error = complete_local_read(&url, outcome).unwrap_err();
    assert_eq!(
        error.message(),
        "Failed to read from file at file:///dev/something: Input/output error"
    );
}

#[test]
fn transport_failure_is_reported_with_the_url() {
    let url = ResourceUrl::new("https", "unreachable.invalid", "/x");
    let error = http_transport_failed(&url, "dns error".to_string());
    assert_eq!(
        error.message(),
        "Failed to GET https://unreachable.invalid/x: dns error"
    );
}

#[test]
fn body_read_failure_is_a_transport_error() {
    let url = ResourceUrl::new("https", "host", "/x");
    let error = http_body_result(&url, Err("connection reset".to_string())).unwrap_err();
    assert!(matches!(error, ReadError::NetworkTransport { .. }));
    assert_eq!(error.message(), "Failed to GET https://host/x: connection reset");
}

#[test]
fn process_fetch_success_returns_standard_output() {
    let url = ResourceUrl::new("https", "host", "/bytes/3");
    let outcome = ProcessOutcome::Exited {
        success: true,
        stdout: vec![1u8, 2u8, 3u8],
        stderr: String::new(),
    };
    assert_eq!(complete_process_fetch(&url, outcome), Ok(vec![1u8, 2u8, 3u8]));
}

#[test]
fn process_fetch_failure_carries_the_captured_stderr() {
    let url = ResourceUrl::new("https", "eu.httpbin.org", "/status/404");
    let outcome = ProcessOutcome::Exited {
        success: false,
        stdout: Vec::new(),
        stderr: "curl: (22) The requested URL returned error: 404".to_string(),
    };
    let error = complete_process_fetch(&url, outcome).unwrap_err();
    let message = error.message();
    assert!(
        message.contains("curl -fsSL https://eu.httpbin.org/status/404 failed:"),
        "Error did not contain expected string: {}",
        message
    );
    assert!(
        message.contains("URL returned error: 404"),
        "Error did not contain expected string: {}",
        message
    );
}

#[test]
fn process_spawn_failure_is_its_own_error() {
    let url = ResourceUrl::new("https", "host", "/x");
    let outcome = ProcessOutcome::SpawnFailed("No such file or directory".to_string());
    let error = complete_process_fetch(&url, outcome).unwrap_err();
    assert!(matches!(error, ReadError::ProcessSpawn { .. }));
    assert_eq!(error.message(), "curl failed to spawn: No such file or directory");
}

#[test]
fn curl_is_invoked_silent_failing_and_following_redirects() {
    let url = ResourceUrl::new("https", "host", "/file");
    let args = curl_args(&url);
    assert_eq!(args, vec!["-fsSL".to_string(), "https://host/file".to_string()]);
}

#[test]
fn denied_step_asks_for_no_io() {
    let url = ResourceUrl::new("https", "host", "/secret");
    let step = read_url_step(&url, ResourceAccess::LocalOnly);
    assert!(matches!(step, FetchStep::Fail(ReadError::AccessDenied { .. })));
}

#[test]
fn url_text_rebuilds_the_authority_form() {
    let url = ResourceUrl::new("https", "example.com", "/a/b?q=1");
    assert_eq!(url.text(), "https://example.com/a/b?q=1");
    let local = ResourceUrl::new("file", "", "/tmp/t.txt");
    assert_eq!(local.text(), "file:///tmp/t.txt");
}

#[test]
fn to_file_path_requires_an_empty_host() {
    let local = ResourceUrl::new("file", "", "/tmp/t.txt");
    assert_eq!(local.to_file_path(), Some("/tmp/t.txt".to_string()));
    let hosted = ResourceUrl::new("file", "example.com", "/tmp/t.txt");
    assert_eq!(hosted.to_file_path(), None);
}
