//! Access to resources referenced from markdown documents.
//!
//! The reader works on plain URL parts — scheme, host, path — and decides,
//! for a URL and an access policy, what may be done: read a local file,
//! delegate to the HTTP transport backend, or fail with a precise reason.
//! The decision ([`read_url_step`]) and the mapping of every transfer
//! outcome back to bytes or a typed failure are verified here; the transfer
//! itself — opening a file, issuing a GET, spawning the fetch tool — is the
//! embedding program's business.  A denied URL never reaches any I/O: the
//! step for it is an immediate failure.

use vstd::prelude::*;
use crate::digits::dec_str;
use crate::digits::u16_to_dec;

verus! {

/// What kind of resources may be accessed when rendering.
#[derive(Debug, Copy, Clone, PartialEq, Eq, Structural)]
pub enum ResourceAccess {
    /// Use only local files and prohibit remote resources.
    LocalOnly,
    /// Use local and remote resources alike.
    RemoteAllowed,
}

/// The name of the policy, as diagnostics print it.
pub open spec fn policy_name_spec(a: ResourceAccess) -> Seq<char> {
    match a {
        ResourceAccess::LocalOnly => "LocalOnly"@,
        ResourceAccess::RemoteAllowed => "RemoteAllowed"@,
    }
}

/// The parts of a URL that the reader inspects.
///
/// A URL of the authority form `scheme://host/path` is held as its three
/// parts; an empty host stands for a URL with no host component, as in
/// `file:///foo/bar`.  For `file:` URLs the path is the candidate local
/// filesystem path; for every scheme, query text belongs to `path`.
pub struct ResourceUrl {
    scheme: String,
    host: String,
    path: String,
}

/// The mathematical value of a [`ResourceUrl`]: its three parts as
/// character sequences.
pub struct UrlParts {
    pub scheme: Seq<char>,
    pub host: Seq<char>,
    pub path: Seq<char>,
}

impl View for ResourceUrl {
    type V = UrlParts;

    closed spec fn view(&self) -> UrlParts {
        UrlParts { scheme: self.scheme@, host: self.host@, path: self.path@ }
    }
}

/// The textual form of the URL, `scheme://host/path`.
pub open spec fn url_text_spec(u: UrlParts) -> Seq<char> {
    u.scheme + "://"@ + u.host + u.path
}

/// Whether the URL is readable as a local `file:`: its scheme is `file`
/// and it has no host component.
pub open spec fn is_local_spec(u: UrlParts) -> bool {
    u.scheme == "file"@ && u.host.len() == 0
}

/// Whether the policy `a` permits access to the URL `u`: `RemoteAllowed`
/// permits every URL, `LocalOnly` only local `file:` URLs.
pub open spec fn permits_spec(a: ResourceAccess, u: UrlParts) -> bool {
    match a {
        ResourceAccess::LocalOnly => is_local_spec(u),
        ResourceAccess::RemoteAllowed => true,
    }
}

impl ResourceUrl {
    /// A URL from its parts.  An empty `host` stands for no host at all.
    pub fn new(scheme: &str, host: &str, path: &str) -> (u: ResourceUrl)
        ensures
            u@.scheme == scheme@,
            u@.host == host@,
            u@.path == path@,
    {
        ResourceUrl { scheme: scheme.to_owned(), host: host.to_owned(), path: path.to_owned() }
    }

    /// The textual form of the URL, `scheme://host/path`.
    pub fn text(&self) -> (t: String)
        ensures
            t@ == url_text_spec(self@),
    {
        let mut t = self.scheme.clone();
        t.append("://");
        t.append(self.host.as_str());
        t.append(self.path.as_str());
        t
    }

    /// The local filesystem path of the URL, if it has one: the URL's path,
    /// available exactly when the URL has no host component.
    pub fn to_file_path(&self) -> (r: Option<String>)
        ensures
            self@.host.len() == 0 ==> (r matches Some(p) && p@ == self@.path),
            self@.host.len() != 0 ==> r is None,
    {
        if self.host.as_str().is_empty() {
            Some(self.path.clone())
        } else {
            None
        }
    }
}

/// Whether `url` is readable as local file:.
fn is_local(url: &ResourceUrl) -> (b: bool)
    ensures
        b == is_local_spec(url@),
{
    url.scheme == "file".to_owned() && url.host.as_str().is_empty()
}

impl ResourceAccess {
    /// Whether the resource access permits access to the given `url`.
    pub fn permits(self, url: &ResourceUrl) -> (b: bool)
        ensures
            b == permits_spec(self, url@),
    {
        match self {
            ResourceAccess::LocalOnly => is_local(url),
            ResourceAccess::RemoteAllowed => true,
        }
    }

    /// The policy's name, as diagnostics print it.
    pub fn name(self) -> (s: String)
        ensures
            s@ == policy_name_spec(self),
    {
        match self {
            ResourceAccess::LocalOnly => "LocalOnly".to_owned(),
            ResourceAccess::RemoteAllowed => "RemoteAllowed".to_owned(),
        }
    }
}

/// Why a resource could not be read.
#[derive(Debug, Clone, PartialEq, Eq)]
pub enum ReadError {
    /// The policy does not permit the URL.
    AccessDenied { url: String, policy: ResourceAccess },
    /// A `file:` URL that cannot be expressed as a local filesystem path.
    PathConversion { url: String },
    /// The URL's scheme is none the reader supports.
    UnsupportedProtocol { url: String, scheme: String },
    /// The local file could not be opened.
    FileOpen { url: String, cause: String },
    /// The local file could not be fully read.
    FileRead { url: String, cause: String },
    /// The HTTP transfer failed below the protocol: DNS, connection, TLS,
    /// or an interrupted response body.
    NetworkTransport { url: String, cause: String },
    /// The HTTP response carried a non-success status.
    HttpStatus { url: String, status: u16 },
    /// The external fetch tool could not be started.
    ProcessSpawn { cause: String },
    /// The external fetch tool ran and exited with a failure.
    ProcessExecution { url: String, stderr: String },
}

/// The mathematical value of a [`ReadError`].
pub enum ErrorParts {
    AccessDenied { url: Seq<char>, policy: ResourceAccess },
    PathConversion { url: Seq<char> },
    UnsupportedProtocol { url: Seq<char>, scheme: Seq<char> },
    FileOpen { url: Seq<char>, cause: Seq<char> },
    FileRead { url: Seq<char>, cause: Seq<char> },
    NetworkTransport { url: Seq<char>, cause: Seq<char> },
    HttpStatus { url: Seq<char>, status: u16 },
    ProcessSpawn { cause: Seq<char> },
    ProcessExecution { url: Seq<char>, stderr: Seq<char> },
}

impl View for ReadError {
    type V = ErrorParts;

    closed spec fn view(&self) -> ErrorParts {
        match self {
            ReadError::AccessDenied { url, policy } => ErrorParts::AccessDenied {
                url: url@,
                policy: *policy,
            },
            ReadError::PathConversion { url } => ErrorParts::PathConversion { url: url@ },
            ReadError::UnsupportedProtocol { url, scheme } => ErrorParts::UnsupportedProtocol {
                url: url@,
                scheme: scheme@,
            },
            ReadError::FileOpen { url, cause } => ErrorParts::FileOpen {
                url: url@,
                cause: cause@,
            },
            ReadError::FileRead { url, cause } => ErrorParts::FileRead {
                url: url@,
                cause: cause@,
            },
            ReadError::NetworkTransport { url, cause } => ErrorParts::NetworkTransport {
                url: url@,
                cause: cause@,
            },
            ReadError::HttpStatus { url, status } => ErrorParts::HttpStatus {
                url: url@,
                status: *status,
            },
            ReadError::ProcessSpawn { cause } => ErrorParts::ProcessSpawn { cause: cause@ },
            ReadError::ProcessExecution { url, stderr } => ErrorParts::ProcessExecution {
                url: url@,
                stderr: stderr@,
            },
        }
    }
}

/// The diagnostic line for the failure `e`.
pub open spec fn message_spec(e: ErrorParts) -> Seq<char> {
    match e {
        ErrorParts::AccessDenied { url, policy } => "Access denied to URL "@ + url
            + " by policy "@ + policy_name_spec(policy),
        ErrorParts::PathConversion { url } => "Cannot convert URL "@ + url + " to file path"@,
        ErrorParts::UnsupportedProtocol { url, scheme } => "Cannot read from URL "@ + url
            + ", protocol "@ + scheme + " not supported"@,
        ErrorParts::FileOpen { url, cause } => "Failed to open file at "@ + url + ": "@ + cause,
        ErrorParts::FileRead { url, cause } => "Failed to read from file at "@ + url + ": "@
            + cause,
        ErrorParts::NetworkTransport { url, cause } => "Failed to GET "@ + url + ": "@ + cause,
        ErrorParts::HttpStatus { url, status } => "HTTP error status "@ + dec_str(status as nat)
            + " by GET "@ + url,
        ErrorParts::ProcessSpawn { cause } => "curl failed to spawn: "@ + cause,
        ErrorParts::ProcessExecution { url, stderr } => "curl -fsSL "@ + url + " failed: "@
            + stderr,
    }
}

impl ReadError {
    /// The diagnostic line for this failure.
    pub fn message(&self) -> (m: String)
        ensures
            m@ == message_spec(self@),
    {
        match self {
            ReadError::AccessDenied { url, policy } => {
                let mut m = "Access denied to URL ".to_owned();
                m.append(url.as_str());
                m.append(" by policy ");
                let name = policy.name();
                m.append(name.as_str());
                m
            },
            ReadError::PathConversion { url } => {
                let mut m = "Cannot convert URL ".to_owned();
                m.append(url.as_str());
                m.append(" to file path");
                m
            },
            ReadError::UnsupportedProtocol { url, scheme } => {
                let mut m = "Cannot read from URL ".to_owned();
                m.append(url.as_str());
                m.append(", protocol ");
                m.append(scheme.as_str());
                m.append(" not supported");
                m
            },
            ReadError::FileOpen { url, cause } => {
                let mut m = "Failed to open file at ".to_owned();
                m.append(url.as_str());
                m.append(": ");
                m.append(cause.as_str());
                m
            },
            ReadError::FileRead { url, cause } => {
                let mut m = "Failed to read from file at ".to_owned();
                m.append(url.as_str());
                m.append(": ");
                m.append(cause.as_str());
                m
            },
            ReadError::NetworkTransport { url, cause } => {
                let mut m = "Failed to GET ".to_owned();
                m.append(url.as_str());
                m.append(": ");
                m.append(cause.as_str());
                m
            },
            ReadError::HttpStatus { url, status } => {
                let mut m = "HTTP error status ".to_owned();
                let num = u16_to_dec(*status);
                m.append(num.as_str());
                m.append(" by GET ");
                m.append(url.as_str());
                m
            },
            ReadError::ProcessSpawn { cause } => {
                let mut m = "curl failed to spawn: ".to_owned();
                m.append(cause.as_str());
                m
            },
            ReadError::ProcessExecution { url, stderr } => {
                let mut m = "curl -fsSL ".to_owned();
                m.append(url.as_str());
                m.append(" failed: ");
                m.append(stderr.as_str());
                m
            },
        }
    }
}

/// The next thing a reader must do for a URL under a policy.
pub enum FetchStep {
    /// Open this local file and read it to the end.
    ReadLocalFile(String),
    /// Delegate to the active HTTP transport backend.
    FetchRemote,
    /// Do no I/O at all: the read has already failed.
    Fail(ReadError),
}

/// The mathematical value of a [`FetchStep`].
pub enum StepParts {
    ReadLocalFile(Seq<char>),
    FetchRemote,
    Fail(ErrorParts),
}

impl View for FetchStep {
    type V = StepParts;

    closed spec fn view(&self) -> StepParts {
        match self {
            FetchStep::ReadLocalFile(path) => StepParts::ReadLocalFile(path@),
            FetchStep::FetchRemote => StepParts::FetchRemote,
            FetchStep::Fail(e) => StepParts::Fail(e@),
        }
    }
}

/// What a reader must do for the URL `u` under the policy `a`: a denied
/// URL fails at once; a local `file:` URL is read from its path; a `file:`
/// URL with a host has no local path; `http` and `https` go to the
/// transport backend; every other scheme is unsupported.
pub open spec fn read_url_step_spec(u: UrlParts, a: ResourceAccess) -> StepParts {
    if !permits_spec(a, u) {
        StepParts::Fail(ErrorParts::AccessDenied { url: url_text_spec(u), policy: a })
    } else if u.scheme == "file"@ {
        if u.host.len() == 0 {
            StepParts::ReadLocalFile(u.path)
        } else {
            StepParts::Fail(ErrorParts::PathConversion { url: url_text_spec(u) })
        }
    } else if u.scheme == "http"@ || u.scheme == "https"@ {
        StepParts::FetchRemote
    } else {
        StepParts::Fail(ErrorParts::UnsupportedProtocol {
            url: url_text_spec(u),
            scheme: u.scheme,
        })
    }
}

/// Decide what to do for `url` under `access`: the permission check comes
/// first, then the dispatch on the URL's scheme.  No I/O happens here, and
/// none is called for unless the URL is permitted.
pub fn read_url_step(url: &ResourceUrl, access: ResourceAccess) -> (step: FetchStep)
    ensures
        step@ == read_url_step_spec(url@, access),
{
    if !access.permits(url) {
        return FetchStep::Fail(ReadError::AccessDenied { url: url.text(), policy: access });
    }
    if url.scheme == "file".to_owned() {
        match url.to_file_path() {
            Some(path) => FetchStep::ReadLocalFile(path),
            None => FetchStep::Fail(ReadError::PathConversion { url: url.text() }),
        }
    } else if url.scheme == "http".to_owned() || url.scheme == "https".to_owned() {
        FetchStep::FetchRemote
    } else {
        FetchStep::Fail(ReadError::UnsupportedProtocol {
            url: url.text(),
            scheme: url.scheme.clone(),
        })
    }
}

/// What came of reading a local file.
pub enum LocalReadOutcome {
    /// The file was opened and read to the end: its full contents.
    Content(Vec<u8>),
    /// The file could not be opened; the operating system's error text.
    OpenFailed(String),
    /// The file was opened but could not be fully read.
    ReadFailed(String),
}

/// The mathematical value of a [`LocalReadOutcome`].
pub enum LocalReadOutcomeParts {
    Content(Seq<u8>),
    OpenFailed(Seq<char>),
    ReadFailed(Seq<char>),
}

impl View for LocalReadOutcome {
    type V = LocalReadOutcomeParts;

    closed spec fn view(&self) -> LocalReadOutcomeParts {
        match self {
            LocalReadOutcome::Content(b) => LocalReadOutcomeParts::Content(b@),
            LocalReadOutcome::OpenFailed(c) => LocalReadOutcomeParts::OpenFailed(c@),
            LocalReadOutcome::ReadFailed(c) => LocalReadOutcomeParts::ReadFailed(c@),
        }
    }
}

/// The mathematical value of a read result.
pub open spec fn read_result_view(r: Result<Vec<u8>, ReadError>) -> Result<Seq<u8>, ErrorParts> {
    match r {
        Ok(b) => Ok(b@),
        Err(e) => Err(e@),
    }
}

/// What a finished local read returns: the file's bytes, exactly and
/// whole, or the typed failure for the stage that broke.
pub open spec fn local_read_result_spec(u: UrlParts, o: LocalReadOutcomeParts) -> Result<
    Seq<u8>,
    ErrorParts,
> {
    match o {
        LocalReadOutcomeParts::Content(b) => Ok(b),
        LocalReadOutcomeParts::OpenFailed(c) => Err(ErrorParts::FileOpen {
            url: url_text_spec(u),
            cause: c,
        }),
        LocalReadOutcomeParts::ReadFailed(c) => Err(ErrorParts::FileRead {
            url: url_text_spec(u),
            cause: c,
        }),
    }
}

/// Map the outcome of a local file read back to the read's result.  The
/// bytes of a successful read pass through untouched.
pub fn complete_local_read(url: &ResourceUrl, outcome: LocalReadOutcome) -> (r: Result<
    Vec<u8>,
    ReadError,
>)
    ensures
        read_result_view(r) == local_read_result_spec(url@, outcome@),
{
    match outcome {
        LocalReadOutcome::Content(b) => Ok(b),
        LocalReadOutcome::OpenFailed(c) => Err(ReadError::FileOpen { url: url.text(), cause: c }),
        LocalReadOutcome::ReadFailed(c) => Err(ReadError::FileRead { url: url.text(), cause: c }),
    }
}

/// Whether `status` is an HTTP success status.
pub open spec fn status_is_success(status: u16) -> bool {
    200 <= status < 300
}

/// What the in-process backend does with a received status: read the body
/// on success, fail with the status otherwise.
pub open spec fn http_response_step_spec(u: UrlParts, status: u16) -> Result<(), ErrorParts> {
    if status_is_success(status) {
        Ok(())
    } else {
        Err(ErrorParts::HttpStatus { url: url_text_spec(u), status })
    }
}

/// Decide what the in-process backend does with the status of a received
/// response: a success-class status calls for reading the body; any other
/// status is the failure, carried verbatim.
pub fn http_response_step(url: &ResourceUrl, status: u16) -> (r: Result<(), ReadError>)
    ensures
        (match r {
            Ok(unit) => Ok(unit),
            Err(e) => Err(e@),
        }) == http_response_step_spec(url@, status),
{
    if 200 <= status && status < 300 {
        Ok(())
    } else {
        Err(ReadError::HttpStatus { url: url.text(), status })
    }
}

/// The failure when the GET itself broke: DNS, connection, TLS, timeout.
pub fn http_transport_failed(url: &ResourceUrl, cause: String) -> (e: ReadError)
    ensures
        e@ == (ErrorParts::NetworkTransport { url: url_text_spec(url@), cause: cause@ }),
{
    ReadError::NetworkTransport { url: url.text(), cause }
}

/// What reading the body of a success response returns: the bytes, exactly
/// and whole, or a transport failure.
pub open spec fn http_body_result_spec(u: UrlParts, body: Result<Seq<u8>, Seq<char>>) -> Result<
    Seq<u8>,
    ErrorParts,
> {
    match body {
        Ok(b) => Ok(b),
        Err(c) => Err(ErrorParts::NetworkTransport { url: url_text_spec(u), cause: c }),
    }
}

/// Map the outcome of reading a success response's body back to the
/// fetch's result.  The bytes pass through untouched.
pub fn http_body_result(url: &ResourceUrl, body: Result<Vec<u8>, String>) -> (r: Result<
    Vec<u8>,
    ReadError,
>)
    ensures
        read_result_view(r) == http_body_result_spec(
            url@,
            match body {
                Ok(b) => Ok(b@),
                Err(c) => Err(c@),
            },
        ),
{
    match body {
        Ok(b) => Ok(b),
        Err(c) => Err(ReadError::NetworkTransport { url: url.text(), cause: c }),
    }
}

/// What came of running the external fetch tool.
pub enum ProcessOutcome {
    /// The tool could not be started at all.
    SpawnFailed(String),
    /// The tool ran to completion: whether it exited successfully, what it
    /// wrote to standard output, and what it wrote to standard error.
    Exited { success: bool, stdout: Vec<u8>, stderr: String },
}

/// The mathematical value of a [`ProcessOutcome`].
pub enum ProcessOutcomeParts {
    SpawnFailed(Seq<char>),
    Exited { success: bool, stdout: Seq<u8>, stderr: Seq<char> },
}

impl View for ProcessOutcome {
    type V = ProcessOutcomeParts;

    closed spec fn view(&self) -> ProcessOutcomeParts {
        match self {
            ProcessOutcome::SpawnFailed(c) => ProcessOutcomeParts::SpawnFailed(c@),
            ProcessOutcome::Exited { success, stdout, stderr } => ProcessOutcomeParts::Exited {
                success: *success,
                stdout: stdout@,
                stderr: stderr@,
            },
        }
    }
}

/// What a finished run of the external fetch tool returns: its standard
/// output, exactly and whole, when it exited successfully; the typed
/// failure otherwise.
pub open spec fn process_fetch_result_spec(u: UrlParts, o: ProcessOutcomeParts) -> Result<
    Seq<u8>,
    ErrorParts,
> {
    match o {
        ProcessOutcomeParts::SpawnFailed(c) => Err(ErrorParts::ProcessSpawn { cause: c }),
        ProcessOutcomeParts::Exited { success, stdout, stderr } => if success {
            Ok(stdout)
        } else {
            Err(ErrorParts::ProcessExecution { url: url_text_spec(u), stderr })
        },
    }
}

/// Map the outcome of the external fetch tool back to the fetch's result.
/// The tool's standard output passes through untouched.
pub fn complete_process_fetch(url: &ResourceUrl, outcome: ProcessOutcome) -> (r: Result<
    Vec<u8>,
    ReadError,
>)
    ensures
        read_result_view(r) == process_fetch_result_spec(url@, outcome@),
{
    match outcome {
        ProcessOutcome::SpawnFailed(c) => Err(ReadError::ProcessSpawn { cause: c }),
        ProcessOutcome::Exited { success, stdout, stderr } => {
            if success {
                Ok(stdout)
            } else {
                Err(ReadError::ProcessExecution { url: url.text(), stderr })
            }
        },
    }
}

/// The argument vector for the external fetch tool: `-fsSL` — fail on an
/// HTTP error status, silent, show errors, follow redirects — then the URL.
pub fn curl_args(url: &ResourceUrl) -> (args: Vec<String>)
    ensures
        args@.len() == 2,
        args@[0]@ == "-fsSL"@,
        args@[1]@ == url_text_spec(url@),
{
    let mut args: Vec<String> = Vec::new();
    args.push("-fsSL".to_owned());
    args.push(url.text());
    args
}

/// Law: a `file:` URL with no host component is permitted by every
/// policy, `LocalOnly` and `RemoteAllowed` alike.
pub proof fn lemma_permits_local_file_url(a: ResourceAccess, u: UrlParts)
    requires
        u.scheme == "file"@,
        u.host.len() == 0,
    ensures
        permits_spec(a, u),
{
}

/// Law: a `file:` URL with a non-empty host is denied under `LocalOnly`
/// and permitted under `RemoteAllowed`.
pub proof fn lemma_permits_hosted_file_url(u: UrlParts)
    requires
        u.scheme == "file"@,
        u.host.len() > 0,
    ensures
        !permits_spec(ResourceAccess::LocalOnly, u),
        permits_spec(ResourceAccess::RemoteAllowed, u),
{
}

/// Law: an `http` or `https` URL is denied under `LocalOnly` and
/// permitted under `RemoteAllowed`.
pub proof fn lemma_permits_remote_url(u: UrlParts)
    requires
        u.scheme == "http"@ || u.scheme == "https"@,
    ensures
        !permits_spec(ResourceAccess::LocalOnly, u),
        permits_spec(ResourceAccess::RemoteAllowed, u),
{
    reveal_strlit("http");
    reveal_strlit("https");
    reveal_strlit("file");
    assert("http"@ != "file"@) by {
        assert("http"@[0] == 'h');
        assert("file"@[0] == 'f');
    }
    assert("https"@ != "file"@) by {
        assert("https"@[0] == 'h');
        assert("file"@[0] == 'f');
    }
}

/// Law: a denied URL does no I/O at all — the step for it is an immediate
/// `AccessDenied` failure, never a file read and never a fetch.
pub proof fn lemma_denied_step_does_no_io(u: UrlParts, a: ResourceAccess)
    requires
        !permits_spec(a, u),
    ensures
        read_url_step_spec(u, a) == StepParts::Fail(
            ErrorParts::AccessDenied { url: url_text_spec(u), policy: a },
        ),
{
}

/// Law: under any permitting policy, a `file:` URL with no host is read
/// from its own path, and a read that yields bytes yields exactly those
/// bytes.
pub proof fn lemma_local_read_returns_content(
    u: UrlParts,
    a: ResourceAccess,
    bytes: Seq<u8>,
)
    requires
        u.scheme == "file"@,
        u.host.len() == 0,
        permits_spec(a, u),
    ensures
        read_url_step_spec(u, a) == StepParts::ReadLocalFile(u.path),
        local_read_result_spec(u, LocalReadOutcomeParts::Content(bytes)) == Result::<
            Seq<u8>,
            ErrorParts,
        >::Ok(bytes),
{
}

/// Law: in the in-process backend, any non-success response status — 404
/// among them — yields the HTTP status failure carrying exactly that
/// status and the URL.
pub proof fn lemma_http_error_status_is_reported(u: UrlParts, status: u16)
    requires
        !status_is_success(status),
    ensures
        http_response_step_spec(u, status) == Result::<(), ErrorParts>::Err(
            ErrorParts::HttpStatus { url: url_text_spec(u), status },
        ),
{
}

/// Law: a success response's body comes back whole — with status 200 the
/// step is to read the body, and the bytes read are the bytes returned, so
/// a body of length N yields success bytes of length exactly N.
pub proof fn lemma_success_body_returned_whole(u: UrlParts, body: Seq<u8>)
    ensures
        http_response_step_spec(u, 200) == Result::<(), ErrorParts>::Ok(()),
        http_body_result_spec(u, Ok(body)) == Result::<Seq<u8>, ErrorParts>::Ok(body),
        (http_body_result_spec(u, Ok(body)) matches Ok(b) && b.len() == body.len()),
{
}

/// Law: under `RemoteAllowed`, a URL whose scheme is none of `file`,
/// `http` and `https` — `ftp`, say — fails as an unsupported protocol.
pub proof fn lemma_unsupported_scheme_rejected(u: UrlParts)
    requires
        u.scheme != "file"@,
        u.scheme != "http"@,
        u.scheme != "https"@,
    ensures
        read_url_step_spec(u, ResourceAccess::RemoteAllowed) == StepParts::Fail(
            ErrorParts::UnsupportedProtocol { url: url_text_spec(u), scheme: u.scheme },
        ),
{
}

} // verus!
