//! The flat set of user options from which a request is resolved.

use vstd::prelude::*;

verus! {

/// What the user asked for, one field per command-line option.
#[derive(Debug, Clone)]
pub struct Args {
    /// URL of the artifact to fetch.
    pub url: String,
    /// Write to this file instead of standard output.
    pub output: Option<String>,
    /// The request method to use.
    pub request: Option<String>,
    /// Custom headers, each written as `name: value`.
    pub header: Vec<String>,
    /// The `User-Agent` to send.
    pub user_agent: Option<String>,
    /// Request body; a leading `@` names a file to send instead.
    pub data: Option<String>,
    /// Request body, taken as it is.
    pub data_raw: Option<String>,
    /// Multipart form fields, each written as `name=value`.
    pub form: Vec<String>,
    /// Accept invalid certificates and host names.
    pub insecure: bool,
    /// Follow redirects.
    pub location: bool,
    /// How many redirects may be followed.
    pub max_redirs: usize,
    /// Largest number of bytes to download; 0 for no ceiling.
    pub max_filesize: u64,
    /// Seconds allowed for connecting; 0 for no limit.
    pub connect_timeout: u64,
    /// Seconds allowed for the whole transfer; 0 for no limit.
    pub max_time: u64,
    /// Use TLS 1.0 or later.
    pub tlsv1: bool,
    /// Use TLS 1.0 or later.
    pub tlsv1_0: bool,
    /// Use TLS 1.1 or later.
    pub tlsv1_1: bool,
    /// Use TLS 1.2 or later.
    pub tlsv1_2: bool,
    /// Use TLS 1.3 or later.
    pub tlsv1_3: bool,
    /// Directives that enable or disable protocols.
    pub proto: String,
    /// Print no diagnostics.
    pub silent: bool,
    /// Print errors even when silent.
    pub show_error: bool,
    /// Print informational diagnostics too.
    pub verbose: bool,
    /// Echo the response status and headers before the body.
    pub show_headers: bool,
    /// Give up at once on a failing HTTP status.
    pub fail: bool,
    /// Keep the body of a failing HTTP status, but report failure.
    pub fail_with_body: bool,
    /// Proxy to send the request through.
    pub proxy: Option<String>,
    /// File of CA certificates to trust.
    pub cacert: Option<String>,
    /// File of revoked certificates.
    pub crlfile: Option<String>,
    /// Expected SHA-256 digest of the artifact, in hexadecimal.
    pub sha256: Option<String>,
    /// Expected MD5 digest of the artifact, in hexadecimal.
    pub md5: Option<String>,
}

/// How many redirects are followed where the user sets no other limit.
pub const DEFAULT_MAX_REDIRS: usize = 5;

impl Args {
    /// The options of a plain request for `url`: every switch off, every
    /// optional value absent, every limit at its default.
    pub fn new(url: String) -> (args: Args)
        ensures
            args.url == url,
            args.output is None,
            args.request is None,
            args.header@.len() == 0,
            args.user_agent is None,
            args.data is None,
            args.data_raw is None,
            args.form@.len() == 0,
            !args.insecure,
            !args.location,
            args.max_redirs == DEFAULT_MAX_REDIRS,
            args.max_filesize == 0,
            args.connect_timeout == 0,
            args.max_time == 0,
            !args.tlsv1 && !args.tlsv1_0 && !args.tlsv1_1 && !args.tlsv1_2 && !args.tlsv1_3,
            args.proto@.len() == 0,
            !args.silent && !args.show_error && !args.verbose,
            !args.show_headers && !args.fail && !args.fail_with_body,
            args.proxy is None,
            args.cacert is None,
            args.crlfile is None,
            args.sha256 is None,
            args.md5 is None,
    {
        Args {
            url,
            output: None,
            request: None,
            header: Vec::new(),
            user_agent: None,
            data: None,
            data_raw: None,
            form: Vec::new(),
            insecure: false,
            location: false,
            max_redirs: DEFAULT_MAX_REDIRS,
            max_filesize: 0,
            connect_timeout: 0,
            max_time: 0,
            tlsv1: false,
            tlsv1_0: false,
            tlsv1_1: false,
            tlsv1_2: false,
            tlsv1_3: false,
            proto: String::new(),
            silent: false,
            show_error: false,
            verbose: false,
            show_headers: false,
            fail: false,
            fail_with_body: false,
            proxy: None,
            cacert: None,
            crlfile: None,
            sha256: None,
            md5: None,
        }
    }
}

} // verus!
