//! The request plan: the coherent description of the one request that an
//! invocation makes, resolved from the options. Each part of the plan is
//! computed once, from the options alone.

use crate::error::ConfigError;
use crate::method::{get_request_method, has_body, request_method, Method};
use crate::options::Args;
use crate::protocols::{get_protocols, protocols_of, Protocols};
use crate::text::{
    chars_of, find_in, opt_text, pairs, position, string_of, texts, trim_bounds, trimmed,
};
use crate::trust::{format_of, load_trust_anchors, CertFormat};
use vstd::prelude::*;
use vstd::string::StringExecFns;

verus! {

/// Where the body of the request comes from.
#[derive(Clone, Debug, PartialEq, Eq)]
pub enum Body {
    /// The request has no body.
    Empty,
    /// The body is this text.
    InlineBytes(String),
    /// The body is streamed from the file of this path.
    FileStream(String),
    /// The body is a multipart form of these fields, each a name and a value.
    MultipartFields(Vec<(String, String)>),
}

/// A `Body` with its texts as sequences of characters.
pub enum BodyView {
    Empty,
    InlineBytes(Seq<char>),
    FileStream(Seq<char>),
    MultipartFields(Seq<(Seq<char>, Seq<char>)>),
}

impl View for Body {
    type V = BodyView;

    open spec fn view(&self) -> BodyView {
        match *self {
            Body::Empty => BodyView::Empty,
            Body::InlineBytes(text) => BodyView::InlineBytes(text@),
            Body::FileStream(path) => BodyView::FileStream(path@),
            Body::MultipartFields(fields) => BodyView::MultipartFields(pairs(fields@)),
        }
    }
}

/// Whether redirects are followed.
#[derive(Clone, Copy, Debug, PartialEq, Eq, Structural)]
pub enum Redirect {
    /// No redirect is followed, nor even looked at.
    Disabled,
    /// At most this many redirects are followed.
    LimitedTo(usize),
}

/// The oldest TLS version that is accepted.
#[derive(Clone, Copy, Debug, PartialEq, Eq, Structural)]
pub enum TlsFloor {
    /// No floor is enforced.
    Unset,
    Tls1_0,
    Tls1_1,
    Tls1_2,
    Tls1_3,
}

/// The fully resolved description of the request to make.
#[derive(Clone, Debug)]
pub struct RequestPlan {
    pub method: Method,
    pub url: String,
    /// The headers in the order in which they are sent; a name may occur
    /// more than once.
    pub headers: Vec<(String, String)>,
    pub body: Body,
    pub redirect: Redirect,
    pub tls_floor: TlsFloor,
    pub protocol_allow: Protocols,
    /// Whether invalid certificates and host names are accepted.
    pub insecure: bool,
    pub proxy: Option<String>,
    pub trust_anchors: Vec<reqwest::Certificate>,
    /// Seconds allowed for connecting, if limited.
    pub connect_timeout: Option<u64>,
    /// Seconds allowed for the whole transfer, if limited.
    pub total_timeout: Option<u64>,
    /// The largest number of bytes to download, if limited.
    pub max_filesize: Option<u64>,
}

/// A `RequestPlan` with its texts as sequences of characters.
pub struct PlanView {
    pub method: Method,
    pub url: Seq<char>,
    pub headers: Seq<(Seq<char>, Seq<char>)>,
    pub body: BodyView,
    pub redirect: Redirect,
    pub tls_floor: TlsFloor,
    pub protocol_allow: Protocols,
    pub insecure: bool,
    pub proxy: Option<Seq<char>>,
    pub trust_anchors: Seq<reqwest::Certificate>,
    pub connect_timeout: Option<u64>,
    pub total_timeout: Option<u64>,
    pub max_filesize: Option<u64>,
}

impl View for RequestPlan {
    type V = PlanView;

    open spec fn view(&self) -> PlanView {
        PlanView {
            method: self.method,
            url: self.url@,
            headers: pairs(self.headers@),
            body: self.body@,
            redirect: self.redirect,
            tls_floor: self.tls_floor,
            protocol_allow: self.protocol_allow,
            insecure: self.insecure,
            proxy: opt_text(self.proxy),
            trust_anchors: self.trust_anchors@,
            connect_timeout: self.connect_timeout,
            total_timeout: self.total_timeout,
            max_filesize: self.max_filesize,
        }
    }
}

/// The sigil that makes an inline body name a file.
pub open spec fn file_sigil() -> char {
    '@'
}

/// The two sides of `item` around its first `sep`, the left one trimmed and
/// the right one trimmed where `trim_value` says so; nothing where `item`
/// holds no `sep`.
pub open spec fn split_pair(item: Seq<char>, sep: char, trim_value: bool) -> Option<
    (Seq<char>, Seq<char>),
> {
    let i = position(item, sep);
    if 0 <= i < item.len() {
        let value = item.skip(i + 1);
        Some(
            (
                trimmed(item.take(i)),
                if trim_value {
                    trimmed(value)
                } else {
                    value
                },
            ),
        )
    } else {
        None
    }
}

/// The pairs that `items` split into, in their order; an item without `sep`
/// is left out.
pub open spec fn split_pairs(items: Seq<Seq<char>>, sep: char, trim_value: bool) -> Seq<
    (Seq<char>, Seq<char>),
>
    decreases items.len(),
{
    if items.len() == 0 {
        Seq::empty()
    } else {
        let before = split_pairs(items.drop_last(), sep, trim_value);
        match split_pair(items.last(), sep, trim_value) {
            Some(pair) => before.push(pair),
            None => before,
        }
    }
}

/// The headers that the header options give: each is split at its first
/// colon, the name and the value are trimmed, and an option without a colon
/// is left out.
pub open spec fn header_pairs(headers: Seq<Seq<char>>) -> Seq<(Seq<char>, Seq<char>)> {
    split_pairs(headers, ':', true)
}

/// The form fields that the form options give: each is split at its first
/// `=`, the name is trimmed and the value is taken as it is, and an option
/// without a `=` is left out.
pub open spec fn form_fields(form: Seq<Seq<char>>) -> Seq<(Seq<char>, Seq<char>)> {
    split_pairs(form, '=', false)
}

/// The name under which the user agent is sent.
pub open spec fn user_agent_name() -> Seq<char> {
    "user-agent"@
}

/// All the headers of the request: those of the header options, then the
/// user agent where one is given.
pub open spec fn headers_of(headers: Seq<Seq<char>>, user_agent: Option<Seq<char>>) -> Seq<
    (Seq<char>, Seq<char>),
> {
    match user_agent {
        Some(agent) => header_pairs(headers).push((user_agent_name(), agent)),
        None => header_pairs(headers),
    }
}

/// The body source. The first of these decides: an inline body, which names
/// a file where it begins with `@`; a raw body, which never names a file; a
/// list of form fields that is not empty. Without any of them there is no
/// body.
pub open spec fn body_of(data: Option<Seq<char>>, data_raw: Option<Seq<char>>, form: Seq<Seq<char>>)
    -> BodyView {
    match data {
        Some(text) => if text.len() > 0 && text.first() == file_sigil() {
            BodyView::FileStream(text.skip(1))
        } else {
            BodyView::InlineBytes(text)
        },
        None => match data_raw {
            Some(text) => BodyView::InlineBytes(text),
            None => if form.len() > 0 {
                BodyView::MultipartFields(form_fields(form))
            } else {
                BodyView::Empty
            },
        },
    }
}

/// The redirect policy: limited to `max_redirs` where redirects are to be
/// followed, else disabled.
pub open spec fn redirect_of(location: bool, max_redirs: usize) -> Redirect {
    if location {
        Redirect::LimitedTo(max_redirs)
    } else {
        Redirect::Disabled
    }
}

/// The TLS floor: the highest version that any flag asks for.
pub open spec fn tls_floor_of(v1: bool, v1_0: bool, v1_1: bool, v1_2: bool, v1_3: bool)
    -> TlsFloor {
    if v1_3 {
        TlsFloor::Tls1_3
    } else if v1_2 {
        TlsFloor::Tls1_2
    } else if v1_1 {
        TlsFloor::Tls1_1
    } else if v1 || v1_0 {
        TlsFloor::Tls1_0
    } else {
        TlsFloor::Unset
    }
}

/// A limit that is set only where it is not zero.
pub open spec fn limit_of(n: u64) -> Option<u64> {
    if n > 0 {
        Some(n)
    } else {
        None
    }
}

/// The plan that the options make, given the method and the trust anchors.
pub open spec fn plan_of(args: Args, method: Method, trust_anchors: Seq<reqwest::Certificate>)
    -> PlanView {
    PlanView {
        method,
        url: args.url@,
        headers: headers_of(texts(args.header@), opt_text(args.user_agent)),
        body: body_of(opt_text(args.data), opt_text(args.data_raw), texts(args.form@)),
        redirect: redirect_of(args.location, args.max_redirs),
        tls_floor: tls_floor_of(args.tlsv1, args.tlsv1_0, args.tlsv1_1, args.tlsv1_2, args.tlsv1_3),
        protocol_allow: protocols_of(args.proto@),
        insecure: args.insecure,
        proxy: opt_text(args.proxy),
        trust_anchors,
        connect_timeout: limit_of(args.connect_timeout),
        total_timeout: limit_of(args.max_time),
        max_filesize: limit_of(args.max_filesize),
    }
}

/// Splits each item at its first `sep` into a trimmed name and a value,
/// which is trimmed where `trim_value` says so. Items without `sep` are left
/// out.
pub fn parse_pairs(items: &Vec<String>, sep: char, trim_value: bool) -> (out: Vec<
    (String, String),
>)
    ensures
        pairs(out@) == split_pairs(texts(items@), sep, trim_value),
{
    let mut out: Vec<(String, String)> = Vec::new();
    let ghost all = texts(items@);
    let mut k: usize = 0;
    proof {
        assert(pairs(out@) =~= Seq::empty());
    }
    while k < items.len()
        invariant
            k <= items@.len(),
            all == texts(items@),
            pairs(out@) == split_pairs(all.take(k as int), sep, trim_value),
        decreases items@.len() - k,
    {
        let ghost before = pairs(out@);
        let v = chars_of(items[k].as_str());
        let n = v.len();
        let i = find_in(&v, 0, n, sep);
        proof {
            assert(v@.subrange(0, n as int) =~= v@);
            assert(all.take(k + 1).drop_last() =~= all.take(k as int));
            assert(all.take(k + 1).last() == v@);
        }
        if i < n {
            let (a, b) = trim_bounds(&v, 0, i);
            let name = string_of(&v, a, b);
            let value = if trim_value {
                let (c, d) = trim_bounds(&v, i + 1, n);
                string_of(&v, c, d)
            } else {
                string_of(&v, i + 1, n)
            };
            proof {
                assert(v@.take(i as int) =~= v@.subrange(0, i as int));
                assert(v@.skip(i + 1) =~= v@.subrange(i + 1, n as int));
            }
            out.push((name, value));
            proof {
                assert(pairs(out@) =~= before.push((name@, value@)));
            }
        }
        k += 1;
    }
    proof {
        assert(all.take(k as int) =~= all);
    }
    out
}

/// The headers of the header options, in their order.
pub fn parse_headers(headers: &Vec<String>) -> (out: Vec<(String, String)>)
    ensures
        pairs(out@) == header_pairs(texts(headers@)),
{
    parse_pairs(headers, ':', true)
}

/// The form fields of the form options, in their order.
pub fn parse_form(form: &Vec<String>) -> (out: Vec<(String, String)>)
    ensures
        pairs(out@) == form_fields(texts(form@)),
{
    parse_pairs(form, '=', false)
}

/// All the headers of the request: those of the header options, then the
/// user agent where one is given.
pub fn resolve_headers(headers: &Vec<String>, user_agent: &Option<String>) -> (out: Vec<
    (String, String),
>)
    ensures
        pairs(out@) == headers_of(texts(headers@), opt_text(*user_agent)),
{
    let mut out = parse_headers(headers);
    match user_agent {
        Some(agent) => {
            let ghost before = pairs(out@);
            let name = String::from_str("user-agent");
            let value = agent.clone();
            out.push((name, value));
            proof {
                assert(pairs(out@) =~= before.push((name@, value@)));
            }
        },
        None => {},
    }
    out
}

/// Selects the body source from the options.
pub fn select_body(args: &Args) -> (body: Body)
    ensures
        body@ == body_of(opt_text(args.data), opt_text(args.data_raw), texts(args.form@)),
{
    match &args.data {
        Some(text) => {
            let v = chars_of(text.as_str());
            let n = v.len();
            if n > 0 && v[0] == '@' {
                proof {
                    assert(v@.skip(1) =~= v@.subrange(1, n as int));
                }
                Body::FileStream(string_of(&v, 1, n))
            } else {
                Body::InlineBytes(text.clone())
            }
        },
        None => match &args.data_raw {
            Some(text) => Body::InlineBytes(text.clone()),
            None => {
                if args.form.len() > 0 {
                    Body::MultipartFields(parse_form(&args.form))
                } else {
                    Body::Empty
                }
            },
        },
    }
}

/// The body that is sent once it is known whether the file of a streamed
/// body could be opened: a file that could not be opened leaves the request
/// without a body, and every other body is sent as it is.
pub fn body_to_send(body: Body, file_opened: bool) -> (sent: Body)
    ensures
        body@ is FileStream && !file_opened ==> sent@ == BodyView::Empty,
        !(body@ is FileStream && !file_opened) ==> sent@ == body@,
{
    match body {
        Body::FileStream(path) => {
            if file_opened {
                Body::FileStream(path)
            } else {
                Body::Empty
            }
        },
        other => other,
    }
}

/// The redirect policy of the options.
pub fn redirect_policy(location: bool, max_redirs: usize) -> (r: Redirect)
    ensures
        r == redirect_of(location, max_redirs),
{
    if location {
        Redirect::LimitedTo(max_redirs)
    } else {
        Redirect::Disabled
    }
}

/// The TLS floor of the options: the highest version that any flag asks
/// for.
pub fn tls_floor(args: &Args) -> (floor: TlsFloor)
    ensures
        floor == tls_floor_of(
            args.tlsv1,
            args.tlsv1_0,
            args.tlsv1_1,
            args.tlsv1_2,
            args.tlsv1_3,
        ),
{
    let mut floor = TlsFloor::Unset;
    if args.tlsv1 || args.tlsv1_0 {
        floor = TlsFloor::Tls1_0;
    }
    if args.tlsv1_1 {
        floor = TlsFloor::Tls1_1;
    }
    if args.tlsv1_2 {
        floor = TlsFloor::Tls1_2;
    }
    if args.tlsv1_3 {
        floor = TlsFloor::Tls1_3;
    }
    floor
}

/// A limit that is set only where it is not zero.
pub fn limit(n: u64) -> (r: Option<u64>)
    ensures
        r == limit_of(n),
{
    if n > 0 {
        Some(n)
    } else {
        None
    }
}

/// Builds the plan from the options, the resolved method and the loaded
/// trust anchors.
pub fn plan_for(args: &Args, method: Method, trust_anchors: Vec<reqwest::Certificate>) -> (plan:
    RequestPlan)
    ensures
        plan@ == plan_of(*args, method, trust_anchors@),
{
    RequestPlan {
        method,
        url: args.url.clone(),
        headers: resolve_headers(&args.header, &args.user_agent),
        body: select_body(args),
        redirect: redirect_policy(args.location, args.max_redirs),
        tls_floor: tls_floor(args),
        protocol_allow: get_protocols(&args.proto),
        insecure: args.insecure,
        proxy: args.proxy.clone(),
        trust_anchors,
        connect_timeout: limit(args.connect_timeout),
        total_timeout: limit(args.max_time),
        max_filesize: limit(args.max_filesize),
    }
}

/// What became of reading the CA file that the options name.
#[derive(Clone, Debug)]
pub enum CaFile {
    /// No file was read.
    Absent,
    /// The file could not be opened.
    NotOpened,
    /// The file could be opened, but not read to its end.
    NotRead,
    /// The content of the file.
    Content(Vec<u8>),
}

/// Resolves the options into a plan, or into the first configuration error
/// that they hold: a method flag that names no supported method, then a CA
/// file that could not be read, then one whose content the parser refuses.
/// No partial plan is returned.
pub fn resolve(args: &Args, ca_file: &CaFile) -> (r: Result<RequestPlan, ConfigError>)
    ensures
        match request_method(opt_text(args.request), has_body(*args)) {
            Err(e) => r is Err && r->Err_0 == e,
            Ok(method) => match args.cacert {
                None => r is Ok && r->Ok_0@ == plan_of(*args, method, Seq::empty()),
                Some(name) => match *ca_file {
                    CaFile::Absent => r is Err && r->Err_0 == ConfigError::CaFileNotOpened,
                    CaFile::NotOpened => r is Err && r->Err_0 == ConfigError::CaFileNotOpened,
                    CaFile::NotRead => r is Err && r->Err_0 == ConfigError::CaFileNotRead,
                    CaFile::Content(_) => match r {
                        Ok(plan) => {
                            &&& plan@ == plan_of(*args, method, plan.trust_anchors@)
                            &&& format_of(name@) == CertFormat::Der
                                ==> plan.trust_anchors@.len() == 1
                        },
                        Err(e) => e == if format_of(name@) == CertFormat::Der {
                            ConfigError::InvalidDerCertificate
                        } else {
                            ConfigError::InvalidPemBundle
                        },
                    },
                },
            },
        },
{
    let method = match get_request_method(args) {
        Ok(method) => method,
        Err(e) => {
            return Err(e);
        },
    };
    let trust_anchors = match &args.cacert {
        None => Vec::new(),
        Some(name) => match ca_file {
            CaFile::Absent => {
                return Err(ConfigError::CaFileNotOpened);
            },
            CaFile::NotOpened => {
                return Err(ConfigError::CaFileNotOpened);
            },
            CaFile::NotRead => {
                return Err(ConfigError::CaFileNotRead);
            },
            CaFile::Content(data) => match load_trust_anchors(name.as_str(), data.as_slice()) {
                Ok(anchors) => anchors,
                Err(e) => {
                    return Err(e);
                },
            },
        },
    };
    Ok(plan_for(args, method, trust_anchors))
}

/// Whether two sets of options say the same in every field that a plan is
/// resolved from.
pub open spec fn same_options(a: Args, b: Args) -> bool {
    &&& a.url@ == b.url@
    &&& opt_text(a.request) == opt_text(b.request)
    &&& texts(a.header@) == texts(b.header@)
    &&& opt_text(a.user_agent) == opt_text(b.user_agent)
    &&& opt_text(a.data) == opt_text(b.data)
    &&& opt_text(a.data_raw) == opt_text(b.data_raw)
    &&& texts(a.form@) == texts(b.form@)
    &&& a.insecure == b.insecure
    &&& a.location == b.location
    &&& a.max_redirs == b.max_redirs
    &&& a.max_filesize == b.max_filesize
    &&& a.connect_timeout == b.connect_timeout
    &&& a.max_time == b.max_time
    &&& a.tlsv1 == b.tlsv1
    &&& a.tlsv1_0 == b.tlsv1_0
    &&& a.tlsv1_1 == b.tlsv1_1
    &&& a.tlsv1_2 == b.tlsv1_2
    &&& a.tlsv1_3 == b.tlsv1_3
    &&& a.proto@ == b.proto@
    &&& opt_text(a.proxy) == opt_text(b.proxy)
}

/// The plan depends on nothing but what the options say: options that say
/// the same resolve to the same method, or to the same error, and to the
/// same plan.
pub proof fn lemma_same_options_same_plan(
    a: Args,
    b: Args,
    method: Method,
    trust_anchors: Seq<reqwest::Certificate>,
)
    requires
        same_options(a, b),
    ensures
        request_method(opt_text(a.request), has_body(a)) == request_method(
            opt_text(b.request),
            has_body(b),
        ),
        plan_of(a, method, trust_anchors) == plan_of(b, method, trust_anchors),
{
    assert(a.form@.len() == texts(a.form@).len());
    assert(b.form@.len() == texts(b.form@).len());
}

/// Resolving twice yields identical plans: any two plans resolved from the
/// same options, method and trust anchors are the same.
pub proof fn lemma_resolution_is_repeatable(
    args: Args,
    method: Method,
    trust_anchors: Seq<reqwest::Certificate>,
    first: RequestPlan,
    second: RequestPlan,
)
    requires
        first@ == plan_of(args, method, trust_anchors),
        second@ == plan_of(args, method, trust_anchors),
    ensures
        first@ == second@,
{
}

} // verus!
