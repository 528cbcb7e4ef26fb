//! The request method: named by a flag, or inferred from the presence of a
//! body.

use crate::error::ConfigError;
use crate::options::Args;
use crate::text::{chars_of, lower_seq, lowered, opt_text, range_is};
use vstd::prelude::*;

verus! {

/// The nine supported request methods.
#[derive(Clone, Copy, Debug, PartialEq, Eq, Structural)]
pub enum Method {
    Get,
    Put,
    Post,
    Delete,
    Head,
    Options,
    Connect,
    Patch,
    Trace,
}

/// The name of a method, in lower case.
pub open spec fn method_name(m: Method) -> Seq<char> {
    match m {
        Method::Get => seq!['g', 'e', 't'],
        Method::Put => seq!['p', 'u', 't'],
        Method::Post => seq!['p', 'o', 's', 't'],
        Method::Delete => seq!['d', 'e', 'l', 'e', 't', 'e'],
        Method::Head => seq!['h', 'e', 'a', 'd'],
        Method::Options => seq!['o', 'p', 't', 'i', 'o', 'n', 's'],
        Method::Connect => seq!['c', 'o', 'n', 'n', 'e', 'c', 't'],
        Method::Patch => seq!['p', 'a', 't', 'c', 'h'],
        Method::Trace => seq!['t', 'r', 'a', 'c', 'e'],
    }
}

/// Whether `flag` names `m`, in any mix of upper and lower case.
pub open spec fn names(flag: Seq<char>, m: Method) -> bool {
    lower_seq(flag) == method_name(m)
}

/// The method that `flag` names, if it names one.
pub open spec fn parse_method(flag: Seq<char>) -> Option<Method> {
    if names(flag, Method::Get) {
        Some(Method::Get)
    } else if names(flag, Method::Put) {
        Some(Method::Put)
    } else if names(flag, Method::Post) {
        Some(Method::Post)
    } else if names(flag, Method::Delete) {
        Some(Method::Delete)
    } else if names(flag, Method::Head) {
        Some(Method::Head)
    } else if names(flag, Method::Options) {
        Some(Method::Options)
    } else if names(flag, Method::Connect) {
        Some(Method::Connect)
    } else if names(flag, Method::Patch) {
        Some(Method::Patch)
    } else if names(flag, Method::Trace) {
        Some(Method::Trace)
    } else {
        None
    }
}

/// Whether the options name a body source of any kind.
pub open spec fn has_body(args: Args) -> bool {
    args.data is Some || args.data_raw is Some || args.form@.len() > 0
}

/// The method of the request. A flag decides alone, and must name a
/// supported method; without a flag a request with a body is a POST and one
/// without is a GET.
pub open spec fn request_method(flag: Option<Seq<char>>, body: bool) -> Result<
    Method,
    ConfigError,
> {
    match flag {
        Some(name) => match parse_method(name) {
            Some(m) => Ok(m),
            None => Err(ConfigError::InvalidMethod),
        },
        None => if body {
            Ok(Method::Post)
        } else {
            Ok(Method::Get)
        },
    }
}

/// No two methods share a name.
pub proof fn lemma_names_differ(a: Method, b: Method)
    requires
        method_name(a) == method_name(b),
    ensures
        a == b,
{
    let x = method_name(a);
    let y = method_name(b);
    assert(x.len() == y.len());
    assert(x[0] == y[0]);
    assert(x[1] == y[1]);
}

/// A flag that names one of the nine methods, in whatever case, yields
/// exactly that method, with or without a body.
pub proof fn lemma_flag_decides(flag: Seq<char>, m: Method, body: bool)
    requires
        names(flag, m),
    ensures
        request_method(Some(flag), body) == Ok::<Method, ConfigError>(m),
{
    match parse_method(flag) {
        Some(found) => {
            lemma_names_differ(found, m);
        },
        None => {},
    }
}

/// Without a flag the presence of a body decides: POST with one, GET
/// without.
pub proof fn lemma_body_decides(body: bool)
    ensures
        body ==> request_method(None, body) == Ok::<Method, ConfigError>(Method::Post),
        !body ==> request_method(None, body) == Ok::<Method, ConfigError>(Method::Get),
{
}

fn parse(flag: &str) -> (r: Option<Method>)
    ensures
        r == parse_method(flag@),
{
    let v = lowered(&chars_of(flag));
    let n = v.len();
    let get: [char; 3] = ['g', 'e', 't'];
    let put: [char; 3] = ['p', 'u', 't'];
    let post: [char; 4] = ['p', 'o', 's', 't'];
    let delete: [char; 6] = ['d', 'e', 'l', 'e', 't', 'e'];
    let head: [char; 4] = ['h', 'e', 'a', 'd'];
    let options: [char; 7] = ['o', 'p', 't', 'i', 'o', 'n', 's'];
    let connect: [char; 7] = ['c', 'o', 'n', 'n', 'e', 'c', 't'];
    let patch: [char; 5] = ['p', 'a', 't', 'c', 'h'];
    let trace: [char; 5] = ['t', 'r', 'a', 'c', 'e'];
    proof {
        assert(v@.subrange(0, n as int) =~= v@);
        assert(get@ =~= method_name(Method::Get));
        assert(put@ =~= method_name(Method::Put));
        assert(post@ =~= method_name(Method::Post));
        assert(delete@ =~= method_name(Method::Delete));
        assert(head@ =~= method_name(Method::Head));
        assert(options@ =~= method_name(Method::Options));
        assert(connect@ =~= method_name(Method::Connect));
        assert(patch@ =~= method_name(Method::Patch));
        assert(trace@ =~= method_name(Method::Trace));
    }
    if range_is(&v, 0, n, get.as_slice()) {
        Some(Method::Get)
    } else if range_is(&v, 0, n, put.as_slice()) {
        Some(Method::Put)
    } else if range_is(&v, 0, n, post.as_slice()) {
        Some(Method::Post)
    } else if range_is(&v, 0, n, delete.as_slice()) {
        Some(Method::Delete)
    } else if range_is(&v, 0, n, head.as_slice()) {
        Some(Method::Head)
    } else if range_is(&v, 0, n, options.as_slice()) {
        Some(Method::Options)
    } else if range_is(&v, 0, n, connect.as_slice()) {
        Some(Method::Connect)
    } else if range_is(&v, 0, n, patch.as_slice()) {
        Some(Method::Patch)
    } else if range_is(&v, 0, n, trace.as_slice()) {
        Some(Method::Trace)
    } else {
        None
    }
}

/// Resolves the request method from the options.
pub fn get_request_method(args: &Args) -> (r: Result<Method, ConfigError>)
    ensures
        r == request_method(opt_text(args.request), has_body(*args)),
{
    match &args.request {
        Some(flag) => match parse(flag.as_str()) {
            Some(m) => Ok(m),
            None => Err(ConfigError::InvalidMethod),
        },
        None => {
            if args.data.is_some() || args.data_raw.is_some() || args.form.len() > 0 {
                Ok(Method::Post)
            } else {
                Ok(Method::Get)
            }
        },
    }
}

} // verus!
