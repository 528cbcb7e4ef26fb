//! The protocol allow-list and the directives that edit it.
//!
//! A directive is a comma-separated list of tokens. The first character of a
//! token is its operator: `=` sets the list to exactly the named protocol,
//! `+` allows it, `-` forbids it. The names are `http`, `https` and `all`.
//! Any other token leaves the list as it was.

use crate::text::{
    chars_of, find_in, lemma_position, lemma_position_is, position, range_is, string_of, texts,
    trim_bounds, trimmed,
};
use vstd::prelude::*;
use vstd::string::StringExecFns;

verus! {

/// The two transports a request may use, each either allowed or not.
#[derive(Clone, Copy, Debug, PartialEq, Eq, Structural)]
pub struct Protocols {
    pub http: bool,
    pub https: bool,
}

impl Protocols {
    /// Whether plain HTTP must be refused: only HTTPS is allowed.
    pub open spec fn spec_https_only(self) -> bool {
        !self.http && self.https
    }

    /// Whether plain HTTP must be refused: only HTTPS is allowed.
    #[verifier::when_used_as_spec(spec_https_only)]
    pub fn https_only(self) -> (r: bool)
        ensures
            r == self.spec_https_only(),
    {
        !self.http && self.https
    }
}

/// The name `all`.
pub open spec fn name_all() -> Seq<char> {
    seq!['a', 'l', 'l']
}

/// The name `http`.
pub open spec fn name_http() -> Seq<char> {
    seq!['h', 't', 't', 'p']
}

/// The name `https`.
pub open spec fn name_https() -> Seq<char> {
    seq!['h', 't', 't', 'p', 's']
}

/// Whether `token` is an operator followed by a protocol name.
pub open spec fn recognized(token: Seq<char>) -> bool {
    &&& token.len() > 0
    &&& (token.first() == '=' || token.first() == '+' || token.first() == '-')
    &&& (token.drop_first() == name_all() || token.drop_first() == name_http()
        || token.drop_first() == name_https())
}

/// The allow-list `p` after one token.
pub open spec fn apply_token(p: Protocols, token: Seq<char>) -> Protocols {
    if !recognized(token) {
        p
    } else {
        let name = token.drop_first();
        let on = token.first() != '-';
        if name == name_all() {
            Protocols { http: on, https: on }
        } else if token.first() == '=' {
            Protocols { http: name == name_http(), https: name == name_https() }
        } else if name == name_http() {
            Protocols { http: on, https: p.https }
        } else {
            Protocols { http: p.http, https: on }
        }
    }
}

/// The allow-list `p` after the tokens of `directive`, applied from left to
/// right.
pub open spec fn apply_directive(p: Protocols, directive: Seq<char>) -> Protocols
    decreases directive.len(),
{
    let i = position(directive, ',');
    if 0 <= i < directive.len() {
        apply_directive(apply_token(p, directive.take(i)), directive.skip(i + 1))
    } else {
        apply_token(p, directive)
    }
}

/// The allow-list that `directive` makes of the initial one, in which both
/// protocols are allowed.
pub open spec fn protocols_of(directive: Seq<char>) -> Protocols {
    apply_directive(Protocols { http: true, https: true }, directive)
}

/// The tokens of `directive`: the stretches between its commas, in order. A
/// directive without a comma is one token.
pub open spec fn tokens_of(directive: Seq<char>) -> Seq<Seq<char>>
    decreases directive.len(),
{
    let i = position(directive, ',');
    if 0 <= i < directive.len() {
        seq![directive.take(i)] + tokens_of(directive.skip(i + 1))
    } else {
        seq![directive]
    }
}

/// The allow-list `p` after a sequence of tokens, the first applied first.
pub open spec fn apply_tokens(p: Protocols, tokens: Seq<Seq<char>>) -> Protocols
    decreases tokens.len(),
{
    if tokens.len() == 0 {
        p
    } else {
        apply_tokens(apply_token(p, tokens.first()), tokens.drop_first())
    }
}

/// Whether `token` is left without effect and reported: it is not
/// recognized, and not blank.
pub open spec fn reported(token: Seq<char>) -> bool {
    !recognized(token) && trimmed(token).len() > 0
}

/// The tokens of `directive` that are reported, in their order.
pub open spec fn reported_tokens(directive: Seq<char>) -> Seq<Seq<char>>
    decreases directive.len(),
{
    let i = position(directive, ',');
    if 0 <= i < directive.len() {
        let token = directive.take(i);
        if reported(token) {
            seq![token] + reported_tokens(directive.skip(i + 1))
        } else {
            reported_tokens(directive.skip(i + 1))
        }
    } else if reported(directive) {
        seq![directive]
    } else {
        Seq::empty()
    }
}

/// What a directive makes of an allow-list is what its tokens make of it
/// when they are applied one after the other, from left to right.
pub proof fn lemma_directive_is_its_tokens(p: Protocols, directive: Seq<char>)
    ensures
        apply_directive(p, directive) == apply_tokens(p, tokens_of(directive)),
    decreases directive.len(),
{
    let i = position(directive, ',');
    let tokens = tokens_of(directive);
    if 0 <= i < directive.len() {
        let rest = directive.skip(i + 1);
        assert(tokens.first() == directive.take(i));
        assert(tokens.drop_first() =~= tokens_of(rest));
        lemma_directive_is_its_tokens(apply_token(p, directive.take(i)), rest);
    } else {
        assert(tokens.first() == directive);
        assert(tokens.drop_first() =~= Seq::<Seq<char>>::empty());
        assert(apply_tokens(apply_token(p, directive), tokens.drop_first()) == apply_token(
            p,
            directive,
        ));
    }
}

/// Directives apply from left to right: what `a`, a comma and `b` make of an
/// allow-list is what `b` makes of what `a` made of it. So a later directive
/// overrides an earlier one.
pub proof fn lemma_directives_compose(p: Protocols, a: Seq<char>, b: Seq<char>)
    ensures
        apply_directive(p, a + seq![','] + b) == apply_directive(apply_directive(p, a), b),
    decreases a.len(),
{
    let whole = a + seq![','] + b;
    let i = position(a, ',');
    lemma_position(a, ',');
    assert forall|j: int| 0 <= j < i implies whole[j] != ',' by {
        assert(whole[j] == a[j]);
    }
    assert(whole[i] == ',');
    lemma_position_is(whole, ',', i);
    assert(whole.take(i) =~= a.take(i));
    if i < a.len() {
        let rest = a.skip(i + 1);
        assert(whole.skip(i + 1) =~= rest + seq![','] + b);
        lemma_directives_compose(apply_token(p, a.take(i)), rest, b);
    } else {
        assert(a.take(i) =~= a);
        assert(whole.skip(i + 1) =~= b);
    }
}

/// A token that resets the allow-list decides it alone, whatever came
/// before.
pub proof fn lemma_reset_overrides(p: Protocols, q: Protocols, token: Seq<char>)
    requires
        recognized(token),
        token.first() == '=',
    ensures
        apply_token(p, token) == apply_token(q, token),
{
}

fn recognized_range(v: &Vec<char>, lo: usize, hi: usize) -> (r: bool)
    requires
        lo <= hi <= v@.len(),
    ensures
        r == recognized(v@.subrange(lo as int, hi as int)),
{
    let ghost token = v@.subrange(lo as int, hi as int);
    if lo == hi {
        return false;
    }
    let op = v[lo];
    assert(op == token.first());
    if op != '=' && op != '+' && op != '-' {
        return false;
    }
    let all: [char; 3] = ['a', 'l', 'l'];
    let http: [char; 4] = ['h', 't', 't', 'p'];
    let https: [char; 5] = ['h', 't', 't', 'p', 's'];
    proof {
        assert(all@ =~= name_all());
        assert(http@ =~= name_http());
        assert(https@ =~= name_https());
        assert(token.drop_first() =~= v@.subrange(lo + 1, hi as int));
    }
    range_is(v, lo + 1, hi, all.as_slice()) || range_is(v, lo + 1, hi, http.as_slice())
        || range_is(v, lo + 1, hi, https.as_slice())
}

fn apply_range(p: Protocols, v: &Vec<char>, lo: usize, hi: usize) -> (r: Protocols)
    requires
        lo <= hi <= v@.len(),
    ensures
        r == apply_token(p, v@.subrange(lo as int, hi as int)),
{
    let ghost token = v@.subrange(lo as int, hi as int);
    if lo == hi {
        return p;
    }
    let op = v[lo];
    assert(op == token.first());
    if op != '=' && op != '+' && op != '-' {
        return p;
    }
    let all: [char; 3] = ['a', 'l', 'l'];
    let http: [char; 4] = ['h', 't', 't', 'p'];
    let https: [char; 5] = ['h', 't', 't', 'p', 's'];
    proof {
        assert(all@ =~= name_all());
        assert(http@ =~= name_http());
        assert(https@ =~= name_https());
        assert(token.drop_first() =~= v@.subrange(lo + 1, hi as int));
    }
    let is_all = range_is(v, lo + 1, hi, all.as_slice());
    let is_http = range_is(v, lo + 1, hi, http.as_slice());
    let is_https = range_is(v, lo + 1, hi, https.as_slice());
    let on = op != '-';
    if is_all {
        Protocols { http: on, https: on }
    } else if is_http {
        if op == '=' {
            Protocols { http: true, https: false }
        } else {
            Protocols { http: on, https: p.https }
        }
    } else if is_https {
        if op == '=' {
            Protocols { http: false, https: true }
        } else {
            Protocols { http: p.http, https: on }
        }
    } else {
        p
    }
}

/// Resolves a protocol directive: starting with both protocols allowed, its
/// tokens are applied from left to right, and a later one overrides an
/// earlier one.
pub fn get_protocols(protocols: &String) -> (result: Protocols)
    ensures
        result == protocols_of(protocols@),
{
    let v = chars_of(protocols.as_str());
    let n = v.len();
    let mut result = Protocols { http: true, https: true };
    let mut start: usize = 0;
    proof {
        assert(v@.subrange(0, n as int) =~= v@);
    }
    loop
        invariant_except_break
            apply_directive(result, v@.subrange(start as int, n as int)) == protocols_of(v@),
        invariant
            n == v@.len(),
            v@ == protocols@,
            start <= n,
        ensures
            result == protocols_of(v@),
        decreases n - start,
    {
        let ghost rest = v@.subrange(start as int, n as int);
        let i = find_in(&v, start, n, ',');
        proof {
            assert(rest.take(i - start) =~= v@.subrange(start as int, i as int));
            if i < n {
                assert(rest.skip(i - start + 1) =~= v@.subrange(i + 1, n as int));
            } else {
                assert(rest =~= v@.subrange(start as int, i as int));
            }
        }
        result = apply_range(result, &v, start, i);
        if i == n {
            break ;
        }
        start = i + 1;
    }
    result
}

/// The tokens of a protocol directive that have no effect and deserve a
/// warning: those that are neither recognized nor blank, in their order.
pub fn unrecognized_tokens(protocols: &String) -> (result: Vec<String>)
    ensures
        texts(result@) == reported_tokens(protocols@),
{
    let v = chars_of(protocols.as_str());
    let n = v.len();
    let mut result: Vec<String> = Vec::new();
    let mut start: usize = 0;
    proof {
        assert(v@.subrange(0, n as int) =~= v@);
        assert(texts(result@) =~= Seq::<Seq<char>>::empty());
    }
    loop
        invariant_except_break
            texts(result@) + reported_tokens(v@.subrange(start as int, n as int))
                == reported_tokens(v@),
        invariant
            n == v@.len(),
            v@ == protocols@,
            start <= n,
        ensures
            texts(result@) == reported_tokens(v@),
        decreases n - start,
    {
        let ghost rest = v@.subrange(start as int, n as int);
        let ghost before = texts(result@);
        let i = find_in(&v, start, n, ',');
        proof {
            assert(rest.take(i - start) =~= v@.subrange(start as int, i as int));
            if i < n {
                assert(rest.skip(i - start + 1) =~= v@.subrange(i + 1, n as int));
            } else {
                assert(rest =~= v@.subrange(start as int, i as int));
            }
        }
        let (a, b) = trim_bounds(&v, start, i);
        if a < b && !recognized_range(&v, start, i) {
            let token = string_of(&v, start, i);
            result.push(token);
            proof {
                assert(texts(result@) =~= before + seq![v@.subrange(start as int, i as int)]);
            }
        }
        proof {
            let token = v@.subrange(start as int, i as int);
            let tail = if i < n {
                reported_tokens(v@.subrange(i + 1, n as int))
            } else {
                Seq::empty()
            };
            assert(reported_tokens(rest) =~= (if reported(token) {
                seq![token]
            } else {
                Seq::empty()
            }) + tail);
            assert(texts(result@) + tail =~= before + reported_tokens(rest));
        }
        if i == n {
            proof {
                assert(texts(result@) + Seq::<Seq<char>>::empty() =~= texts(result@));
            }
            break ;
        }
        start = i + 1;
    }
    result
}

/// The warning for a token that is left without effect.
pub open spec fn warning_of(token: Seq<char>) -> Seq<char> {
    "unrecognized protocol '"@ + token + "'"@
}

/// The warning for a token that is left without effect.
pub fn protocol_warning(token: &str) -> (text: String)
    ensures
        text@ == warning_of(token@),
{
    let mut text = String::from_str("unrecognized protocol '");
    text.append(token);
    text.append("'");
    text
}

} // verus!
