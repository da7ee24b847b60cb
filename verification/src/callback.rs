//! Parsing of the loopback redirect URL into a typed outcome.
//!
//! The callback URL is examined in this order: standard query parameters
//! first; if neither `error` nor `code` occurs there, the fragment (the text
//! after `#`) is parsed as an `&`-joined `key=value` list and merged behind
//! the query. An `error` parameter anywhere wins over a `code` parameter.
//! When a code is found, the redirect URI is the URL with query and fragment
//! stripped, which the token exchange must replay exactly.

use vstd::prelude::*;

use crate::codec::{form_decode, form_decode_str};
use crate::text::{pairs_view, str_eq};

verus! {

/// What one inbound callback request means.
#[derive(Debug)]
pub enum CallbackOutcome {
    /// The provider handed back an authorization code.
    AuthorizationCode { code: String, redirect_uri: String },
    /// The provider reported a failure, e.g. the user declined consent.
    ProviderError { code: String, description: Option<String> },
}

/// Why a request did not produce a `CallbackOutcome`.
#[derive(Debug)]
pub enum ParseError {
    /// Neither `error` nor `code` occurs anywhere in the URL; the listener
    /// keeps waiting.
    NotDecisive,
    /// The text is not a URL with a scheme part.
    InvalidUrl,
}

/// Spec-level counterpart of `parse`'s result.
pub ghost enum SpecCallback {
    Code { code: Seq<char>, redirect_uri: Seq<char> },
    Denied { code: Seq<char>, description: Option<Seq<char>> },
    NotDecisive,
    InvalidUrl,
}

/// Index of the first occurrence of `c` in `s`, or `s.len()` if absent.
pub open spec fn find_char(s: Seq<char>, c: char) -> int
    decreases s.len(),
{
    if s.len() == 0 {
        0
    } else if s[0] == c {
        0
    } else {
        1 + find_char(s.skip(1), c)
    }
}

pub proof fn lemma_find_char_bounds(s: Seq<char>, c: char)
    ensures
        0 <= find_char(s, c) <= s.len(),
        find_char(s, c) < s.len() ==> s[find_char(s, c)] == c,
        forall|j: int| 0 <= j < find_char(s, c) ==> s[j] != c,
    decreases s.len(),
{
    if s.len() == 0 {
    } else if s[0] == c {
    } else {
        lemma_find_char_bounds(s.skip(1), c);
        assert forall|j: int| 0 <= j < find_char(s, c) implies s[j] != c by {
            if j > 0 {
                assert(s.skip(1)[j - 1] == s[j]);
            }
        }
    }
}

pub proof fn lemma_find_char_at(s: Seq<char>, c: char, i: int)
    requires
        0 <= i <= s.len(),
        forall|j: int| 0 <= j < i ==> s[j] != c,
        i < s.len() ==> s[i] == c,
    ensures
        find_char(s, c) == i,
    decreases s.len(),
{
    if s.len() == 0 {
    } else if s[0] == c {
        assert(i == 0);
    } else {
        assert(i > 0 || s.len() == i);
        if i == 0 {
            assert(s[0] == c);
            assert(false);
        }
        assert forall|j: int| 0 <= j < i - 1 implies s.skip(1)[j] != c by {
            assert(s.skip(1)[j] == s[j + 1]);
        }
        assert(i - 1 < s.skip(1).len() ==> s.skip(1)[i - 1] == c);
        lemma_find_char_at(s.skip(1), c, i - 1);
    }
}

/// Splits `s` at the first occurrence of `sep` into decoded key and value;
/// without a `sep` the whole piece is the key and the value is empty.
pub open spec fn pair_of(piece: Seq<char>) -> (Seq<char>, Seq<char>) {
    let e = find_char(piece, '=');
    if e < piece.len() {
        (form_decode(piece.take(e)), form_decode(piece.skip(e + 1)))
    } else {
        (form_decode(piece), Seq::empty())
    }
}

/// The `key=value` pairs of an `&`-joined list, in order, with empty pieces
/// skipped and both sides form-decoded.
pub open spec fn query_pairs(q: Seq<char>) -> Seq<(Seq<char>, Seq<char>)>
    decreases q.len(),
    via query_pairs_dec
{
    if q.len() == 0 {
        Seq::empty()
    } else {
        let a = find_char(q, '&');
        let piece = q.take(a);
        let head: Seq<(Seq<char>, Seq<char>)> = if piece.len() == 0 {
            Seq::empty()
        } else {
            seq![pair_of(piece)]
        };
        if a == q.len() {
            head
        } else {
            head + query_pairs(q.skip(a + 1))
        }
    }
}

#[via_fn]
proof fn query_pairs_dec(q: Seq<char>) {
    lemma_find_char_bounds(q, '&');
}

/// First value stored under `key`, if any.
pub open spec fn lookup(pairs: Seq<(Seq<char>, Seq<char>)>, key: Seq<char>) -> Option<Seq<char>>
    decreases pairs.len(),
{
    if pairs.len() == 0 {
        None
    } else if pairs[0].0 == key {
        Some(pairs[0].1)
    } else {
        lookup(pairs.skip(1), key)
    }
}

/// The URL with query and fragment stripped: everything before the first of
/// `?` and `#`.
pub open spec fn base_of(u: Seq<char>) -> Seq<char> {
    u.take(find_char(u.take(find_char(u, '#')), '?'))
}

/// The query part: between the first `?` (before any `#`) and the first `#`.
pub open spec fn query_of(u: Seq<char>) -> Seq<char> {
    let body = u.take(find_char(u, '#'));
    let qp = find_char(body, '?');
    if qp < body.len() {
        body.skip(qp + 1)
    } else {
        Seq::empty()
    }
}

/// The fragment part: everything after the first `#`.
pub open spec fn fragment_of(u: Seq<char>) -> Seq<char> {
    let h = find_char(u, '#');
    if h < u.len() {
        u.skip(h + 1)
    } else {
        Seq::empty()
    }
}

/// True when the part of `u` before query and fragment contains `://`.
pub open spec fn has_scheme(u: Seq<char>) -> bool {
    let base = base_of(u);
    let k = find_char(base, ':');
    k + 2 < base.len() && base[k + 1] == '/' && base[k + 2] == '/'
}

/// The parameter list a callback request is judged by: the query pairs, and
/// behind them the fragment pairs when the query holds neither `error` nor
/// `code`.
pub open spec fn effective_pairs(u: Seq<char>) -> Seq<(Seq<char>, Seq<char>)> {
    let q = query_pairs(query_of(u));
    if lookup(q, "error"@) is Some || lookup(q, "code"@) is Some {
        q
    } else {
        q + query_pairs(fragment_of(u))
    }
}

/// The meaning of one callback URL: an `error` parameter anywhere wins, then
/// a `code` parameter yields an authorization code together with the URL
/// stripped of query and fragment, and otherwise the request is not decisive.
pub open spec fn parse_spec(u: Seq<char>) -> SpecCallback {
    if !has_scheme(u) {
        SpecCallback::InvalidUrl
    } else {
        let pairs = effective_pairs(u);
        match lookup(pairs, "error"@) {
            Some(e) => SpecCallback::Denied {
                code: e,
                description: lookup(pairs, "error_description"@),
            },
            None => match lookup(pairs, "code"@) {
                Some(c) => SpecCallback::Code { code: c, redirect_uri: base_of(u) },
                None => SpecCallback::NotDecisive,
            },
        }
    }
}

/// Relates the spec-level meaning of a URL to the value `parse` returned.
pub open spec fn outcome_matches(s: SpecCallback, r: Result<CallbackOutcome, ParseError>) -> bool {
    match r {
        Ok(CallbackOutcome::AuthorizationCode { code, redirect_uri }) => s matches
            SpecCallback::Code { code: c, redirect_uri: ru } && code@ == c && redirect_uri@ == ru,
        Ok(CallbackOutcome::ProviderError { code, description }) => s matches SpecCallback::Denied {
            code: c,
            description: d,
        } && code@ == c && match (description, d) {
            (Option::None, Option::None) => true,
            (Option::Some(x), Option::Some(y)) => x@ == y,
            _ => false,
        },
        Err(ParseError::NotDecisive) => s is NotDecisive,
        Err(ParseError::InvalidUrl) => s is InvalidUrl,
    }
}

pub proof fn lemma_lookup_concat(
    a: Seq<(Seq<char>, Seq<char>)>,
    b: Seq<(Seq<char>, Seq<char>)>,
    k: Seq<char>,
)
    ensures
        lookup(a + b, k) == match lookup(a, k) {
            Option::Some(v) => Option::Some(v),
            Option::None => lookup(b, k),
        },
    decreases a.len(),
{
    if a.len() == 0 {
        assert(a + b =~= b);
    } else {
        assert((a + b)[0] == a[0]);
        assert((a + b).skip(1) =~= a.skip(1) + b);
        lemma_lookup_concat(a.skip(1), b, k);
    }
}

/// An `error` parameter takes precedence: whenever the parameters a callback
/// URL is judged by carry `error`, the outcome reports the provider's error
/// and is never an authorization code, even when a `code` parameter is
/// present as well.
pub proof fn lemma_error_precedence(u: Seq<char>)
    requires
        has_scheme(u),
        lookup(effective_pairs(u), "error"@) is Some,
    ensures
        parse_spec(u) == (SpecCallback::Denied {
            code: lookup(effective_pairs(u), "error"@)->0,
            description: lookup(effective_pairs(u), "error_description"@),
        }),
        !(parse_spec(u) is Code),
{
}

/// A `code` parameter that occurs only in the fragment still yields an
/// authorization code, with the code taken from the fragment and the
/// redirect URI equal to the URL stripped of query and fragment.
pub proof fn lemma_code_from_fragment(u: Seq<char>)
    requires
        has_scheme(u),
        lookup(query_pairs(query_of(u)), "error"@) is None,
        lookup(query_pairs(query_of(u)), "code"@) is None,
        lookup(query_pairs(fragment_of(u)), "error"@) is None,
        lookup(query_pairs(fragment_of(u)), "code"@) is Some,
    ensures
        parse_spec(u) == (SpecCallback::Code {
            code: lookup(query_pairs(fragment_of(u)), "code"@)->0,
            redirect_uri: base_of(u),
        }),
{
    let q = query_pairs(query_of(u));
    let f = query_pairs(fragment_of(u));
    lemma_lookup_concat(q, f, "error"@);
    lemma_lookup_concat(q, f, "code"@);
}

/// The redirect reconstruction keeps the text before the parameters
/// exactly: when a URL is a base free of `?` and `#` followed by nothing,
/// a query or a fragment, stripping query and fragment gives back that
/// base, character for character.
pub proof fn lemma_base_of_prefix(prefix: Seq<char>, rest: Seq<char>)
    requires
        forall|i: int| 0 <= i < prefix.len() ==> prefix[i] != '?' && #[trigger] prefix[i] != '#',
        rest.len() == 0 || rest[0] == '?' || rest[0] == '#',
    ensures
        base_of(prefix + rest) == prefix,
{
    let u = prefix + rest;
    let plen = prefix.len() as int;
    assert forall|j: int| 0 <= j < plen implies u[j] != '?' && #[trigger] u[j] != '#' by {
        assert(u[j] == prefix[j]);
    }
    if rest.len() == 0 {
        assert(u =~= prefix);
        lemma_find_char_at(u, '#', plen);
        let body = u.take(plen);
        assert(body =~= prefix);
        lemma_find_char_at(body, '?', plen);
        assert(base_of(u) =~= prefix);
    } else if rest[0] == '#' {
        assert(u[plen] == '#');
        lemma_find_char_at(u, '#', plen);
        let body = u.take(plen);
        assert(body =~= prefix);
        lemma_find_char_at(body, '?', plen);
        assert(base_of(u) =~= prefix);
    } else {
        assert(u[plen] == '?');
        lemma_find_char_bounds(u, '#');
        let h = find_char(u, '#');
        assert(h > plen) by {
            if h <= plen {
                assert(h < u.len());
                assert(u[h] == '#');
            }
        }
        let body = u.take(h);
        assert forall|j: int| 0 <= j < plen implies #[trigger] body[j] != '?' by {
            assert(body[j] == u[j]);
        }
        assert(body[plen] == '?');
        lemma_find_char_at(body, '?', plen);
        assert(base_of(u) == u.take(plen));
        assert(u.take(plen) =~= prefix);
    }
}

/// A URL that carries neither `error` nor `code`, in the query or in the
/// fragment, is not decisive.
pub proof fn lemma_not_decisive(u: Seq<char>)
    requires
        has_scheme(u),
        lookup(query_pairs(query_of(u)), "error"@) is None,
        lookup(query_pairs(query_of(u)), "code"@) is None,
        lookup(query_pairs(fragment_of(u)), "error"@) is None,
        lookup(query_pairs(fragment_of(u)), "code"@) is None,
    ensures
        parse_spec(u) is NotDecisive,
{
    let q = query_pairs(query_of(u));
    let f = query_pairs(fragment_of(u));
    lemma_lookup_concat(q, f, "error"@);
    lemma_lookup_concat(q, f, "code"@);
}

fn find_char_in(s: &str, c: char) -> (r: usize)
    ensures
        r == find_char(s@, c),
        r <= s@.len(),
{
    let n = s.unicode_len();
    let mut i: usize = 0;
    while i < n
        invariant
            i <= n,
            n == s@.len(),
            forall|j: int| 0 <= j < i ==> s@[j] != c,
        decreases n - i,
    {
        if s.get_char(i) == c {
            proof {
                lemma_find_char_at(s@, c, i as int);
            }
            return i;
        }
        i = i + 1;
    }
    proof {
        lemma_find_char_at(s@, c, n as int);
    }
    n
}

fn parse_piece(piece: &str) -> (r: (String, String))
    ensures
        (r.0@, r.1@) == pair_of(piece@),
{
    let n = piece.unicode_len();
    let e = find_char_in(piece, '=');
    if e < n {
        let key = form_decode_str(piece.substring_char(0, e));
        let value = form_decode_str(piece.substring_char(e + 1, n));
        proof {
            assert(piece@.subrange(0, e as int) == piece@.take(e as int));
            assert(piece@.subrange(e + 1, n as int) == piece@.skip(e + 1));
        }
        (key, value)
    } else {
        let key = form_decode_str(piece);
        (key, String::new())
    }
}

fn parse_query_pairs(q: &str) -> (r: Vec<(String, String)>)
    ensures
        pairs_view(r@) == query_pairs(q@),
    decreases q@.len(),
{
    let n = q.unicode_len();
    if n == 0 {
        let r: Vec<(String, String)> = Vec::new();
        proof {
            assert(pairs_view(r@) =~= query_pairs(q@));
        }
        return r;
    }
    let a = find_char_in(q, '&');
    let piece = q.substring_char(0, a);
    proof {
        assert(piece@ == q@.take(a as int));
    }
    let mut head: Vec<(String, String)> = Vec::new();
    if piece.unicode_len() > 0 {
        let p = parse_piece(piece);
        head.push(p);
    }
    if a == n {
        proof {
            assert(pairs_view(head@) =~= query_pairs(q@));
        }
        head
    } else {
        proof {
            lemma_find_char_bounds(q@, '&');
        }
        let mut rest = parse_query_pairs(q.substring_char(a + 1, n));
        proof {
            assert(q@.subrange(a + 1, n as int) == q@.skip(a + 1));
        }
        let ghost head0 = head@;
        let ghost rest0 = rest@;
        head.append(&mut rest);
        proof {
            assert(pairs_view(head@) =~= pairs_view(head0) + pairs_view(rest0));
            assert(pairs_view(head@) =~= query_pairs(q@));
        }
        head
    }
}

fn lookup_pair(pairs: &Vec<(String, String)>, key: &str) -> (r: Option<String>)
    ensures
        match lookup(pairs_view(pairs@), key@) {
            Option::Some(v) => r matches Option::Some(s) && s@ == v,
            Option::None => r is None,
        },
{
    let n = pairs.len();
    let mut i: usize = 0;
    proof {
        assert(pairs_view(pairs@).skip(0) == pairs_view(pairs@));
    }
    while i < n
        invariant
            i <= n,
            n == pairs@.len(),
            lookup(pairs_view(pairs@), key@) == lookup(pairs_view(pairs@).skip(i as int), key@),
        decreases n - i,
    {
        let ghost i0 = i as int;
        proof {
            assert(pairs_view(pairs@).skip(i0)[0] == pairs_view(pairs@)[i0]);
            assert(pairs_view(pairs@).skip(i0).skip(1) =~= pairs_view(pairs@).skip(i0 + 1));
        }
        if str_eq(pairs[i].0.as_str(), key) {
            return Some(pairs[i].1.clone());
        }
        i = i + 1;
    }
    proof {
        assert(pairs_view(pairs@).skip(n as int) =~= Seq::<(Seq<char>, Seq<char>)>::empty());
    }
    None
}

/// Parses one raw callback URL into its typed outcome.
pub fn parse(u: &str) -> (r: Result<CallbackOutcome, ParseError>)
    ensures
        outcome_matches(parse_spec(u@), r),
{
    let n = u.unicode_len();
    let h = find_char_in(u, '#');
    let body = u.substring_char(0, h);
    proof {
        assert(body@ == u@.take(h as int));
    }
    let frag = if h < n {
        u.substring_char(h + 1, n)
    } else {
        ""
    };
    proof {
        if h < n {
            assert(u@.subrange(h + 1, n as int) == u@.skip(h + 1));
            assert(frag@ == fragment_of(u@));
        } else {
            reveal_strlit("");
            assert(frag@ =~= fragment_of(u@));
        }
    }
    let bn = body.unicode_len();
    let qp = find_char_in(body, '?');
    let base = body.substring_char(0, qp);
    proof {
        assert(base@ == body@.subrange(0, qp as int));
        assert(base@ =~= u@.take(qp as int));
        assert(base@ == base_of(u@));
    }
    let query = if qp < bn {
        body.substring_char(qp + 1, bn)
    } else {
        ""
    };
    proof {
        if qp < bn {
            assert(body@.subrange(qp + 1, bn as int) == body@.skip(qp + 1));
            assert(query@ == query_of(u@));
        } else {
            reveal_strlit("");
            assert(query@ =~= query_of(u@));
        }
    }
    // The URL must at least have a scheme part.
    let k = find_char_in(base, ':');
    let bl = base.unicode_len();
    let well_formed = bl - k > 2 && base.get_char(k + 1) == '/' && base.get_char(k + 2) == '/';
    if !well_formed {
        proof {
            assert(!has_scheme(u@));
        }
        return Err(ParseError::InvalidUrl);
    }
    assert(has_scheme(u@));
    let q = parse_query_pairs(query);
    let query_error = lookup_pair(&q, "error");
    let query_code = lookup_pair(&q, "code");
    let mut pairs = q;
    if query_error.is_none() && query_code.is_none() {
        let mut f = parse_query_pairs(frag);
        let ghost q0 = pairs@;
        let ghost f0 = f@;
        pairs.append(&mut f);
        proof {
            assert(pairs_view(pairs@) =~= pairs_view(q0) + pairs_view(f0));
            assert(pairs_view(pairs@) == effective_pairs(u@));
        }
    } else {
        proof {
            assert(pairs_view(pairs@) == effective_pairs(u@));
        }
    }
    let error = lookup_pair(&pairs, "error");
    match error {
        Some(code) => {
            let description = lookup_pair(&pairs, "error_description");
            Ok(CallbackOutcome::ProviderError { code, description })
        },
        None => {
            let code = lookup_pair(&pairs, "code");
            match code {
                Some(code) => Ok(
                    CallbackOutcome::AuthorizationCode { code, redirect_uri: base.to_owned() },
                ),
                None => Err(ParseError::NotDecisive),
            }
        },
    }
}

} // verus!
