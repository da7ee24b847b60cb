//! JSON for the two wire directions.
//!
//! Request bodies are rendered by this module's own verified serializer for
//! flat objects of string members. Response bodies are read through
//! serde_json behind trusted accessors whose results carry names, so that
//! the interpretation of a response can be stated exactly.

use vstd::prelude::*;

use crate::text::{hex_digit_upper, hex_upper_char, pairs_view, push_char};

verus! {

/// The escape of one character inside a JSON string literal.
pub open spec fn json_escape_char(c: char) -> Seq<char> {
    if c == '"' {
        seq!['\\', '"']
    } else if c == '\\' {
        seq!['\\', '\\']
    } else if c == '\n' {
        seq!['\\', 'n']
    } else if c == '\r' {
        seq!['\\', 'r']
    } else if c == '\t' {
        seq!['\\', 't']
    } else if (c as nat) < 32 {
        seq!['\\', 'u', '0', '0', hex_digit_upper(c as nat / 16), hex_digit_upper(c as nat % 16)]
    } else {
        seq![c]
    }
}

/// The escaped body of a JSON string literal.
pub open spec fn json_escaped(s: Seq<char>) -> Seq<char>
    decreases s.len(),
{
    if s.len() == 0 {
        Seq::empty()
    } else {
        json_escape_char(s[0]) + json_escaped(s.skip(1))
    }
}

/// A JSON string literal with its quotes.
pub open spec fn json_string(s: Seq<char>) -> Seq<char> {
    seq!['"'] + json_escaped(s) + seq!['"']
}

/// One `"key":"value"` member.
pub open spec fn json_member(p: (Seq<char>, Seq<char>)) -> Seq<char> {
    json_string(p.0) + seq![':'] + json_string(p.1)
}

/// The members of an object, joined with commas.
pub open spec fn json_members(pairs: Seq<(Seq<char>, Seq<char>)>) -> Seq<char>
    decreases pairs.len(),
{
    if pairs.len() == 0 {
        Seq::empty()
    } else if pairs.len() == 1 {
        json_member(pairs[0])
    } else {
        json_member(pairs[0]) + seq![','] + json_members(pairs.skip(1))
    }
}

/// A flat JSON object of string members.
pub open spec fn json_object(pairs: Seq<(Seq<char>, Seq<char>)>) -> Seq<char> {
    seq!['{'] + json_members(pairs) + seq!['}']
}

pub proof fn lemma_json_members_push(pairs: Seq<(Seq<char>, Seq<char>)>, p: (Seq<char>, Seq<char>))
    ensures
        json_members(pairs.push(p)) == if pairs.len() == 0 {
            json_member(p)
        } else {
            json_members(pairs) + seq![','] + json_members(seq![p])
        },
    decreases pairs.len(),
{
    if pairs.len() == 0 {
        assert(pairs.push(p) =~= seq![p]);
    } else {
        assert(pairs.push(p)[0] == pairs[0]);
        assert(pairs.push(p).skip(1) =~= pairs.skip(1).push(p));
        lemma_json_members_push(pairs.skip(1), p);
        if pairs.len() == 1 {
            assert(pairs.skip(1).len() == 0);
            assert(json_members(pairs.push(p)) == json_member(pairs[0]) + seq![','] + json_member(
                p,
            ));
        } else {
            assert(json_member(pairs[0]) + seq![','] + (json_members(pairs.skip(1)) + seq![',']
                + json_members(seq![p])) =~= (json_member(pairs[0]) + seq![','] + json_members(
                pairs.skip(1),
            )) + seq![','] + json_members(seq![p]));
        }
    }
}

/// Appends the escaped body of `s` to `out`.
fn append_json_escaped(out: &mut String, s: &str)
    ensures
        final(out)@ == old(out)@ + json_escaped(s@),
{
    let n = s.unicode_len();
    let mut i: usize = 0;
    proof {
        assert(s@.skip(0) == s@);
        assert(old(out)@ + json_escaped(s@.skip(0)) == old(out)@ + json_escaped(s@));
    }
    while i < n
        invariant
            i <= n,
            n == s@.len(),
            old(out)@ + json_escaped(s@) == out@ + json_escaped(s@.skip(i as int)),
        decreases n - i,
    {
        let ghost i0 = i as int;
        let ghost pre = out@;
        let c = s.get_char(i);
        proof {
            assert(s@.skip(i0)[0] == s@[i0]);
            assert(s@.skip(i0).skip(1) =~= s@.skip(i0 + 1));
        }
        if c == '"' {
            push_char(out, '\\');
            push_char(out, '"');
        } else if c == '\\' {
            push_char(out, '\\');
            push_char(out, '\\');
        } else if c == '\n' {
            push_char(out, '\\');
            push_char(out, 'n');
        } else if c == '\r' {
            push_char(out, '\\');
            push_char(out, 'r');
        } else if c == '\t' {
            push_char(out, '\\');
            push_char(out, 't');
        } else if (c as u32) < 32 {
            let v: u8 = (c as u32) as u8;
            push_char(out, '\\');
            push_char(out, 'u');
            push_char(out, '0');
            push_char(out, '0');
            push_char(out, hex_upper_char(v / 16));
            push_char(out, hex_upper_char(v % 16));
            proof {
                assert(v as nat == c as nat);
            }
        } else {
            push_char(out, c);
        }
        i = i + 1;
        proof {
            assert(pre + (json_escape_char(c) + json_escaped(s@.skip(i0 + 1))) =~= out@
                + json_escaped(s@.skip(i0 + 1)));
            assert(pre + json_escaped(s@.skip(i0)) =~= pre + (json_escape_char(c) + json_escaped(
                s@.skip(i0 + 1),
            )));
        }
    }
    proof {
        assert(s@.skip(n as int) =~= Seq::<char>::empty());
        assert(out@ + json_escaped(s@.skip(n as int)) =~= out@);
    }
}

/// Appends the JSON string literal for `s` to `out`.
pub fn append_json_string(out: &mut String, s: &str)
    ensures
        final(out)@ == old(out)@ + json_string(s@),
{
    push_char(out, '"');
    append_json_escaped(out, s);
    push_char(out, '"');
    proof {
        assert(old(out)@ + json_string(s@) =~= out@);
    }
}

/// Renders a flat JSON object whose members are the given pairs, in order.
pub fn build_json_object(pairs: &Vec<(String, String)>) -> (r: String)
    ensures
        r@ == json_object(pairs_view(pairs@)),
{
    let mut out = String::new();
    push_char(&mut out, '{');
    let n = pairs.len();
    let mut i: usize = 0;
    while i < n
        invariant
            i <= n,
            n == pairs@.len(),
            out@ == seq!['{'] + json_members(pairs_view(pairs@).take(i as int)),
        decreases n - i,
    {
        let ghost view = pairs_view(pairs@);
        let ghost i0 = i as int;
        let ghost pre = out@;
        if i > 0 {
            push_char(&mut out, ',');
        }
        append_json_string(&mut out, pairs[i].0.as_str());
        push_char(&mut out, ':');
        append_json_string(&mut out, pairs[i].1.as_str());
        i = i + 1;
        proof {
            assert(view.take(i0).push(view[i0]) =~= view.take(i0 + 1));
            lemma_json_members_push(view.take(i0), view[i0]);
            assert(json_members(seq![view[i0]]) == json_member(view[i0]));
            if i0 == 0 {
                assert(out@ =~= seq!['{'] + json_members(view.take(i0 + 1)));
            } else {
                assert(out@ =~= seq!['{'] + (json_members(view.take(i0)) + seq![','] + json_member(
                    view[i0],
                )));
            }
        }
    }
    push_char(&mut out, '}');
    proof {
        assert(pairs_view(pairs@).take(n as int) =~= pairs_view(pairs@));
        assert(out@ =~= json_object(pairs_view(pairs@)));
    }
    out
}

/// The string value at top-level key `key` of the JSON object `body`, if
/// `body` parses as an object with a string there.
pub uninterp spec fn json_str_field(body: Seq<char>, key: Seq<char>) -> Option<Seq<char>>;

/// The string value reached from the top of the JSON object `body` through
/// member `k1`, then member `k2`, if every step exists.
pub uninterp spec fn json_str_field2(body: Seq<char>, k1: Seq<char>, k2: Seq<char>) -> Option<
    Seq<char>,
>;

/// The string value reached through members `k1`, `k2`, `k3` in turn.
pub uninterp spec fn json_str_field3(
    body: Seq<char>,
    k1: Seq<char>,
    k2: Seq<char>,
    k3: Seq<char>,
) -> Option<Seq<char>>;

/// The integer value at top-level key `key` of the JSON object `body`.
pub uninterp spec fn json_int_field(body: Seq<char>, key: Seq<char>) -> Option<int>;

/// Relies on serde_json (`from_str`, `Value::get`, `Value::as_str`): the
/// string value at top-level key `key` of `body`. serde_json's parsing is
/// deterministic, so the result depends on the arguments alone.
#[verifier::external_body]
pub(crate) fn get_string_field(body: &str, key: &str) -> (r: Option<String>)
    ensures
        (r is Some) == (json_str_field(body@, key@) is Some),
        r matches Some(v) ==> v@ == json_str_field(body@, key@)->0,
{
    serde_json::from_str::<serde_json::Value>(body).ok().and_then(
        |v| v.get(key).and_then(|f| f.as_str()).map(|s| s.to_string()),
    )
}

/// Relies on serde_json (`from_str`, `Value::get`, `Value::as_str`): the
/// string value reached through `k1` then `k2`. Deterministic in the
/// arguments alone.
#[verifier::external_body]
pub(crate) fn get_string_field2(body: &str, k1: &str, k2: &str) -> (r: Option<String>)
    ensures
        (r is Some) == (json_str_field2(body@, k1@, k2@) is Some),
        r matches Some(v) ==> v@ == json_str_field2(body@, k1@, k2@)->0,
{
    serde_json::from_str::<serde_json::Value>(body).ok().and_then(
        |v| v.get(k1).and_then(|m| m.get(k2)).and_then(|f| f.as_str()).map(|s| s.to_string()),
    )
}

/// Relies on serde_json (`from_str`, `Value::get`, `Value::as_str`): the
/// string value reached through `k1`, `k2`, `k3`. Deterministic in the
/// arguments alone.
#[verifier::external_body]
pub(crate) fn get_string_field3(body: &str, k1: &str, k2: &str, k3: &str) -> (r: Option<String>)
    ensures
        (r is Some) == (json_str_field3(body@, k1@, k2@, k3@) is Some),
        r matches Some(v) ==> v@ == json_str_field3(body@, k1@, k2@, k3@)->0,
{
    serde_json::from_str::<serde_json::Value>(body).ok().and_then(
        |v|
            v.get(k1).and_then(|m| m.get(k2)).and_then(|m| m.get(k3)).and_then(|f| f.as_str()).map(
                |s| s.to_string(),
            ),
    )
}

/// Relies on serde_json (`from_str`, `Value::get`, `Value::as_i64`): the
/// integer value at top-level key `key` of `body`. Deterministic in the
/// arguments alone.
#[verifier::external_body]
pub(crate) fn get_int_field(body: &str, key: &str) -> (r: Option<i64>)
    ensures
        (r is Some) == (json_int_field(body@, key@) is Some),
        r matches Some(v) ==> v as int == json_int_field(body@, key@)->0,
{
    serde_json::from_str::<serde_json::Value>(body).ok().and_then(
        |v| v.get(key).and_then(|f| f.as_i64()),
    )
}

} // verus!
