//! Character classes and small string utilities shared by the URL codec,
//! the JSON rendering and the PKCE derivation.

use vstd::prelude::*;

verus! {

/// ASCII letters and digits.
pub open spec fn is_alphanumeric_char(c: char) -> bool {
    ('a' <= c && c <= 'z') || ('A' <= c && c <= 'Z') || ('0' <= c && c <= '9')
}

/// Characters of the base64url alphabet, which never include `=`, `+` or `/`.
pub open spec fn is_base64url_char(c: char) -> bool {
    is_alphanumeric_char(c) || c == '-' || c == '_'
}

/// ASCII hexadecimal digits.
pub open spec fn is_hex_digit(c: char) -> bool {
    ('0' <= c && c <= '9') || ('a' <= c && c <= 'f') || ('A' <= c && c <= 'F')
}

/// Numeric value of a hexadecimal digit.
pub open spec fn hex_digit_value(c: char) -> nat {
    if '0' <= c && c <= '9' {
        (c as nat - '0' as nat) as nat
    } else if 'a' <= c && c <= 'f' {
        (c as nat - 'a' as nat + 10) as nat
    } else if 'A' <= c && c <= 'F' {
        (c as nat - 'A' as nat + 10) as nat
    } else {
        0
    }
}

/// Upper-case hexadecimal digit for a value below 16.
pub open spec fn hex_digit_upper(v: nat) -> char {
    seq!['0', '1', '2', '3', '4', '5', '6', '7', '8', '9', 'A', 'B', 'C', 'D', 'E', 'F'][if v < 16 {
        v as int
    } else {
        0
    }]
}

/// Decimal digit character for a value below 10.
pub open spec fn dec_digit(v: nat) -> char {
    seq!['0', '1', '2', '3', '4', '5', '6', '7', '8', '9'][if v < 10 {
        v as int
    } else {
        0
    }]
}

/// Decimal rendering of a natural number, most significant digit first.
pub open spec fn dec_digits_of(n: nat) -> Seq<char>
    decreases n,
{
    if n < 10 {
        seq![dec_digit(n)]
    } else {
        dec_digits_of(n / 10) + seq![dec_digit(n % 10)]
    }
}

pub proof fn lemma_dec_digits_are_digits(n: nat)
    ensures
        forall|i: int|
            0 <= i < dec_digits_of(n).len() ==> '0' <= #[trigger] dec_digits_of(n)[i] <= '9',
    decreases n,
{
    if n < 10 {
        assert('0' <= dec_digit(n) <= '9');
    } else {
        lemma_dec_digits_are_digits(n / 10);
        assert('0' <= dec_digit(n % 10) <= '9');
        assert forall|i: int|
            0 <= i < dec_digits_of(n).len() implies '0' <= #[trigger] dec_digits_of(n)[i]
            <= '9' by {
            if i < dec_digits_of(n / 10).len() {
                assert(dec_digits_of(n)[i] == dec_digits_of(n / 10)[i]);
            } else {
                assert(dec_digits_of(n)[i] == dec_digit(n % 10));
            }
        }
    }
}

/// `s` with every trailing `/` removed.
pub open spec fn trim_slashes(s: Seq<char>) -> Seq<char>
    decreases s.len(),
{
    if s.len() > 0 && s.last() == '/' {
        trim_slashes(s.drop_last())
    } else {
        s
    }
}

/// View of a list of string pairs as a list of character-sequence pairs.
pub open spec fn pairs_view(v: Seq<(String, String)>) -> Seq<(Seq<char>, Seq<char>)> {
    Seq::new(v.len(), |i: int| (v[i].0@, v[i].1@))
}

/// Relies on `String::push`: appends one character at the end of the string.
#[verifier::external_body]
pub fn push_char(s: &mut String, c: char)
    ensures
        final(s)@ == old(s)@.push(c),
{
    s.push(c);
}

pub fn hex_upper_char(v: u8) -> (c: char)
    requires
        v < 16,
    ensures
        c == hex_digit_upper(v as nat),
{
    let table = ['0', '1', '2', '3', '4', '5', '6', '7', '8', '9', 'A', 'B', 'C', 'D', 'E', 'F'];
    table[v as usize]
}

pub fn dec_digit_char(v: u8) -> (c: char)
    requires
        v < 10,
    ensures
        c == dec_digit(v as nat),
{
    let table = ['0', '1', '2', '3', '4', '5', '6', '7', '8', '9'];
    table[v as usize]
}

pub fn hex_value(c: char) -> (v: u8)
    requires
        is_hex_digit(c),
    ensures
        v == hex_digit_value(c),
        v < 16,
{
    if '0' <= c && c <= '9' {
        (c as u32 - '0' as u32) as u8
    } else if 'a' <= c && c <= 'f' {
        (c as u32 - 'a' as u32 + 10) as u8
    } else {
        (c as u32 - 'A' as u32 + 10) as u8
    }
}

pub fn is_hex_digit_char(c: char) -> (r: bool)
    ensures
        r == is_hex_digit(c),
{
    ('0' <= c && c <= '9') || ('a' <= c && c <= 'f') || ('A' <= c && c <= 'F')
}

/// Appends the decimal rendering of `n` to `out`.
pub fn append_decimal(out: &mut String, n: u64)
    ensures
        final(out)@ == old(out)@ + dec_digits_of(n as nat),
{
    let mut digits: Vec<char> = Vec::new();
    let mut m: u64 = n;
    loop
        invariant_except_break
            dec_digits_of(n as nat) == dec_digits_of(m as nat) + digits@.reverse(),
        ensures
            dec_digits_of(n as nat) == digits@.reverse(),
        decreases m,
    {
        let ghost pre = digits@;
        let ghost m0 = m as nat;
        let d: u8 = (m % 10) as u8;
        digits.push(dec_digit_char(d));
        proof {
            assert(digits@.reverse() =~= seq![dec_digit(d as nat)] + pre.reverse());
        }
        if m < 10 {
            break ;
        }
        m = m / 10;
        proof {
            assert(m0 == m as nat * 10 + d as nat);
            assert(dec_digits_of(m0) == dec_digits_of(m as nat) + seq![dec_digit(d as nat)]) by {
                assert(m0 / 10 == m as nat) by (nonlinear_arith)
                    requires
                        m0 == m as nat * 10 + d as nat,
                        d < 10,
                ;
                assert(m0 % 10 == d as nat) by (nonlinear_arith)
                    requires
                        m0 == m as nat * 10 + d as nat,
                        d < 10,
                ;
            }
            assert(dec_digits_of(m as nat) + seq![dec_digit(d as nat)] + pre.reverse()
                =~= dec_digits_of(m as nat) + (seq![dec_digit(d as nat)] + pre.reverse()));
        }
    }
    let mut i: usize = digits.len();
    while i > 0
        invariant
            i <= digits@.len(),
            out@ == old(out)@ + digits@.skip(i as int).reverse(),
        decreases i,
    {
        i = i - 1;
        let ghost pre = out@;
        push_char(out, digits[i]);
        proof {
            assert(digits@.skip(i as int).reverse() =~= digits@.skip(i as int + 1).reverse().push(
                digits@[i as int],
            ));
        }
    }
    proof {
        assert(digits@.skip(0) == digits@);
    }
}

/// Decimal rendering of `n` as a fresh string.
pub fn decimal_string(n: u64) -> (r: String)
    ensures
        r@ == dec_digits_of(n as nat),
{
    let mut out = String::new();
    append_decimal(&mut out, n);
    out
}

/// `s` with every trailing `/` removed.
pub fn trim_trailing_slashes(s: &str) -> (r: String)
    ensures
        r@ == trim_slashes(s@),
{
    let n = s.unicode_len();
    let mut end: usize = n;
    proof {
        assert(s@.take(n as int) == s@);
    }
    while end > 0 && s.get_char(end - 1) == '/'
        invariant
            end <= n,
            n == s@.len(),
            trim_slashes(s@) == trim_slashes(s@.take(end as int)),
        decreases end,
    {
        proof {
            assert(s@.take(end as int).last() == s@[end - 1]);
            assert(s@.take(end as int).drop_last() =~= s@.take(end - 1));
        }
        end = end - 1;
    }
    proof {
        if end > 0 {
            assert(s@.take(end as int).last() == s@[end - 1]);
        }
        assert(trim_slashes(s@.take(end as int)) == s@.take(end as int));
    }
    let r = s.substring_char(0, end);
    proof {
        assert(r@ == s@.subrange(0, end as int));
        assert(s@.subrange(0, end as int) == s@.take(end as int));
    }
    r.to_owned()
}

/// Whether `s` ends with `suffix`.
pub open spec fn ends_with(s: Seq<char>, suffix: Seq<char>) -> bool {
    suffix.len() <= s.len() && s.skip(s.len() - suffix.len()) == suffix
}

/// Whether `s` ends with `suffix`.
pub fn str_ends_with(s: &str, suffix: &str) -> (r: bool)
    ensures
        r == ends_with(s@, suffix@),
{
    let n = s.unicode_len();
    let m = suffix.unicode_len();
    if m > n {
        return false;
    }
    let tail = s.substring_char(n - m, n);
    proof {
        assert(s@.subrange(n - m, n as int) == s@.skip(n - m));
    }
    str_eq(tail, suffix)
}

/// The ASCII-lowercase counterpart of a character.
pub open spec fn lower_char(c: char) -> char {
    if 'A' <= c && c <= 'Z' {
        (((c as int) + 32) as u8) as char
    } else {
        c
    }
}

/// `s` with every ASCII upper-case letter lowered.
pub open spec fn ascii_lower(s: Seq<char>) -> Seq<char> {
    s.map_values(|c: char| lower_char(c))
}

/// `s` with every ASCII upper-case letter lowered.
pub fn to_ascii_lower(s: &str) -> (r: String)
    ensures
        r@ == ascii_lower(s@),
{
    let n = s.unicode_len();
    let mut out = String::new();
    let mut i: usize = 0;
    while i < n
        invariant
            i <= n,
            n == s@.len(),
            out@ =~= ascii_lower(s@.take(i as int)),
        decreases n - i,
    {
        let c = s.get_char(i);
        let low = if 'A' <= c && c <= 'Z' {
            (((c as u32) + 32) as u8) as char
        } else {
            c
        };
        push_char(&mut out, low);
        i = i + 1;
        proof {
            assert(ascii_lower(s@.take(i as int)) =~= ascii_lower(s@.take(i - 1)).push(
                lower_char(s@[i - 1]),
            ));
        }
    }
    proof {
        assert(s@.take(n as int) == s@);
    }
    out
}

/// ASCII whitespace.
pub open spec fn is_ascii_space(c: char) -> bool {
    c == ' ' || c == '\t' || c == '\n' || c == '\r'
}

/// `s` with leading and trailing ASCII whitespace removed.
pub open spec fn trim_spaces(s: Seq<char>) -> Seq<char>
    decreases s.len(),
{
    if s.len() > 0 && is_ascii_space(s.first()) {
        trim_spaces(s.drop_first())
    } else if s.len() > 0 && is_ascii_space(s.last()) {
        trim_spaces(s.drop_last())
    } else {
        s
    }
}

/// `s` with leading and trailing ASCII whitespace removed.
pub fn trim_str(s: &str) -> (r: String)
    ensures
        r@ == trim_spaces(s@),
{
    let n = s.unicode_len();
    let mut start: usize = 0;
    let mut end: usize = n;
    proof {
        assert(s@.subrange(0, n as int) == s@);
    }
    loop
        invariant
            start <= end <= n,
            n == s@.len(),
            trim_spaces(s@) == trim_spaces(s@.subrange(start as int, end as int)),
        ensures
            start <= end <= n,
            trim_spaces(s@) == trim_spaces(s@.subrange(start as int, end as int)),
            start < end ==> !is_ascii_space(s@[start as int]),
        decreases end - start,
    {
        if start >= end {
            break ;
        }
        let c = s.get_char(start);
        if !(c == ' ' || c == '\t' || c == '\n' || c == '\r') {
            break ;
        }
        proof {
            let sub = s@.subrange(start as int, end as int);
            assert(sub.first() == s@[start as int]);
            assert(sub.drop_first() =~= s@.subrange(start as int + 1, end as int));
        }
        start = start + 1;
    }
    loop
        invariant
            start <= end <= n,
            n == s@.len(),
            trim_spaces(s@) == trim_spaces(s@.subrange(start as int, end as int)),
            start < end ==> !is_ascii_space(s@[start as int]),
        ensures
            start <= end <= n,
            trim_spaces(s@) == trim_spaces(s@.subrange(start as int, end as int)),
            start < end ==> !is_ascii_space(s@[start as int]),
            start < end ==> !is_ascii_space(s@[end - 1]),
        decreases end - start,
    {
        if end <= start {
            break ;
        }
        let c = s.get_char(end - 1);
        if !(c == ' ' || c == '\t' || c == '\n' || c == '\r') {
            break ;
        }
        proof {
            let sub = s@.subrange(start as int, end as int);
            assert(sub.first() == s@[start as int]);
            assert(sub.last() == s@[end - 1]);
            assert(sub.drop_last() =~= s@.subrange(start as int, end as int - 1));
        }
        end = end - 1;
    }
    proof {
        let sub = s@.subrange(start as int, end as int);
        if sub.len() > 0 {
            assert(sub.first() == s@[start as int]);
            assert(sub.last() == s@[end - 1]);
        }
        assert(trim_spaces(sub) == sub);
    }
    let r = s.substring_char(start, end);
    r.to_owned()
}

/// True exactly when the views of the two strings are equal.
pub fn str_eq(a: &str, b: &str) -> (r: bool)
    ensures
        r == (a@ == b@),
{
    let na = a.unicode_len();
    let nb = b.unicode_len();
    if na != nb {
        proof {
            assert(a@ != b@);
        }
        return false;
    }
    let mut i: usize = 0;
    while i < na
        invariant
            i <= na,
            na == a@.len(),
            na == b@.len(),
            forall|j: int| 0 <= j < i ==> a@[j] == b@[j],
        decreases na - i,
    {
        if a.get_char(i) != b.get_char(i) {
            return false;
        }
        i = i + 1;
    }
    proof {
        assert(a@ =~= b@);
    }
    true
}

} // verus!
