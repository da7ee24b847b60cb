//! Encoding and decoding of URL components.
//!
//! Decoding follows the form-urlencoded convention used by OAuth redirect
//! URLs: `+` stands for a space and `%XY` for the character with code
//! `16 * X + Y`. Encoding maps every character outside the unreserved set to
//! `%XY` with upper-case hexadecimal digits; characters beyond ASCII are
//! passed through unchanged (every string this library encodes is ASCII).

use vstd::prelude::*;

use crate::text::{
    hex_digit_upper, hex_digit_value, hex_upper_char, hex_value, is_alphanumeric_char,
    is_hex_digit, is_hex_digit_char, push_char,
};

verus! {

/// Characters that percent-encoding leaves as they are.
pub open spec fn is_unreserved(c: char) -> bool {
    is_alphanumeric_char(c) || c == '-' || c == '_' || c == '.' || c == '~'
}

/// Form-urlencoded decoding: `+` becomes a space, `%XY` (two hexadecimal
/// digits) becomes the character with code `16 * X + Y`, everything else is
/// kept, including a `%` that is not followed by two hexadecimal digits.
pub open spec fn form_decode(s: Seq<char>) -> Seq<char>
    decreases s.len(),
{
    if s.len() == 0 {
        Seq::empty()
    } else if s[0] == '+' {
        seq![' '] + form_decode(s.skip(1))
    } else if s[0] == '%' && s.len() >= 3 && is_hex_digit(s[1]) && is_hex_digit(s[2]) {
        seq![((16 * hex_digit_value(s[1]) + hex_digit_value(s[2])) as u8) as char] + form_decode(
            s.skip(3),
        )
    } else {
        seq![s[0]] + form_decode(s.skip(1))
    }
}

/// Percent-encoding of an ASCII string: unreserved characters are kept,
/// every other ASCII character becomes `%XY` with upper-case hexadecimal
/// digits. Characters beyond ASCII are passed through unchanged.
pub open spec fn percent_encode_spec(s: Seq<char>) -> Seq<char>
    decreases s.len(),
{
    if s.len() == 0 {
        Seq::empty()
    } else {
        let c = s[0];
        let rest = percent_encode_spec(s.skip(1));
        if is_unreserved(c) {
            seq![c] + rest
        } else if (c as nat) < 128 {
            seq!['%', hex_digit_upper(c as nat / 16), hex_digit_upper(c as nat % 16)] + rest
        } else {
            seq![c] + rest
        }
    }
}

pub fn form_decode_str(s: &str) -> (r: String)
    ensures
        r@ == form_decode(s@),
{
    let n = s.unicode_len();
    let mut out = String::new();
    let mut i: usize = 0;
    proof {
        assert(s@.skip(0) == s@);
    }
    while i < n
        invariant
            i <= n,
            n == s@.len(),
            form_decode(s@) == out@ + form_decode(s@.skip(i as int)),
        decreases n - i,
    {
        let ghost i0 = i as int;
        let ghost pre = out@;
        let c = s.get_char(i);
        proof {
            assert(s@.skip(i0)[0] == s@[i0]);
        }
        if c == '+' {
            push_char(&mut out, ' ');
            i = i + 1;
            proof {
                assert(s@.skip(i0).skip(1) =~= s@.skip(i0 + 1));
                assert(pre + (seq![' '] + form_decode(s@.skip(i0 + 1))) =~= out@ + form_decode(
                    s@.skip(i0 + 1),
                ));
            }
        } else if c == '%' && n - i > 2 && is_hex_digit_char(s.get_char(i + 1)) && is_hex_digit_char(
            s.get_char(i + 2),
        ) {
            proof {
                assert(s@.skip(i0)[1] == s@[i0 + 1]);
                assert(s@.skip(i0)[2] == s@[i0 + 2]);
                assert(s@.skip(i0).len() >= 3);
            }
            let hi = hex_value(s.get_char(i + 1));
            let lo = hex_value(s.get_char(i + 2));
            let b: u8 = 16 * hi + lo;
            push_char(&mut out, b as char);
            i = i + 3;
            proof {
                assert(s@.skip(i0).skip(3) =~= s@.skip(i0 + 3));
                assert(pre + (seq![b as char] + form_decode(s@.skip(i0 + 3))) =~= out@
                    + form_decode(s@.skip(i0 + 3)));
            }
        } else {
            proof {
                if c == '%' && s@.skip(i0).len() >= 3 {
                    assert(s@.skip(i0)[1] == s@[i0 + 1]);
                    assert(s@.skip(i0)[2] == s@[i0 + 2]);
                }
            }
            push_char(&mut out, c);
            i = i + 1;
            proof {
                assert(s@.skip(i0).skip(1) =~= s@.skip(i0 + 1));
                assert(pre + (seq![c] + form_decode(s@.skip(i0 + 1))) =~= out@ + form_decode(
                    s@.skip(i0 + 1),
                ));
            }
        }
    }
    proof {
        assert(s@.skip(n as int) =~= Seq::<char>::empty());
        assert(out@ =~= form_decode(s@));
    }
    out
}

pub fn percent_encode(s: &str) -> (r: String)
    ensures
        r@ == percent_encode_spec(s@),
{
    let n = s.unicode_len();
    let mut out = String::new();
    let mut i: usize = 0;
    proof {
        assert(s@.skip(0) == s@);
    }
    while i < n
        invariant
            i <= n,
            n == s@.len(),
            percent_encode_spec(s@) == out@ + percent_encode_spec(s@.skip(i as int)),
        decreases n - i,
    {
        let ghost i0 = i as int;
        let ghost pre = out@;
        let c = s.get_char(i);
        proof {
            assert(s@.skip(i0)[0] == s@[i0]);
            assert(s@.skip(i0).skip(1) =~= s@.skip(i0 + 1));
        }
        let unreserved = ('a' <= c && c <= 'z') || ('A' <= c && c <= 'Z') || ('0' <= c && c <= '9')
            || c == '-' || c == '_' || c == '.' || c == '~';
        if unreserved {
            push_char(&mut out, c);
            proof {
                assert(pre + (seq![c] + percent_encode_spec(s@.skip(i0 + 1))) =~= out@
                    + percent_encode_spec(s@.skip(i0 + 1)));
            }
        } else if (c as u32) < 128 {
            let v: u8 = (c as u32) as u8;
            push_char(&mut out, '%');
            push_char(&mut out, hex_upper_char(v / 16));
            push_char(&mut out, hex_upper_char(v % 16));
            proof {
                assert(v as nat == c as nat);
                assert(pre + (seq![
                    '%',
                    hex_digit_upper(c as nat / 16),
                    hex_digit_upper(c as nat % 16),
                ] + percent_encode_spec(s@.skip(i0 + 1))) =~= out@ + percent_encode_spec(
                    s@.skip(i0 + 1),
                ));
            }
        } else {
            push_char(&mut out, c);
            proof {
                assert(pre + (seq![c] + percent_encode_spec(s@.skip(i0 + 1))) =~= out@
                    + percent_encode_spec(s@.skip(i0 + 1)));
            }
        }
        i = i + 1;
    }
    proof {
        assert(s@.skip(n as int) =~= Seq::<char>::empty());
        assert(out@ =~= percent_encode_spec(s@));
    }
    out
}

} // verus!
