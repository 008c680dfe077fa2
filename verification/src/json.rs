//! Building blocks for the emitted JSON text: decimal rendering of counts,
//! JSON string escaping, and zero-padded calendar fields.  Everything here is
//! stated exactly, character by character, so the contract of an emitted line
//! pins the whole line down.

use vstd::prelude::*;
use vstd::std_specs::iter::IteratorSpec;
use vstd::string::StringExecFns;

verus! {

broadcast use vstd::string::group_string_axioms;

/// Relies on `String::push`: appends one character to the end of the string.
#[verifier::external_body]
pub fn push_char(out: &mut String, c: char)
    ensures
        final(out)@ == old(out)@.push(c),
{
    out.push(c);
}

/// The decimal digit character for `d` (0 to 9).
pub open spec fn dec_digit(d: int) -> char {
    ((48 + d) as u8) as char
}

/// The decimal digits of `n`, most significant first, no leading zeros
/// (except for `n == 0`, which is the single digit `0`).
pub open spec fn dec_chars(n: nat) -> Seq<char>
    decreases n,
{
    if n < 10 {
        seq![dec_digit(n as int)]
    } else {
        dec_chars(n / 10).push(dec_digit((n % 10) as int))
    }
}

/// Appends the decimal rendering of `n`.
pub fn push_dec(out: &mut String, n: u64)
    ensures
        final(out)@ == old(out)@ + dec_chars(n as nat),
    decreases n,
{
    let ghost entry = out@;
    if n >= 10 {
        push_dec(out, n / 10);
    }
    let d: u8 = (n % 10) as u8;
    push_char(out, (48 + d) as char);
    proof {
        if n >= 10 {
            assert(out@ =~= entry + dec_chars((n / 10) as nat).push(dec_digit((n % 10) as int)));
        } else {
            assert(out@ =~= entry + seq![dec_digit(n as int)]);
        }
    }
}

/// The lowercase hexadecimal digit character for `d` (0 to 15).
pub open spec fn hex_digit(d: int) -> char {
    if d < 10 {
        ((48 + d) as u8) as char
    } else {
        ((87 + d) as u8) as char
    }
}

/// What one character contributes to a JSON string literal: the quote and the
/// backslash take a backslash escape, control characters take their short
/// escape where JSON has one and a `\u00xx` escape otherwise, and every other
/// character stands for itself.
pub open spec fn esc_char(c: char) -> Seq<char> {
    if c == '"' {
        seq!['\\', '"']
    } else if c == '\\' {
        seq!['\\', '\\']
    } else if c == '\u{08}' {
        seq!['\\', 'b']
    } else if c == '\t' {
        seq!['\\', 't']
    } else if c == '\n' {
        seq!['\\', 'n']
    } else if c == '\u{0c}' {
        seq!['\\', 'f']
    } else if c == '\r' {
        seq!['\\', 'r']
    } else if (c as int) < 32 {
        seq!['\\', 'u', '0', '0', hex_digit(c as int / 16), hex_digit(c as int % 16)]
    } else {
        seq![c]
    }
}

/// The body of the JSON string literal that denotes `s`: each character
/// escaped as `esc_char` says, in order.
pub open spec fn esc_chars(s: Seq<char>) -> Seq<char>
    decreases s.len(),
{
    if s.len() == 0 {
        Seq::empty()
    } else {
        esc_chars(s.drop_last()) + esc_char(s.last())
    }
}

/// The JSON string literal that denotes `s`, quotes included.
pub open spec fn json_quoted(s: Seq<char>) -> Seq<char> {
    seq!['"'] + esc_chars(s) + seq!['"']
}

fn push_esc_char(out: &mut String, c: char)
    ensures
        final(out)@ == old(out)@ + esc_char(c),
{
    let ghost entry = out@;
    if c == '"' {
        out.append("\\\"");
        proof {
            reveal_strlit("\\\"");
            assert(out@ =~= entry + esc_char(c));
        }
    } else if c == '\\' {
        out.append("\\\\");
        proof {
            reveal_strlit("\\\\");
            assert(out@ =~= entry + esc_char(c));
        }
    } else if c == '\u{08}' {
        out.append("\\b");
        proof {
            reveal_strlit("\\b");
            assert(out@ =~= entry + esc_char(c));
        }
    } else if c == '\t' {
        out.append("\\t");
        proof {
            reveal_strlit("\\t");
            assert(out@ =~= entry + esc_char(c));
        }
    } else if c == '\n' {
        out.append("\\n");
        proof {
            reveal_strlit("\\n");
            assert(out@ =~= entry + esc_char(c));
        }
    } else if c == '\u{0c}' {
        out.append("\\f");
        proof {
            reveal_strlit("\\f");
            assert(out@ =~= entry + esc_char(c));
        }
    } else if c == '\r' {
        out.append("\\r");
        proof {
            reveal_strlit("\\r");
            assert(out@ =~= entry + esc_char(c));
        }
    } else if (c as u32) < 32 {
        out.append("\\u00");
        let hi: u8 = (c as u32 / 16) as u8;
        let lo: u8 = (c as u32 % 16) as u8;
        let hc: char = if hi < 10 {
            (48 + hi) as char
        } else {
            (87 + hi) as char
        };
        let lc: char = if lo < 10 {
            (48 + lo) as char
        } else {
            (87 + lo) as char
        };
        push_char(out, hc);
        push_char(out, lc);
        proof {
            reveal_strlit("\\u00");
            assert(hc == hex_digit(c as int / 16));
            assert(lc == hex_digit(c as int % 16));
            assert(out@ =~= entry + esc_char(c));
        }
    } else {
        push_char(out, c);
        proof {
            assert(out@ =~= entry + esc_char(c));
        }
    }
}

/// Appends the escaped form of `s` (the body of its JSON string literal).
pub fn push_escaped(out: &mut String, s: &str)
    ensures
        final(out)@ == old(out)@ + esc_chars(s@),
{
    let ghost entry = out@;
    let mut it = s.chars();
    let ghost mut i: int = 0;
    loop
        invariant
            0 <= i <= s@.len(),
            it.remaining() =~= s@.skip(i),
            out@ == entry + esc_chars(s@.take(i)),
        ensures
            out@ == entry + esc_chars(s@),
        decreases s@.len() - i,
    {
        let next = it.next();
        match next {
            None => {
                proof {
                    assert(s@.skip(i).len() == 0);
                    assert(i == s@.len());
                    assert(s@.take(i) =~= s@);
                }
                break ;
            },
            Some(c) => {
                proof {
                    assert(s@.skip(i).len() > 0);
                    assert(c == s@.skip(i)[0]);
                    assert(c == s@[i]);
                }
                push_esc_char(out, c);
                proof {
                    assert(s@.take(i + 1).drop_last() =~= s@.take(i));
                    assert(s@.take(i + 1).last() == s@[i]);
                    assert(esc_chars(s@.take(i + 1)) == esc_chars(s@.take(i)) + esc_char(c));
                    assert(out@ =~= entry + esc_chars(s@.take(i + 1)));
                    assert(it.remaining() =~= s@.skip(i + 1));
                    i = i + 1;
                }
            },
        }
    }
}

/// Appends the JSON string literal that denotes `s`, quotes included.
pub fn push_json_quoted(out: &mut String, s: &str)
    ensures
        final(out)@ == old(out)@ + json_quoted(s@),
{
    let ghost entry = out@;
    out.append("\"");
    push_escaped(out, s);
    out.append("\"");
    proof {
        reveal_strlit("\"");
        assert(out@ =~= entry + json_quoted(s@));
    }
}

/// `n` (0 to 99) as exactly two decimal digits.
pub open spec fn pad2(n: int) -> Seq<char> {
    seq![dec_digit(n / 10), dec_digit(n % 10)]
}

/// `n` as at least four decimal digits, zero-padded on the left.
pub open spec fn pad4(n: int) -> Seq<char> {
    if n < 10000 {
        seq![
            dec_digit(n / 1000),
            dec_digit((n / 100) % 10),
            dec_digit((n / 10) % 10),
            dec_digit(n % 10),
        ]
    } else {
        dec_chars(n as nat)
    }
}

/// Appends `n` as exactly two decimal digits.
pub fn push_pad2(out: &mut String, n: u8)
    requires
        n < 100,
    ensures
        final(out)@ == old(out)@ + pad2(n as int),
{
    let ghost entry = out@;
    push_char(out, (48 + n / 10) as char);
    push_char(out, (48 + n % 10) as char);
    proof {
        assert(out@ =~= entry + pad2(n as int));
    }
}

/// Appends `n` as at least four decimal digits, zero-padded on the left.
pub fn push_pad4(out: &mut String, n: u16)
    ensures
        final(out)@ == old(out)@ + pad4(n as int),
{
    let ghost entry = out@;
    if n < 10000 {
        push_char(out, (48 + (n / 1000) as u8) as char);
        push_char(out, (48 + ((n / 100) % 10) as u8) as char);
        push_char(out, (48 + ((n / 10) % 10) as u8) as char);
        push_char(out, (48 + (n % 10) as u8) as char);
        proof {
            assert(out@ =~= entry + pad4(n as int));
        }
    } else {
        push_dec(out, n as u64);
    }
}

} // verus!
