//! Verified text building blocks for the JSON wire format: decimal
//! rendering of ids and error codes, JSON string escaping, and joining
//! of comma-separated parts.

use vstd::prelude::*;
use vstd::string::StringExecFns;

verus! {

broadcast use vstd::string::group_string_axioms;

/// The decimal digit character for `d`, which must be below ten.
pub open spec fn digit_char(d: u64) -> char {
    if d == 0 {
        '0'
    } else if d == 1 {
        '1'
    } else if d == 2 {
        '2'
    } else if d == 3 {
        '3'
    } else if d == 4 {
        '4'
    } else if d == 5 {
        '5'
    } else if d == 6 {
        '6'
    } else if d == 7 {
        '7'
    } else if d == 8 {
        '8'
    } else {
        '9'
    }
}

/// The usual decimal rendering of `n`, without sign or padding.
pub open spec fn dec_u64(n: u64) -> Seq<char>
    decreases n,
{
    if n < 10 {
        seq![digit_char(n)]
    } else {
        dec_u64(n / 10) + seq![digit_char(n % 10)]
    }
}

fn digit_str(d: u64) -> (r: &'static str)
    requires
        d < 10,
    ensures
        r@ == seq![digit_char(d)],
{
    proof {
        reveal_strlit("0");
        reveal_strlit("1");
        reveal_strlit("2");
        reveal_strlit("3");
        reveal_strlit("4");
        reveal_strlit("5");
        reveal_strlit("6");
        reveal_strlit("7");
        reveal_strlit("8");
        reveal_strlit("9");
    }
    let r = if d == 0 {
        "0"
    } else if d == 1 {
        "1"
    } else if d == 2 {
        "2"
    } else if d == 3 {
        "3"
    } else if d == 4 {
        "4"
    } else if d == 5 {
        "5"
    } else if d == 6 {
        "6"
    } else if d == 7 {
        "7"
    } else if d == 8 {
        "8"
    } else {
        "9"
    };
    proof {
        assert(r@ =~= seq![digit_char(d)]);
    }
    r
}

/// The decimal rendering of `n` with a leading minus sign when negative.
pub open spec fn dec_i64(n: i64) -> Seq<char> {
    if n < 0 {
        seq!['-'] + dec_u64((-(n as int)) as u64)
    } else {
        dec_u64(n as u64)
    }
}

/// Appends the decimal rendering of `n` to `out`.
pub fn append_dec_i64(out: &mut String, n: i64)
    ensures
        final(out)@ == old(out)@ + dec_i64(n),
{
    if n < 0 {
        proof {
            reveal_strlit("-");
        }
        out.append("-");
        let m: u64 = (-(n as i128)) as u64;
        append_dec_u64(out, m);
        proof {
            assert(final(out)@ =~= old(out)@ + dec_i64(n));
        }
    } else {
        append_dec_u64(out, n as u64);
    }
}

/// Appends the decimal rendering of `n` to `out`.
pub fn append_dec_u64(out: &mut String, n: u64)
    ensures
        final(out)@ == old(out)@ + dec_u64(n),
    decreases n,
{
    if n >= 10 {
        append_dec_u64(out, n / 10);
    }
    out.append(digit_str(n % 10));
    proof {
        assert(final(out)@ =~= old(out)@ + dec_u64(n));
    }
}

/// The lower-case hexadecimal digit character for `d`, which must be
/// below sixteen.
pub open spec fn hex_char(d: u32) -> char {
    if d < 10 {
        digit_char(d as u64)
    } else if d == 10 {
        'a'
    } else if d == 11 {
        'b'
    } else if d == 12 {
        'c'
    } else if d == 13 {
        'd'
    } else if d == 14 {
        'e'
    } else {
        'f'
    }
}

/// How one character is written inside a JSON string: quote and backslash
/// get a backslash, the named control characters their short escapes, the
/// other control characters a `\u00..` escape, and everything else stands
/// as it is.
pub open spec fn escape_char(c: char) -> Seq<char> {
    if c == '"' {
        seq!['\\', '"']
    } else if c == '\\' {
        seq!['\\', '\\']
    } else if c == '\u{08}' {
        seq!['\\', 'b']
    } else if c == '\u{09}' {
        seq!['\\', 't']
    } else if c == '\u{0A}' {
        seq!['\\', 'n']
    } else if c == '\u{0C}' {
        seq!['\\', 'f']
    } else if c == '\u{0D}' {
        seq!['\\', 'r']
    } else if (c as u32) < 32 {
        seq!['\\', 'u', '0', '0', hex_char((c as u32) / 16), hex_char((c as u32) % 16)]
    } else {
        seq![c]
    }
}

/// The body of a JSON string holding the characters of `s`.
pub open spec fn escape_text(s: Seq<char>) -> Seq<char>
    decreases s.len(),
{
    if s.len() == 0 {
        Seq::empty()
    } else {
        escape_text(s.drop_last()) + escape_char(s.last())
    }
}

fn hex_str(d: u32) -> (r: &'static str)
    requires
        d < 16,
    ensures
        r@ == seq![hex_char(d)],
{
    proof {
        reveal_strlit("a");
        reveal_strlit("b");
        reveal_strlit("c");
        reveal_strlit("d");
        reveal_strlit("e");
        reveal_strlit("f");
    }
    let r = if d < 10 {
        digit_str(d as u64)
    } else if d == 10 {
        "a"
    } else if d == 11 {
        "b"
    } else if d == 12 {
        "c"
    } else if d == 13 {
        "d"
    } else if d == 14 {
        "e"
    } else {
        "f"
    };
    proof {
        assert(r@ =~= seq![hex_char(d)]);
    }
    r
}

/// Appends the characters of `s` to `out` as they stand inside a JSON
/// string, escaping what the format requires.
pub fn append_escaped(out: &mut String, s: &str)
    ensures
        final(out)@ == old(out)@ + escape_text(s@),
{
    let n = s.unicode_len();
    let mut i: usize = 0;
    while i < n
        invariant
            n == s@.len(),
            i <= n,
            out@ == old(out)@ + escape_text(s@.subrange(0, i as int)),
        decreases n - i,
    {
        proof {
            reveal_strlit("\\\"");
            reveal_strlit("\\\\");
            reveal_strlit("\\b");
            reveal_strlit("\\t");
            reveal_strlit("\\n");
            reveal_strlit("\\f");
            reveal_strlit("\\r");
            reveal_strlit("\\u00");
        }
        let ghost pre = s@.subrange(0, i as int);
        let c = s.get_char(i);
        if c == '"' {
            out.append("\\\"");
            proof {
                assert("\\\""@ =~= escape_char(c));
            }
            assert(out@ =~= old(out)@ + escape_text(pre) + escape_char(c));
        } else if c == '\\' {
            out.append("\\\\");
            proof {
                assert("\\\\"@ =~= escape_char(c));
            }
            assert(out@ =~= old(out)@ + escape_text(pre) + escape_char(c));
        } else if c == '\u{08}' {
            out.append("\\b");
            proof {
                assert("\\b"@ =~= escape_char(c));
            }
            assert(out@ =~= old(out)@ + escape_text(pre) + escape_char(c));
        } else if c == '\u{09}' {
            out.append("\\t");
            proof {
                assert("\\t"@ =~= escape_char(c));
            }
            assert(out@ =~= old(out)@ + escape_text(pre) + escape_char(c));
        } else if c == '\u{0A}' {
            out.append("\\n");
            proof {
                assert("\\n"@ =~= escape_char(c));
            }
            assert(out@ =~= old(out)@ + escape_text(pre) + escape_char(c));
        } else if c == '\u{0C}' {
            out.append("\\f");
            proof {
                assert("\\f"@ =~= escape_char(c));
            }
            assert(out@ =~= old(out)@ + escape_text(pre) + escape_char(c));
        } else if c == '\u{0D}' {
            out.append("\\r");
            proof {
                assert("\\r"@ =~= escape_char(c));
            }
            assert(out@ =~= old(out)@ + escape_text(pre) + escape_char(c));
        } else if (c as u32) < 32 {
            out.append("\\u00");
            let code = c as u32;
            out.append(hex_str(code / 16));
            out.append(hex_str(code % 16));
            proof {
                assert("\\u00"@ + seq![hex_char(code / 16)] + seq![hex_char(code % 16)]
                    =~= escape_char(c));
            }
            assert(out@ =~= old(out)@ + escape_text(pre) + escape_char(c));
        } else {
            out.append(s.substring_char(i, i + 1));
            proof {
                assert(s@.subrange(i as int, i + 1) =~= seq![s@[i as int]]);
                assert(seq![s@[i as int]] =~= escape_char(c));
            }
            assert(out@ =~= old(out)@ + escape_text(pre) + escape_char(c));
        }
        proof {
            let cur = s@.subrange(0, i + 1);
            assert(cur.drop_last() =~= pre);
            assert(cur.last() == s@[i as int]);
            assert(out@ =~= old(out)@ + escape_text(cur));
        }
        i = i + 1;
    }
    proof {
        assert(s@.subrange(0, n as int) =~= s@);
    }
}

/// The parts written one after the other, with `sep` between each two
/// neighbours and nothing around the whole.
pub open spec fn join_texts(parts: Seq<Seq<char>>, sep: Seq<char>) -> Seq<char>
    decreases parts.len(),
{
    if parts.len() == 0 {
        Seq::empty()
    } else if parts.len() == 1 {
        parts[0]
    } else {
        join_texts(parts.drop_last(), sep) + sep + parts.last()
    }
}

} // verus!
