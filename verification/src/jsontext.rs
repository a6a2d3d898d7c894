//! JSON string escaping for values embedded in the rendered stack template.

use vstd::prelude::*;
use vstd::string::StrSliceExecFns;
use vstd::string::StringExecFns;

verus! {

/// One lowercase hex digit.
pub open spec fn hex_digit(d: int) -> char {
    if d == 0 { '0' }
    else if d == 1 { '1' }
    else if d == 2 { '2' }
    else if d == 3 { '3' }
    else if d == 4 { '4' }
    else if d == 5 { '5' }
    else if d == 6 { '6' }
    else if d == 7 { '7' }
    else if d == 8 { '8' }
    else if d == 9 { '9' }
    else if d == 10 { 'a' }
    else if d == 11 { 'b' }
    else if d == 12 { 'c' }
    else if d == 13 { 'd' }
    else if d == 14 { 'e' }
    else { 'f' }
}

/// How one character appears inside a JSON string literal.
///
/// The quote, the backslash and the three common control characters get the
/// usual two-character escapes; every other control character below U+0020
/// gets its `\u00XX` form; everything else stands for itself.
pub open spec fn esc_char(c: char) -> Seq<char> {
    if c == '"' {
        seq!['\\', '"']
    } else if c == '\\' {
        seq!['\\', '\\']
    } else if c == '\n' {
        seq!['\\', 'n']
    } else if c == '\r' {
        seq!['\\', 'r']
    } else if c == '\t' {
        seq!['\\', 't']
    } else if (c as u32) < 32 {
        seq!['\\', 'u', '0', '0', hex_digit((c as u32) as int / 16), hex_digit(
            (c as u32) as int % 16,
        )]
    } else {
        seq![c]
    }
}

/// A one-character string for one hex digit.
fn hex_digit_str(d: u32) -> (s: &'static str)
    requires
        d < 16,
    ensures
        s@ == seq![hex_digit(d as int)],
{
    proof {
        reveal_strlit("0");
        reveal_strlit("1");
        reveal_strlit("2");
        reveal_strlit("3");
        reveal_strlit("4");
        reveal_strlit("5");
        reveal_strlit("6");
        reveal_strlit("7");
        reveal_strlit("8");
        reveal_strlit("9");
        reveal_strlit("a");
        reveal_strlit("b");
        reveal_strlit("c");
        reveal_strlit("d");
        reveal_strlit("e");
        reveal_strlit("f");
        assert("0"@ =~= seq!['0']);
        assert("1"@ =~= seq!['1']);
        assert("2"@ =~= seq!['2']);
        assert("3"@ =~= seq!['3']);
        assert("4"@ =~= seq!['4']);
        assert("5"@ =~= seq!['5']);
        assert("6"@ =~= seq!['6']);
        assert("7"@ =~= seq!['7']);
        assert("8"@ =~= seq!['8']);
        assert("9"@ =~= seq!['9']);
        assert("a"@ =~= seq!['a']);
        assert("b"@ =~= seq!['b']);
        assert("c"@ =~= seq!['c']);
        assert("d"@ =~= seq!['d']);
        assert("e"@ =~= seq!['e']);
        assert("f"@ =~= seq!['f']);
    }
    match d {
        0u32 => "0",
        1u32 => "1",
        2u32 => "2",
        3u32 => "3",
        4u32 => "4",
        5u32 => "5",
        6u32 => "6",
        7u32 => "7",
        8u32 => "8",
        9u32 => "9",
        10u32 => "a",
        11u32 => "b",
        12u32 => "c",
        13u32 => "d",
        14u32 => "e",
        _ => "f",
    }
}

/// The escaped form of `s[i..]`.
pub open spec fn json_escape_from(s: Seq<char>, i: int) -> Seq<char>
    decreases s.len() - i,
{
    if i < 0 || i >= s.len() {
        Seq::empty()
    } else {
        esc_char(s[i]) + json_escape_from(s, i + 1)
    }
}

/// The escaped form of a whole string.
pub open spec fn json_escape(s: Seq<char>) -> Seq<char> {
    json_escape_from(s, 0)
}

/// Escapes `s` for embedding in a JSON string literal.
pub fn escape_json(s: &str) -> (r: String)
    ensures
        r@ == json_escape(s@),
{
    let n = s.unicode_len();
    let mut out = String::new();
    let mut i: usize = 0;
    while i < n
        invariant
            i <= n,
            n == s@.len(),
            out@ + json_escape_from(s@, i as int) == json_escape_from(s@, 0),
        decreases n - i,
    {
        proof {
            reveal_strlit("\\\"");
            reveal_strlit("\\\\");
            reveal_strlit("\\n");
            reveal_strlit("\\r");
            reveal_strlit("\\t");
        }
        let c = s.get_char(i);
        if c == '"' {
            assert("\\\""@ =~= esc_char('"'));
            out.append("\\\"");
        } else if c == '\\' {
            assert("\\\\"@ =~= esc_char('\\'));
            out.append("\\\\");
        } else if c == '\n' {
            assert("\\n"@ =~= esc_char('\n'));
            out.append("\\n");
        } else if c == '\r' {
            assert("\\r"@ =~= esc_char('\r'));
            out.append("\\r");
        } else if c == '\t' {
            assert("\\t"@ =~= esc_char('\t'));
            out.append("\\t");
        } else if (c as u32) < 32 {
            proof {
                reveal_strlit("\\u00");
            }
            let code = c as u32;
            out.append("\\u00");
            out.append(hex_digit_str(code / 16));
            out.append(hex_digit_str(code % 16));
            proof {
                assert("\\u00"@ =~= seq!['\\', 'u', '0', '0']);
            }
        } else {
            let piece = s.substring_char(i, i + 1);
            assert(piece@ =~= esc_char(c));
            out.append(piece);
        }
        proof {
            assert(out@ + json_escape_from(s@, i + 1) =~= json_escape_from(s@, 0));
        }
        i = i + 1;
    }
    proof {
        assert(out@ =~= json_escape_from(s@, 0));
    }
    out
}

/// A quoted, escaped JSON string literal: `"..."`.
pub open spec fn json_str(s: Seq<char>) -> Seq<char> {
    seq!['"'] + json_escape(s) + seq!['"']
}

/// Renders `s` as a quoted JSON string literal.
pub fn quote_json(s: &str) -> (r: String)
    ensures
        r@ == json_str(s@),
{
    proof {
        reveal_strlit("\"");
    }
    let mut out = "\"".to_owned();
    assert(out@ =~= seq!['"']);
    let body = escape_json(s);
    out.append(body.as_str());
    out.append("\"");
    proof {
        assert(out@ =~= json_str(s@));
    }
    out
}

} // verus!
