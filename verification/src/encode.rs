//! Serializing an [`Envelope`] back to JSON text.
//!
//! `update_or_create` returns a successful update's envelope re-serialized
//! rather than the raw body. The output shape is fixed: the four fields in
//! declaration order, absent fields rendered as `null`, and string contents
//! escaped as JSON requires (`"`, `\`, and control characters).

use vstd::prelude::*;

use crate::envelope::Envelope;
use crate::envelope::Item;
use crate::numeral::dec_rep;
use crate::numeral::digit_char;
use crate::numeral::u32_to_string;

verus! {

/// The lowercase hexadecimal digit character for `d` (which must be below 16).
pub open spec fn hex_char(d: nat) -> char {
    if d < 10 {
        digit_char(d)
    } else if d == 10 {
        'a'
    } else if d == 11 {
        'b'
    } else if d == 12 {
        'c'
    } else if d == 13 {
        'd'
    } else if d == 14 {
        'e'
    } else {
        'f'
    }
}

/// How one character is written inside a JSON string: `"` and `\` get a
/// backslash escape, the common control characters get their short escapes,
/// the remaining control characters are written as `\u00XX`, and every other
/// character stands for itself.
pub open spec fn escape_char(c: char) -> Seq<char> {
    if c == '"' {
        seq!['\\', '"']
    } else if c == '\\' {
        seq!['\\', '\\']
    } else if c == '\u{0008}' {
        seq!['\\', 'b']
    } else if c == '\t' {
        seq!['\\', 't']
    } else if c == '\n' {
        seq!['\\', 'n']
    } else if c == '\u{000c}' {
        seq!['\\', 'f']
    } else if c == '\r' {
        seq!['\\', 'r']
    } else if (c as u32) < 32 {
        seq!['\\', 'u', '0', '0', hex_char((c as u32 / 16) as nat), hex_char((c as u32 % 16) as nat)]
    } else {
        seq![c]
    }
}

/// The escaped form of the first `n` characters of `s`.
pub open spec fn escape_prefix(s: Seq<char>, n: int) -> Seq<char>
    decreases n,
{
    if n <= 0 {
        Seq::empty()
    } else {
        escape_prefix(s, n - 1) + escape_char(s[n - 1])
    }
}

/// The escaped form of a whole string.
pub open spec fn escape_seq(s: Seq<char>) -> Seq<char> {
    escape_prefix(s, s.len() as int)
}

/// The one-character string for the lowercase hexadecimal digit `d`.
fn hex_str(d: u32) -> (s: &'static str)
    requires
        d < 16,
    ensures
        s@ == seq![hex_char(d as nat)],
{
    proof {
        reveal_strlit("0");
        reveal_strlit("1");
        reveal_strlit("2");
        reveal_strlit("3");
        reveal_strlit("4");
        reveal_strlit("5");
        reveal_strlit("6");
        reveal_strlit("7");
        reveal_strlit("8");
        reveal_strlit("9");
        reveal_strlit("a");
        reveal_strlit("b");
        reveal_strlit("c");
        reveal_strlit("d");
        reveal_strlit("e");
        reveal_strlit("f");
    }
    let s: &'static str = if d == 0 {
        "0"
    } else if d == 1 {
        "1"
    } else if d == 2 {
        "2"
    } else if d == 3 {
        "3"
    } else if d == 4 {
        "4"
    } else if d == 5 {
        "5"
    } else if d == 6 {
        "6"
    } else if d == 7 {
        "7"
    } else if d == 8 {
        "8"
    } else if d == 9 {
        "9"
    } else if d == 10 {
        "a"
    } else if d == 11 {
        "b"
    } else if d == 12 {
        "c"
    } else if d == 13 {
        "d"
    } else if d == 14 {
        "e"
    } else {
        "f"
    };
    proof {
        assert(s@ =~= seq![hex_char(d as nat)]);
    }
    s
}

/// Appends the JSON-escaped form of `s` to `out`.
fn escape_into(out: &mut String, s: &str)
    ensures
        final(out)@ == old(out)@ + escape_seq(s@),
{
    let n = s.unicode_len();
    let mut i: usize = 0;
    proof {
        assert(out@ =~= old(out)@ + escape_prefix(s@, 0));
    }
    while i < n
        invariant
            i <= n,
            n == s@.len(),
            out@ == old(out)@ + escape_prefix(s@, i as int),
        decreases n - i,
    {
        let ghost pre = out@;
        let c = s.get_char(i);
        proof {
            reveal_strlit("\\\"");
            reveal_strlit("\\\\");
            reveal_strlit("\\b");
            reveal_strlit("\\t");
            reveal_strlit("\\n");
            reveal_strlit("\\f");
            reveal_strlit("\\r");
            reveal_strlit("\\u00");
            assert(escape_prefix(s@, i + 1) =~= escape_prefix(s@, i as int) + escape_char(s@[i as int]));
        }
        if c == '"' {
            out.append("\\\"");
        } else if c == '\\' {
            out.append("\\\\");
        } else if c == '\u{0008}' {
            out.append("\\b");
        } else if c == '\t' {
            out.append("\\t");
        } else if c == '\n' {
            out.append("\\n");
        } else if c == '\u{000c}' {
            out.append("\\f");
        } else if c == '\r' {
            out.append("\\r");
        } else if (c as u32) < 32 {
            out.append("\\u00");
            out.append(hex_str((c as u32) / 16));
            out.append(hex_str((c as u32) % 16));
        } else {
            let piece = s.substring_char(i, i + 1);
            proof {
                assert(piece@ =~= seq![s@[i as int]]);
            }
            out.append(piece);
        }
        proof {
            assert(out@ =~= pre + escape_char(s@[i as int]));
            assert(out@ =~= old(out)@ + escape_prefix(s@, i + 1));
        }
        i = i + 1;
    }
}

/// How one listed item is written: an object holding its id.
pub open spec fn item_json(it: Item) -> Seq<char> {
    "{\"id\":\""@ + escape_seq(it.id@) + "\"}"@
}

/// The first `n` items of `s`, written as comma-separated objects.
pub open spec fn items_prefix(s: Seq<Item>, n: int) -> Seq<char>
    decreases n,
{
    if n <= 0 {
        Seq::empty()
    } else if n == 1 {
        item_json(s[0])
    } else {
        items_prefix(s, n - 1) + seq![','] + item_json(s[n - 1])
    }
}

/// How an optional `u32` field is written: its decimal digits, or `null`.
pub open spec fn opt_u32_json(v: Option<u32>) -> Seq<char> {
    match v {
        Option::None => "null"@,
        Option::Some(n) => dec_rep(n as nat),
    }
}

/// How an optional `u16` field is written: its decimal digits, or `null`.
pub open spec fn opt_u16_json(v: Option<u16>) -> Seq<char> {
    match v {
        Option::None => "null"@,
        Option::Some(n) => dec_rep(n as nat),
    }
}

/// How the optional items field is written: a JSON array, or `null`.
pub open spec fn items_json(v: Option<Vec<Item>>) -> Seq<char> {
    match v {
        Option::None => "null"@,
        Option::Some(items) => "["@ + items_prefix(items@, items@.len() as int) + "]"@,
    }
}

/// The full JSON text for an envelope: the four fields in declaration
/// order, absent ones as `null`.
pub open spec fn envelope_json(e: Envelope) -> Seq<char> {
    "{\"totalItems\":"@ + opt_u32_json(e.total_items) + ",\"code\":"@ + opt_u16_json(e.code)
        + ",\"error\":"@ + opt_u16_json(e.error) + ",\"items\":"@ + items_json(e.items) + "}"@
}

/// Appends `v`'s JSON form (digits or `null`) to `out`.
fn append_opt_u32(out: &mut String, v: &Option<u32>)
    ensures
        final(out)@ == old(out)@ + opt_u32_json(*v),
{
    match v {
        Option::None => out.append("null"),
        Option::Some(n) => {
            let digits = u32_to_string(*n);
            out.append(digits.as_str());
        },
    }
}

/// Appends `v`'s JSON form (digits or `null`) to `out`.
fn append_opt_u16(out: &mut String, v: &Option<u16>)
    ensures
        final(out)@ == old(out)@ + opt_u16_json(*v),
{
    match v {
        Option::None => out.append("null"),
        Option::Some(n) => {
            let digits = u32_to_string(*n as u32);
            out.append(digits.as_str());
        },
    }
}

/// Appends one item's JSON object to `out`.
fn append_item(out: &mut String, it: &Item)
    ensures
        final(out)@ == old(out)@ + item_json(*it),
{
    out.append("{\"id\":\"");
    escape_into(out, it.id.as_str());
    out.append("\"}");
    proof {
        assert(out@ =~= old(out)@ + item_json(*it));
    }
}

/// Serializes an envelope to JSON text.
pub fn encode_envelope(e: &Envelope) -> (s: String)
    ensures
        s@ == envelope_json(*e),
{
    let mut out = String::new();
    out.append("{\"totalItems\":");
    append_opt_u32(&mut out, &e.total_items);
    out.append(",\"code\":");
    append_opt_u16(&mut out, &e.code);
    out.append(",\"error\":");
    append_opt_u16(&mut out, &e.error);
    out.append(",\"items\":");
    match &e.items {
        Option::None => out.append("null"),
        Option::Some(items) => {
            out.append("[");
            let ghost open_done = out@;
            let mut i: usize = 0;
            while i < items.len()
                invariant
                    i <= items.len(),
                    out@ == open_done + items_prefix(items@, i as int),
                decreases items.len() - i,
            {
                if i > 0 {
                    out.append(",");
                    proof {
                        reveal_strlit(",");
                    }
                }
                append_item(&mut out, &items[i]);
                proof {
                    assert(out@ =~= open_done + items_prefix(items@, i + 1));
                }
                i = i + 1;
            }
            out.append("]");
        },
    }
    out.append("}");
    proof {
        assert(out@ =~= envelope_json(*e));
    }
    out
}

} // verus!
