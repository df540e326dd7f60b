//! JSON text emission: escaping of string values and the small helpers the
//! control-plane request encoders are built from. Every emitted byte is
//! pinned by a spec function.

use vstd::prelude::*;
use crate::text::hex_digit;
use crate::text::push_char;

verus! {

/// The JSON escape of one character: quote and backslash escaped, the named
/// control characters by their short forms, other control characters as
/// `\u00..`, everything else written as itself.
pub open spec fn esc_char(c: char) -> Seq<char> {
    if c == '"' {
        seq!['\\', '"']
    } else if c == '\\' {
        seq!['\\', '\\']
    } else if c == '\u{8}' {
        seq!['\\', 'b']
    } else if c == '\u{c}' {
        seq!['\\', 'f']
    } else if c == '\n' {
        seq!['\\', 'n']
    } else if c == '\r' {
        seq!['\\', 'r']
    } else if c == '\t' {
        seq!['\\', 't']
    } else if (c as u32) < 32 {
        seq!['\\', 'u', '0', '0', hex_digit(c as u32 as int / 16), hex_digit(c as u32 as int % 16)]
    } else {
        seq![c]
    }
}

/// The body of a JSON string: each character escaped, in order.
pub open spec fn json_escaped(s: Seq<char>) -> Seq<char>
    decreases s.len(),
{
    if s.len() == 0 {
        Seq::empty()
    } else {
        json_escaped(s.drop_last()) + esc_char(s.last())
    }
}

/// A JSON string: the escaped text between double quotes.
pub open spec fn json_str(s: Seq<char>) -> Seq<char> {
    seq!['"'] + json_escaped(s) + seq!['"']
}

/// A JSON boolean.
pub open spec fn json_bool(b: bool) -> Seq<char> {
    if b {
        "true"@
    } else {
        "false"@
    }
}

/// An optional JSON string: `null` when absent.
pub open spec fn json_opt_str(s: Option<Seq<char>>) -> Seq<char> {
    match s {
        Option::None => "null"@,
        Option::Some(v) => json_str(v),
    }
}

/// Appends the escaped form of `v` to `out`.
pub fn append_escaped(out: &mut String, v: &str)
    ensures
        final(out)@ == old(out)@ + json_escaped(v@),
{
    let len = v.unicode_len();
    let mut i: usize = 0;
    proof {
        assert(v@.take(0) =~= Seq::<char>::empty());
        assert(out@ =~= old(out)@ + json_escaped(v@.take(0)));
    }
    while i < len
        invariant
            i <= len,
            len == v@.len(),
            out@ == old(out)@ + json_escaped(v@.take(i as int)),
        decreases len - i,
    {
        let c = v.get_char(i);
        if c == '"' {
            push_char(out, '\\');
            push_char(out, '"');
        } else if c == '\\' {
            push_char(out, '\\');
            push_char(out, '\\');
        } else if c == '\u{8}' {
            push_char(out, '\\');
            push_char(out, 'b');
        } else if c == '\u{c}' {
            push_char(out, '\\');
            push_char(out, 'f');
        } else if c == '\n' {
            push_char(out, '\\');
            push_char(out, 'n');
        } else if c == '\r' {
            push_char(out, '\\');
            push_char(out, 'r');
        } else if c == '\t' {
            push_char(out, '\\');
            push_char(out, 't');
        } else if (c as u32) < 32 {
            let code = c as u32;
            push_char(out, '\\');
            push_char(out, 'u');
            push_char(out, '0');
            push_char(out, '0');
            push_char(out, crate::text::hex_to_char((code / 16) as u8));
            push_char(out, crate::text::hex_to_char((code % 16) as u8));
        } else {
            push_char(out, c);
        }
        proof {
            assert(v@.take(i + 1).drop_last() =~= v@.take(i as int));
            assert(v@.take(i + 1).last() == v@[i as int]);
            assert(out@ =~= old(out)@ + (json_escaped(v@.take(i as int)) + esc_char(v@[i as int])));
        }
        i = i + 1;
    }
    proof {
        assert(v@.take(len as int) =~= v@);
    }
}

/// Appends `v` as a quoted, escaped JSON string to `out`.
pub fn append_json_str(out: &mut String, v: &str)
    ensures
        final(out)@ == old(out)@ + json_str(v@),
{
    push_char(out, '"');
    append_escaped(out, v);
    push_char(out, '"');
    proof {
        assert(out@ =~= old(out)@ + json_str(v@));
    }
}

/// Appends `true` or `false` to `out`.
pub fn append_json_bool(out: &mut String, b: bool)
    ensures
        final(out)@ == old(out)@ + json_bool(b),
{
    if b {
        out.append("true");
    } else {
        out.append("false");
    }
}

/// Appends a quoted string or `null` to `out`.
pub fn append_json_opt_str(out: &mut String, v: &Option<String>)
    ensures
        final(out)@ == old(out)@ + json_opt_str(match v {
            Option::None => Option::None,
            Option::Some(s) => Option::Some(s@),
        }),
{
    match v {
        Option::None => {
            out.append("null");
        },
        Option::Some(s) => {
            append_json_str(out, s.as_str());
        },
    }
}

} // verus!
