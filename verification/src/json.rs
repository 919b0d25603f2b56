//! JSON string literals: how a text is escaped into one, and what a literal reads as.
use crate::number::{digit, hex, hex4_text};
use crate::text::chars_of;
use vstd::prelude::*;
use vstd::string::StringExecFns;

verus! {

/// How one character is written inside a JSON string literal.
pub open spec fn escaped(c: char) -> Seq<char> {
    if c == '"' {
        seq!['\\', '"']
    } else if c == '\\' {
        seq!['\\', '\\']
    } else if c == '\n' {
        seq!['\\', 'n']
    } else if c == '\r' {
        seq!['\\', 'r']
    } else if c == '\t' {
        seq!['\\', 't']
    } else if (c as nat) < 0x20 {
        seq!['\\', 'u'] + hex(c as nat, 4)
    } else {
        seq![c]
    }
}

/// How a text is written inside a JSON string literal.
pub open spec fn escape(s: Seq<char>) -> Seq<char>
    decreases s.len(),
{
    if s.len() == 0 {
        Seq::empty()
    } else {
        escaped(s[0]) + escape(s.skip(1))
    }
}

/// A text as a JSON string literal, quotes included.
pub open spec fn json_literal(s: Seq<char>) -> Seq<char> {
    seq!['"'] + escape(s) + seq!['"']
}

/// Append one character as it is written inside a JSON string literal.
fn push_escaped(out: &mut String, c: char)
    ensures
        final(out)@ == old(out)@ + escaped(c),
{
    match c {
        '"' => {
            out.push('\\');
            out.push('"');
        },
        '\\' => {
            out.push('\\');
            out.push('\\');
        },
        '\n' => {
            out.push('\\');
            out.push('n');
        },
        '\r' => {
            out.push('\\');
            out.push('r');
        },
        '\t' => {
            out.push('\\');
            out.push('t');
        },
        _ => {
            let code: u32 = c as u32;
            if code < 0x20 {
                out.push('\\');
                out.push('u');
                out.append(hex4_text(code).as_str());
            } else {
                out.push(c);
            }
        },
    }
    assert(out@ =~= old(out)@ + escaped(c));
}

/// Escape a string as a JSON string literal (quotes included). The JSON faces this crate
/// emits are built by hand: the shapes are flat and small.
pub fn json_str(s: &str) -> (literal: String)
    ensures
        literal@ == json_literal(s@),
{
    let chars = chars_of(s);
    let mut out = String::new();
    out.push('"');
    let mut i: usize = 0;
    assert(s@.skip(0) =~= s@);
    while i < chars.len()
        invariant
            i <= chars.len(),
            chars@ == s@,
            seq!['"'] + escape(s@) == out@ + escape(s@.skip(i as int)),
        decreases chars.len() - i,
    {
        let c = chars[i];
        let ghost before = out@;
        push_escaped(&mut out, c);
        assert(s@.skip(i as int).skip(1) =~= s@.skip(i + 1));
        assert(out@ + escape(s@.skip(i + 1)) =~= before + escape(s@.skip(i as int)));
        i = i + 1;
    }
    assert(out@ =~= seq!['"'] + escape(s@));
    out.push('"');
    out
}

/// The value of a hexadecimal digit.
pub open spec fn hex_digit_value(c: char) -> Option<nat> {
    if '0' <= c <= '9' {
        Some((c as int - '0' as int) as nat)
    } else if 'a' <= c <= 'f' {
        Some((c as int - 'a' as int + 10) as nat)
    } else if 'A' <= c <= 'F' {
        Some((c as int - 'A' as int + 10) as nat)
    } else {
        None
    }
}

/// The number that four hexadecimal digits at a position spell.
pub open spec fn read_hex4(doc: Seq<char>, i: int) -> Option<nat> {
    if i + 4 <= doc.len() {
        match (
            hex_digit_value(doc[i]),
            hex_digit_value(doc[i + 1]),
            hex_digit_value(doc[i + 2]),
            hex_digit_value(doc[i + 3]),
        ) {
            (Some(a), Some(b), Some(c), Some(d)) => Some(
                (a * 4096 + b * 256 + c * 16 + d) as nat,
            ),
            _ => None,
        }
    } else {
        None
    }
}

/// One character of a JSON string literal as read at a position, and the position behind
/// it: a character written as it is or one of JSON's escapes. An unescaped quote or control
/// character is none, and a `\u` escape of half a surrogate pair reads as none.
pub open spec fn read_char(doc: Seq<char>, i: int) -> Option<(char, int)> {
    if i < 0 || i >= doc.len() || doc[i] == '"' || (doc[i] as nat) < 0x20 {
        None
    } else if doc[i] != '\\' {
        Some((doc[i], i + 1))
    } else if i + 1 >= doc.len() {
        None
    } else {
        let c = doc[i + 1];
        if c == '"' || c == '\\' || c == '/' {
            Some((c, i + 2))
        } else if c == 'n' {
            Some(('\n', i + 2))
        } else if c == 'r' {
            Some(('\r', i + 2))
        } else if c == 't' {
            Some(('\t', i + 2))
        } else if c == 'b' {
            Some(('\u{8}', i + 2))
        } else if c == 'f' {
            Some(('\u{c}', i + 2))
        } else if c == 'u' {
            match read_hex4(doc, i + 2) {
                Some(code) => if code < 0xd800 || code >= 0xe000 {
                    Some((code as char, i + 6))
                } else {
                    None
                },
                None => None,
            }
        } else {
            None
        }
    }
}

/// What the inside of a JSON string literal reads as from a position, and the position
/// behind the quote that closes it.
pub open spec fn read_chars(doc: Seq<char>, i: int) -> Option<(Seq<char>, int)>
    decreases doc.len() - i,
{
    if 0 <= i < doc.len() && doc[i] == '"' {
        Some((Seq::empty(), i + 1))
    } else {
        match read_char(doc, i) {
            Some((c, next)) => if i < next <= doc.len() {
                match read_chars(doc, next) {
                    Some((rest, end)) => Some((seq![c] + rest, end)),
                    None => None,
                }
            } else {
                None
            },
            None => None,
        }
    }
}

/// What the JSON string literal at a position reads as, and the position behind it.
pub open spec fn read_string(doc: Seq<char>, i: int) -> Option<(Seq<char>, int)> {
    if 0 <= i < doc.len() && doc[i] == '"' {
        read_chars(doc, i + 1)
    } else {
        None
    }
}

/// A control character's four hexadecimal digits.
proof fn lemma_control_hex(c: char)
    requires
        (c as nat) < 0x20,
    ensures
        hex(c as nat, 4) == seq!['0', '0', digit(c as int / 16), digit(c as int % 16)],
{
    reveal_with_fuel(hex, 5);
    assert(hex(c as nat, 4) =~= seq!['0', '0', digit(c as int / 16), digit(c as int % 16)]);
}

/// An escaped character reads as that character, wherever it stands.
proof fn lemma_escaped_reads_back(doc: Seq<char>, i: int, c: char)
    requires
        0 <= i,
        i + escaped(c).len() <= doc.len(),
        doc.subrange(i, i + escaped(c).len()) == escaped(c),
    ensures
        read_char(doc, i) == Some((c, i + escaped(c).len())),
        doc[i] != '"',
{
    let part = doc.subrange(i, i + escaped(c).len());
    assert(part[0] == doc[i]);
    if escaped(c).len() > 1 {
        assert(part[1] == doc[i + 1]);
    }
    if (c as nat) < 0x20 && c != '\n' && c != '\r' && c != '\t' {
        lemma_control_hex(c);
        assert(part[2] == doc[i + 2]);
        assert(part[3] == doc[i + 3]);
        assert(part[4] == doc[i + 4]);
        assert(part[5] == doc[i + 5]);
        let n = c as int;
        assert(hex_digit_value(digit(n / 16)) == Some((n / 16) as nat));
        assert(hex_digit_value(digit(n % 16)) == Some((n % 16) as nat));
        assert(read_hex4(doc, i + 2) == Some(c as nat));
    }
}

/// An escaped text with a closing quote behind it reads as that text, whatever stands
/// before and behind.
proof fn lemma_escape_reads_back(before: Seq<char>, s: Seq<char>, behind: Seq<char>)
    ensures
        read_chars(before + escape(s) + seq!['"'] + behind, before.len() as int) == Some(
            (s, (before.len() + escape(s).len() + 1) as int),
        ),
    decreases s.len(),
{
    let doc = before + escape(s) + seq!['"'] + behind;
    let i = before.len() as int;
    if s.len() == 0 {
        assert(doc[i] == '"');
        assert(s =~= Seq::empty());
    } else {
        let part = escaped(s[0]);
        assert(doc.subrange(i, i + part.len()) =~= part);
        lemma_escaped_reads_back(doc, i, s[0]);
        lemma_escape_reads_back(before + part, s.skip(1), behind);
        assert((before + part) + escape(s.skip(1)) + seq!['"'] + behind =~= doc);
        assert(seq![s[0]] + s.skip(1) =~= s);
    }
}

/// A text's JSON literal reads as that text, and ends where it ends: no quote, backslash
/// or control character inside the text closes the literal early or spoils it, whatever
/// stands before it and behind it in a document.
pub proof fn json_literal_reads_back(before: Seq<char>, s: Seq<char>, behind: Seq<char>)
    ensures
        read_string(before + json_literal(s) + behind, before.len() as int) == Some(
            (s, (before.len() + json_literal(s).len()) as int),
        ),
{
    let doc = before + json_literal(s) + behind;
    lemma_escape_reads_back(before.push('"'), s, behind);
    assert(before.push('"') + escape(s) + seq!['"'] + behind =~= doc);
    assert(doc[before.len() as int] == '"');
}

} // verus!
