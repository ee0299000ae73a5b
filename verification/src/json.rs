//! JSON text encoding for records.
//!
//! Records are archived as newline-delimited JSON, one object per line, and
//! the attribute maps inside them are serialized to compact JSON object
//! strings. Encoding is defined character by character: string values are
//! escaped (quote, backslash, and control characters), object entries are
//! comma-joined in stored order.

use vstd::prelude::*;
use crate::FieldEntry;
use crate::text::digit_char;

verus! {

/// The lowercase hexadecimal character for one digit.
pub open spec fn hex_char(d: nat) -> char {
    if d < 10 {
        digit_char(d)
    } else if d == 10 {
        'a'
    } else if d == 11 {
        'b'
    } else if d == 12 {
        'c'
    } else if d == 13 {
        'd'
    } else if d == 14 {
        'e'
    } else {
        'f'
    }
}

/// The escape sequence a character contributes inside a JSON string: quotes
/// and backslashes are escaped, the common control characters take their
/// short forms, the remaining control characters take `\u00..` forms, and
/// every other character stands for itself.
pub open spec fn escape_char(c: char) -> Seq<char> {
    if c == '"' {
        seq!['\\', '"']
    } else if c == '\\' {
        seq!['\\', '\\']
    } else if c == '\n' {
        seq!['\\', 'n']
    } else if c == '\r' {
        seq!['\\', 'r']
    } else if c == '\t' {
        seq!['\\', 't']
    } else if (c as u32) < 32 {
        seq!['\\', 'u', '0', '0', hex_char((c as u32 / 16) as nat), hex_char(
            (c as u32 % 16) as nat,
        )]
    } else {
        seq![c]
    }
}

/// The escaped body of a JSON string.
pub open spec fn spec_escaped(s: Seq<char>) -> Seq<char>
    decreases s.len(),
{
    if s.len() == 0 {
        Seq::empty()
    } else {
        escape_char(s[0]) + spec_escaped(s.skip(1))
    }
}

/// A quoted, escaped JSON string.
pub open spec fn spec_json_string(s: Seq<char>) -> Seq<char> {
    seq!['"'] + spec_escaped(s) + seq!['"']
}

/// One `"key":"value"` member of a JSON object.
pub open spec fn spec_entry(e: FieldEntry) -> Seq<char> {
    spec_json_string(e.key@) + seq![':'] + spec_json_string(e.value@)
}

/// The comma-joined members of a JSON object, in stored order.
pub open spec fn spec_entries(fs: Seq<FieldEntry>) -> Seq<char>
    decreases fs.len(),
{
    if fs.len() == 0 {
        Seq::empty()
    } else if fs.len() == 1 {
        spec_entry(fs[0])
    } else {
        spec_entry(fs[0]) + seq![','] + spec_entries(fs.skip(1))
    }
}

/// A JSON object of string-valued members, in stored order.
pub open spec fn spec_json_object(fs: Seq<FieldEntry>) -> Seq<char> {
    seq!['{'] + spec_entries(fs) + seq!['}']
}

pub proof fn lemma_escaped_push(s: Seq<char>, c: char)
    ensures
        spec_escaped(s.push(c)) == spec_escaped(s) + escape_char(c),
    decreases s.len(),
{
    if s.len() == 0 {
        assert(s.push(c)[0] == c);
        assert(s.push(c).skip(1) =~= Seq::<char>::empty());
        assert(spec_escaped(s.push(c).skip(1)) =~= Seq::<char>::empty());
        assert(spec_escaped(s.push(c)) =~= escape_char(c) + spec_escaped(s.push(c).skip(1)));
        assert(spec_escaped(s.push(c)) =~= spec_escaped(s) + escape_char(c));
    } else {
        lemma_escaped_push(s.skip(1), c);
        assert(s.push(c).skip(1) =~= s.skip(1).push(c));
        assert(s.push(c)[0] == s[0]);
        assert(spec_escaped(s.push(c)) =~= spec_escaped(s) + escape_char(c));
    }
}

pub proof fn lemma_entries_push(fs: Seq<FieldEntry>, e: FieldEntry)
    ensures
        spec_entries(fs.push(e)) == if fs.len() == 0 {
            spec_entry(e)
        } else {
            spec_entries(fs) + seq![','] + spec_entry(e)
        },
    decreases fs.len(),
{
    if fs.len() == 0 {
        assert(fs.push(e)[0] == e);
        assert(spec_entries(fs.push(e)) =~= spec_entry(e));
    } else {
        lemma_entries_push(fs.skip(1), e);
        assert(fs.push(e).skip(1) =~= fs.skip(1).push(e));
        assert(fs.push(e)[0] == fs[0]);
        if fs.len() == 1 {
            assert(spec_entries(fs.push(e)) =~= spec_entries(fs) + seq![','] + spec_entry(e));
        } else {
            assert(spec_entries(fs.push(e)) =~= spec_entries(fs) + seq![','] + spec_entry(e));
        }
    }
}

/// No character of `s` is a newline.
pub open spec fn newline_free(s: Seq<char>) -> bool {
    forall|i: int| 0 <= i < s.len() ==> s[i] != '\n'
}

/// The number of newline characters in `s`: its number of lines, when every
/// line is newline-terminated.
pub open spec fn newline_count(s: Seq<char>) -> nat
    decreases s.len(),
{
    if s.len() == 0 {
        0
    } else {
        ((if s[0] == '\n' {
            1nat
        } else {
            0nat
        }) + newline_count(s.skip(1))) as nat
    }
}

pub proof fn lemma_newline_count_concat(a: Seq<char>, b: Seq<char>)
    ensures
        newline_count(a + b) == newline_count(a) + newline_count(b),
    decreases a.len(),
{
    if a.len() == 0 {
        assert(a + b =~= b);
    } else {
        lemma_newline_count_concat(a.skip(1), b);
        assert((a + b)[0] == a[0]);
        assert((a + b).skip(1) =~= a.skip(1) + b);
    }
}

pub proof fn lemma_newline_free_count(s: Seq<char>)
    requires
        newline_free(s),
    ensures
        newline_count(s) == 0,
    decreases s.len(),
{
    if s.len() > 0 {
        assert(newline_free(s.skip(1)));
        lemma_newline_free_count(s.skip(1));
    }
}

pub proof fn lemma_newline_free_concat(a: Seq<char>, b: Seq<char>)
    requires
        newline_free(a),
        newline_free(b),
    ensures
        newline_free(a + b),
{
    assert forall|i: int| 0 <= i < (a + b).len() implies (a + b)[i] != '\n' by {
        if i < a.len() {
            assert((a + b)[i] == a[i]);
        } else {
            assert((a + b)[i] == b[i - a.len()]);
        }
    }
}

/// No escape sequence contains a newline: the raw newline itself is always
/// rewritten to `\n`.
pub proof fn lemma_escape_char_newline_free(c: char)
    ensures
        newline_free(escape_char(c)),
{
}

pub proof fn lemma_escaped_newline_free(s: Seq<char>)
    ensures
        newline_free(spec_escaped(s)),
    decreases s.len(),
{
    if s.len() > 0 {
        lemma_escape_char_newline_free(s[0]);
        lemma_escaped_newline_free(s.skip(1));
        lemma_newline_free_concat(escape_char(s[0]), spec_escaped(s.skip(1)));
    }
}

pub proof fn lemma_json_string_newline_free(s: Seq<char>)
    ensures
        newline_free(spec_json_string(s)),
{
    lemma_escaped_newline_free(s);
    lemma_newline_free_concat(seq!['"'], spec_escaped(s));
    lemma_newline_free_concat(seq!['"'] + spec_escaped(s), seq!['"']);
}

/// The lowercase hexadecimal string for one digit.
fn hex_str(d: u32) -> (r: &'static str)
    requires
        d < 16,
    ensures
        r@ =~= seq![hex_char(d as nat)],
{
    proof {
        reveal_strlit("0");
        reveal_strlit("1");
        reveal_strlit("2");
        reveal_strlit("3");
        reveal_strlit("4");
        reveal_strlit("5");
        reveal_strlit("6");
        reveal_strlit("7");
        reveal_strlit("8");
        reveal_strlit("9");
        reveal_strlit("a");
        reveal_strlit("b");
        reveal_strlit("c");
        reveal_strlit("d");
        reveal_strlit("e");
        reveal_strlit("f");
    }
    match d {
        0 => "0",
        1 => "1",
        2 => "2",
        3 => "3",
        4 => "4",
        5 => "5",
        6 => "6",
        7 => "7",
        8 => "8",
        9 => "9",
        10 => "a",
        11 => "b",
        12 => "c",
        13 => "d",
        14 => "e",
        _ => "f",
    }
}

/// Append the escaped body of `s` to `out`. ASCII text, the common case,
/// is walked byte by byte; anything else falls back to a character walk.
fn append_escaped(out: &mut String, s: &str)
    ensures
        final(out)@ == old(out)@ + spec_escaped(s@),
{
    let ascii = s.is_ascii();
    let n = s.unicode_len();
    let mut i: usize = 0;
    while i < n
        invariant
            n == s@.len(),
            i <= n,
            ascii == vstd::string::is_ascii(s),
            out@ == old(out)@ + spec_escaped(s@.subrange(0, i as int)),
        decreases n - i,
    {
        proof {
            lemma_escaped_push(s@.subrange(0, i as int), s@[i as int]);
            assert(s@.subrange(0, i as int).push(s@[i as int]) =~= s@.subrange(0, i as int + 1));
        }
        if ascii {
            let b = s.get_ascii(i);
            if b >= 32 && b != 34 && b != 92 {
                let piece = s.substring_ascii(i, i + 1);
                out.append(piece);
                proof {
                    let c = s@[i as int];
                    vstd::utf8::is_ascii_chars_nat_bound(s@);
                    assert((c as nat) < 128);
                    assert(c != '"' && c != '\\');
                    assert((c as u32) == (c as u8) as u32);
                    assert((c as u32) >= 32);
                    assert(c != '\n' && c != '\r' && c != '\t');
                    assert(piece@ =~= seq![c]);
                    assert(escape_char(c) =~= seq![c]);
                }
            } else {
                escape_one(out, s, i);
            }
        } else {
            escape_one(out, s, i);
        }
        i = i + 1;
    }
    proof {
        assert(s@.subrange(0, n as int) =~= s@);
    }
}

/// Append the escape sequence of the character at position `i` of `s`.
fn escape_one(out: &mut String, s: &str, i: usize)
    requires
        i < s@.len(),
        s@.len() <= usize::MAX,
    ensures
        final(out)@ == old(out)@ + escape_char(s@[i as int]),
{
    {
        let c = s.get_char(i);
        if c == '"' {
            out.append("\\\"");
            proof {
                reveal_strlit("\\\"");
                assert("\\\""@ =~= escape_char(c));
            }
        } else if c == '\\' {
            out.append("\\\\");
            proof {
                reveal_strlit("\\\\");
                assert("\\\\"@ =~= escape_char(c));
            }
        } else if c == '\n' {
            out.append("\\n");
            proof {
                reveal_strlit("\\n");
                assert("\\n"@ =~= escape_char(c));
            }
        } else if c == '\r' {
            out.append("\\r");
            proof {
                reveal_strlit("\\r");
                assert("\\r"@ =~= escape_char(c));
            }
        } else if c == '\t' {
            out.append("\\t");
            proof {
                reveal_strlit("\\t");
                assert("\\t"@ =~= escape_char(c));
            }
        } else if (c as u32) < 32 {
            let v: u32 = c as u32;
            out.append("\\u00");
            out.append(hex_str(v / 16));
            out.append(hex_str(v % 16));
            proof {
                reveal_strlit("\\u00");
                assert("\\u00"@ + seq![hex_char((v / 16) as nat)] + seq![
                    hex_char((v % 16) as nat),
                ] =~= escape_char(c));
            }
        } else {
            let piece = s.substring_char(i, i + 1);
            out.append(piece);
            proof {
                assert(piece@ =~= seq![c]);
                assert(seq![c] =~= escape_char(c));
            }
        }
    }
}

/// Quote and escape a string as a JSON string token.
pub fn json_quote(s: &str) -> (r: String)
    ensures
        r@ == spec_json_string(s@),
{
    let mut out = String::from_str("\"");
    append_escaped(&mut out, s);
    out.append("\"");
    proof {
        reveal_strlit("\"");
        assert(out@ =~= spec_json_string(s@));
    }
    out
}

/// Append `"key":"value"` for one entry to `out`.
fn append_entry(out: &mut String, e: &FieldEntry)
    ensures
        final(out)@ == old(out)@ + spec_entry(*e),
{
    let k = json_quote(e.key.as_str());
    out.append(k.as_str());
    out.append(":");
    let v = json_quote(e.value.as_str());
    out.append(v.as_str());
    proof {
        reveal_strlit(":");
        assert(out@ =~= old(out)@ + spec_entry(*e));
    }
}

/// Encode an attribute map as a JSON object string, entries in stored order.
pub fn json_object(fields: &Vec<FieldEntry>) -> (r: String)
    ensures
        r@ == spec_json_object(fields@),
{
    let mut out = String::from_str("{");
    let n = fields.len();
    proof {
        reveal_strlit("{");
        assert(out@ =~= seq!['{'] + spec_entries(fields@.subrange(0, 0)));
    }
    let mut i: usize = 0;
    while i < n
        invariant
            n == fields@.len(),
            i <= n,
            out@ == seq!['{'] + spec_entries(fields@.subrange(0, i as int)),
        decreases n - i,
    {
        proof {
            reveal_strlit("{");
        }
        if i > 0 {
            out.append(",");
            proof {
                reveal_strlit(",");
            }
        }
        append_entry(&mut out, &fields[i]);
        proof {
            lemma_entries_push(fields@.subrange(0, i as int), fields@[i as int]);
            assert(fields@.subrange(0, i as int).push(fields@[i as int]) =~= fields@.subrange(
                0,
                i as int + 1,
            ));
            assert(out@ =~= seq!['{'] + spec_entries(fields@.subrange(0, i as int + 1)));
        }
        i = i + 1;
    }
    out.append("}");
    proof {
        reveal_strlit("{");
        reveal_strlit("}");
        assert(fields@.subrange(0, n as int) =~= fields@);
        assert(out@ =~= spec_json_object(fields@));
    }
    out
}

} // verus!
