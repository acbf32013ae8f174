//! JSON strings and request bodies made of text fields.
use vstd::prelude::*;

use crate::text::{chars_of, join, join_strings, owned, string_of};

verus! {

/// The lowercase hexadecimal digit of a value below sixteen.
pub open spec fn hex_digit_char(d: u32) -> char {
    if d == 0 { '0' } else if d == 1 { '1' } else if d == 2 { '2' } else if d == 3 { '3' }
    else if d == 4 { '4' } else if d == 5 { '5' } else if d == 6 { '6' } else if d == 7 { '7' }
    else if d == 8 { '8' } else if d == 9 { '9' } else if d == 10 { 'a' } else if d == 11 { 'b' }
    else if d == 12 { 'c' } else if d == 13 { 'd' } else if d == 14 { 'e' } else { 'f' }
}

/// How a character is written inside a JSON string: a quote and a
/// backslash are escaped with a backslash; backspace, tab, line feed, form
/// feed and carriage return by their short escapes; other control
/// characters (below U+0020) as `\u00` and two lowercase hexadecimal
/// digits; every other character as itself.
pub open spec fn escaped_char(c: char) -> Seq<char> {
    if c == '"' {
        seq!['\\', '"']
    } else if c == '\\' {
        seq!['\\', '\\']
    } else if c == '\u{8}' {
        seq!['\\', 'b']
    } else if c == '\t' {
        seq!['\\', 't']
    } else if c == '\n' {
        seq!['\\', 'n']
    } else if c == '\u{c}' {
        seq!['\\', 'f']
    } else if c == '\r' {
        seq!['\\', 'r']
    } else if (c as u32) < 0x20 {
        seq!['\\', 'u', '0', '0', hex_digit_char((c as u32) / 16), hex_digit_char((c as u32) % 16)]
    } else {
        seq![c]
    }
}

/// The characters of a text, each written as inside a JSON string.
pub open spec fn escaped_text(s: Seq<char>) -> Seq<char>
    decreases s.len(),
{
    if s.len() == 0 {
        Seq::empty()
    } else {
        escaped_text(s.drop_last()) + escaped_char(s.last())
    }
}

/// The JSON string literal for a text, as serde_json writes it: the
/// escaped characters between quotes.
pub open spec fn json_string_of(text: Seq<char>) -> Seq<char> {
    seq!['"'] + escaped_text(text) + seq!['"']
}

/// The lowercase hexadecimal digit of a value below sixteen.
fn hex_digit_exec(d: u32) -> (res: char)
    ensures
        res == hex_digit_char(d),
{
    if d == 0 { '0' } else if d == 1 { '1' } else if d == 2 { '2' } else if d == 3 { '3' }
    else if d == 4 { '4' } else if d == 5 { '5' } else if d == 6 { '6' } else if d == 7 { '7' }
    else if d == 8 { '8' } else if d == 9 { '9' } else if d == 10 { 'a' } else if d == 11 { 'b' }
    else if d == 12 { 'c' } else if d == 13 { 'd' } else if d == 14 { 'e' } else { 'f' }
}

/// Appends how a character is written inside a JSON string (see
/// `escaped_char`).
fn push_escaped(out: &mut Vec<char>, c: char)
    ensures
        final(out)@ == old(out)@ + escaped_char(c),
{
    let ghost before = out@;
    if c == '"' {
        out.push('\\');
        out.push('"');
    } else if c == '\\' {
        out.push('\\');
        out.push('\\');
    } else if c == '\u{8}' {
        out.push('\\');
        out.push('b');
    } else if c == '\t' {
        out.push('\\');
        out.push('t');
    } else if c == '\n' {
        out.push('\\');
        out.push('n');
    } else if c == '\u{c}' {
        out.push('\\');
        out.push('f');
    } else if c == '\r' {
        out.push('\\');
        out.push('r');
    } else if (c as u32) < 0x20 {
        out.push('\\');
        out.push('u');
        out.push('0');
        out.push('0');
        out.push(hex_digit_exec((c as u32) / 16));
        out.push(hex_digit_exec((c as u32) % 16));
    } else {
        out.push(c);
    }
    assert(out@ =~= before + escaped_char(c));
}

/// Writes a text as a JSON string literal (see `json_string_of`).
pub fn json_string(text: &str) -> (res: String)
    ensures
        res@ == json_string_of(text@),
{
    let chars = chars_of(text);
    let mut out: Vec<char> = Vec::new();
    out.push('"');
    let mut i: usize = 0;
    while i < chars.len()
        invariant
            i <= chars.len(),
            out@ == seq!['"'] + escaped_text(chars@.take(i as int)),
        decreases chars.len() - i,
    {
        assert(chars@.take(i + 1).drop_last() =~= chars@.take(i as int));
        assert(chars@.take(i + 1).last() == chars@[i as int]);
        push_escaped(&mut out, chars[i]);
        assert(out@ =~= seq!['"'] + escaped_text(chars@.take(i + 1)));
        i += 1;
    }
    assert(chars@.take(chars.len() as int) =~= chars@);
    out.push('"');
    assert(out@ =~= json_string_of(text@));
    string_of(&out)
}

/// One field of a JSON object: its name and value written as strings.
pub open spec fn field_text(field: (String, String)) -> Seq<char> {
    json_string_of(field.0@) + ":"@ + json_string_of(field.1@)
}

/// A JSON object of text fields, in the given order, written compactly.
pub open spec fn fields_object_text(fields: Seq<(String, String)>) -> Seq<char> {
    "{"@ + join(fields.map_values(|f: (String, String)| field_text(f)), ","@) + "}"@
}

/// Writes a JSON object of text fields, in order, compactly (see
/// `fields_object_text`).
pub fn fields_object(fields: &Vec<(String, String)>) -> (res: String)
    ensures
        res@ == fields_object_text(fields@),
{
    let mut parts: Vec<String> = Vec::new();
    let mut i: usize = 0;
    while i < fields.len()
        invariant
            i <= fields.len(),
            parts.len() == i,
            forall|j: int| 0 <= j < i ==> (#[trigger] parts@[j])@ == field_text(fields@[j]),
        decreases fields.len() - i,
    {
        let mut part = json_string(fields[i].0.as_str());
        part.append(":");
        let value = json_string(fields[i].1.as_str());
        part.append(value.as_str());
        parts.push(part);
        i += 1;
    }
    assert(parts@.map_values(|p: String| p@) =~= fields@.map_values(
        |f: (String, String)| field_text(f),
    ));
    let inner = join_strings(&parts, ",");
    let mut out = owned("{");
    out.append(inner.as_str());
    out.append("}");
    out
}

/// The body that replaces a Notion page's content with Markdown.
pub open spec fn notion_save_body_text(markdown: Seq<char>) -> Seq<char> {
    "{\"type\":\"replace_content\",\"replace_content\":{\"new_str\":"@ + json_string_of(markdown)
        + "}}"@
}

/// The body that replaces a Notion page's content (see
/// `notion_save_body_text`).
pub fn notion_save_body(markdown: &str) -> (res: String)
    ensures
        res@ == notion_save_body_text(markdown@),
{
    let mut out = owned("{\"type\":\"replace_content\",\"replace_content\":{\"new_str\":");
    let value = json_string(markdown);
    out.append(value.as_str());
    out.append("}}");
    out
}

} // verus!
