//! The JSON text of a record: one object that holds, under the message's tag,
//! the object of its fields.

use vstd::prelude::*;
use vstd::string::StringExecFns;
use crate::decimal::{decimal_text, write_decimal};
use crate::hexcode::hex_digit;
use crate::text::push_char;

verus! {

/// How one character stands inside a JSON string: the quote, the backslash and
/// the control characters are escaped, everything else stands for itself.
pub open spec fn json_escape(c: char) -> Seq<char> {
    if c == '"' {
        seq!['\\', '"']
    } else if c == '\\' {
        seq!['\\', '\\']
    } else if c == '\u{8}' {
        seq!['\\', 'b']
    } else if c == '\u{c}' {
        seq!['\\', 'f']
    } else if c == '\n' {
        seq!['\\', 'n']
    } else if c == '\r' {
        seq!['\\', 'r']
    } else if c == '\t' {
        seq!['\\', 't']
    } else if (c as u32) < 0x20 {
        seq!['\\', 'u', '0', '0', hex_digit(c as int / 16), hex_digit(c as int % 16)]
    } else {
        seq![c]
    }
}

/// A text as a JSON string, between quotes.
pub open spec fn json_string(text: Seq<char>) -> Seq<char> {
    seq!['"'] + text.map_values(|c: char| json_escape(c)).flatten() + seq!['"']
}

/// One member of an object: its name as a string, a colon, its value.
pub open spec fn json_member(name: Seq<char>, value: Seq<char>) -> Seq<char> {
    json_string(name) + seq![':'] + value
}

/// A record: the object of a single member, named by the tag, whose value is the
/// object that holds `members`.
pub open spec fn json_record(tag: Seq<char>, members: Seq<char>) -> Seq<char> {
    seq!['{'] + json_member(tag, seq!['{'] + members + seq!['}']) + seq!['}']
}

/// Calls `serde_json::to_string` on a string slice. For a string it cannot fail:
/// it writes the quotes and, between them, each character as `json_escape` says.
#[verifier::external_body]
pub(crate) fn quote(text: &str) -> (quoted: Option<String>)
    ensures
        quoted is Some,
        quoted matches Some(q) ==> q@ == json_string(text@),
{
    ::serde_json::to_string(text).ok()
}

/// A member whose value is a string.
pub fn text_member(name: &str, value: &str) -> (member: String)
    ensures
        member@ == json_member(name@, json_string(value@)),
{
    let mut member = quote(name).unwrap();
    push_char(&mut member, ':');
    let quoted = quote(value).unwrap();
    member.append(quoted.as_str());
    member
}

/// A member whose value is a number.
pub fn number_member(name: &str, value: u8) -> (member: String)
    ensures
        member@ == json_member(name@, decimal_text(value as nat)),
{
    let mut member = quote(name).unwrap();
    push_char(&mut member, ':');
    write_decimal(value as usize, &mut member);
    member
}

/// Appends a comma and one more member.
pub fn add_member(members: &mut String, member: &str)
    ensures
        final(members)@ == old(members)@ + seq![','] + member@,
{
    push_char(members, ',');
    members.append(member);
}

/// The record of `tag` around `members`.
pub fn record(tag: &str, members: &str) -> (text: String)
    ensures
        text@ == json_record(tag@, members@),
{
    let mut object = String::new();
    push_char(&mut object, '{');
    object.append(members);
    push_char(&mut object, '}');
    assert(object@ =~= seq!['{'] + members@ + seq!['}']);
    let mut member = quote(tag).unwrap();
    push_char(&mut member, ':');
    member.append(object.as_str());
    let mut text = String::new();
    push_char(&mut text, '{');
    text.append(member.as_str());
    push_char(&mut text, '}');
    assert(text@ =~= seq!['{'] + member@ + seq!['}']);
    text
}

} // verus!
