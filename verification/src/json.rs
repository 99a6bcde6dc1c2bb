//! JSON values and their compact text.
use serde_json::Value;
use vstd::prelude::*;

verus! {

#[verifier::external_type_specification]
#[verifier::external_body]
pub struct ExValue(serde_json::Value);

/// The compact JSON text of a value.
pub uninterp spec fn json_text(value: Value) -> Seq<char>;

/// The members of a value that is an object: the compact JSON text of each, by
/// its key. Any other value has no members.
pub uninterp spec fn json_members(value: Value) -> Map<Seq<char>, Seq<char>>;

/// The text of the member `key`, where a missing member counts as `null`.
pub open spec fn member_text(members: Map<Seq<char>, Seq<char>>, key: Seq<char>) -> Seq<char> {
    if members.contains_key(key) {
        members[key]
    } else {
        "null"@
    }
}

/// How a character is written inside a JSON string.
pub open spec fn escaped(c: char) -> Seq<char> {
    if c == '"' || c == '\\' {
        seq!['\\', c]
    } else if c == '\u{8}' {
        seq!['\\', 'b']
    } else if c == '\t' {
        seq!['\\', 't']
    } else if c == '\n' {
        seq!['\\', 'n']
    } else if c == '\u{c}' {
        seq!['\\', 'f']
    } else if c == '\r' {
        seq!['\\', 'r']
    } else if (c as int) < 32 {
        seq!['\\', 'u', '0', '0', crate::digest::hex_digit(c as int / 16), crate::digest::hex_digit(c as int % 16)]
    } else {
        seq![c]
    }
}

/// `text` as a JSON string.
pub open spec fn quoted(text: Seq<char>) -> Seq<char> {
    seq!['"'] + text.flat_map(|c: char| escaped(c)) + seq!['"']
}

/// `n` in decimal.
pub open spec fn decimal(n: nat) -> Seq<char>
    decreases n,
{
    if n < 10 {
        seq![('0' as int + n) as char]
    } else {
        decimal(n / 10).push(('0' as int + n % 10) as char)
    }
}

/// `parts` with a comma between any two of them.
pub open spec fn comma_separated(parts: Seq<Seq<char>>) -> Seq<char>
    decreases parts.len(),
{
    if parts.len() == 0 {
        Seq::empty()
    } else if parts.len() == 1 {
        parts[0]
    } else {
        comma_separated(parts.drop_last()) + seq![','] + parts.last()
    }
}

/// Whether `a` stands before `b` in a dictionary.
pub open spec fn precedes(a: Seq<char>, b: Seq<char>) -> bool
    decreases a.len(),
{
    if a.len() == 0 || b.len() == 0 {
        a.len() < b.len()
    } else {
        ||| (a[0] as int) < b[0] as int
        ||| a[0] == b[0] && precedes(a.drop_first(), b.drop_first())
    }
}

/// The text of a JSON array with these items.
pub open spec fn array_text(items: Seq<Value>) -> Seq<char> {
    seq!['['] + comma_separated(items.map_values(|item: Value| json_text(item))) + seq![']']
}

/// The text of one member of a JSON object.
pub open spec fn entry_text(entry: (String, Value)) -> Seq<char> {
    quoted(entry.0@) + seq![':'] + json_text(entry.1)
}

/// The text of a JSON object with these members, in this order.
pub open spec fn object_text(entries: Seq<(String, Value)>) -> Seq<char> {
    seq!['{'] + comma_separated(entries.map_values(|entry: (String, Value)| entry_text(entry)))
        + seq!['}']
}

/// `serde_json::Value::from(())`, the value `null`.
#[verifier::external_body]
pub(crate) fn json_null() -> (value: Value)
    ensures
        json_text(value) == "null"@,
{
    Value::from(())
}

/// `serde_json::Value::from` of a string: its text is the string in quotes,
/// with quotes, backslashes and control characters escaped.
#[verifier::external_body]
pub(crate) fn json_string(text: &str) -> (value: Value)
    ensures
        json_text(value) == quoted(text@),
{
    Value::from(text)
}

/// `serde_json::Value::from` of a number: its text is the number in decimal.
#[verifier::external_body]
pub(crate) fn json_number(n: u64) -> (value: Value)
    ensures
        json_text(value) == decimal(n as nat),
{
    Value::from(n)
}

/// `serde_json::Value::from` of a vector: its text is that of the items,
/// separated by commas, in brackets.
#[verifier::external_body]
pub(crate) fn json_array(items: Vec<Value>) -> (value: Value)
    ensures
        json_text(value) == array_text(items@),
{
    Value::from(items)
}

/// `serde_json::Value::from_iter` of keys and values. The object holds its
/// members in the order of their keys, so the keys are asked for in that order;
/// the text then is that of the members, separated by commas, in braces.
#[verifier::external_body]
pub(crate) fn json_object(entries: Vec<(String, Value)>) -> (value: Value)
    requires
        forall|i: int, j: int|
            0 <= i < j < entries@.len() ==> precedes(
                #[trigger] entries@[i].0@,
                #[trigger] entries@[j].0@,
            ),
    ensures
        json_text(value) == object_text(entries@),
{
    Value::from_iter(entries)
}

/// The index operator of `serde_json::Value` with a string: the member of that
/// key, or `null` where the value has no such member or is no object.
#[verifier::external_body]
pub(crate) fn json_member<'a>(value: &'a Value, key: &str) -> (member: &'a Value)
    ensures
        json_text(*member) == member_text(json_members(*value), key@),
{
    &value[key]
}

/// `serde_json::Value::to_string`, which gives the compact text.
#[verifier::external_body]
pub(crate) fn json_to_string(value: &Value) -> (text: String)
    ensures
        text@ == json_text(*value),
{
    value.to_string()
}

/// A text without quotes, backslashes and control characters stands in its
/// JSON string as it is.
pub proof fn lemma_quoted_plain(text: Seq<char>)
    requires
        forall|i: int|
            0 <= i < text.len() ==> #[trigger] text[i] as int >= 32 && text[i] != '"' && text[i]
                != '\\',
    ensures
        quoted(text) == seq!['"'] + text + seq!['"'],
{
    lemma_flat_map_plain(text);
}

proof fn lemma_flat_map_plain(text: Seq<char>)
    requires
        forall|i: int|
            0 <= i < text.len() ==> #[trigger] text[i] as int >= 32 && text[i] != '"' && text[i]
                != '\\',
    ensures
        text.flat_map(|c: char| escaped(c)) == text,
    decreases text.len(),
{
    let f = |c: char| escaped(c);
    let parts = text.map_values(f);
    if text.len() > 0 {
        let rest = text.drop_first();
        lemma_flat_map_plain(rest);
        assert(parts.drop_first() =~= rest.map_values(f));
    }
}

} // verus!
