//! JSON documents as the relay reads them, and the JSON arrays it writes
//! back to clients. Parsing and printing are done by `serde_json`.

use vstd::prelude::*;
use crate::decimal::digit_char;

verus! {

/// Declares `serde_json::Value`, which Verus sees as opaque; only the
/// conversion below handles one.
#[verifier::external_type_specification]
#[verifier::external_body]
pub struct ExJsonValue(serde_json::Value);

/// A JSON document, holding what the relay reads of it.
pub enum JsonValue {
    Null,
    Bool(bool),
    /// A number: `Some` with its value when it is an integer in the range
    /// of `u64`, `None` for any other number.
    Number(Option<u64>),
    Str(String),
    Array(Vec<JsonValue>),
    /// The members of an object, each key once.
    Object(Vec<(String, JsonValue)>),
}

/// What `serde_json` parses `text` into, when it is one JSON document.
pub uninterp spec fn json_parse(text: Seq<char>) -> Option<JsonValue>;

/// Parses `text` with `serde_json::from_str` into a `serde_json::Value` and
/// converts that into a `JsonValue`; `None` when `serde_json` reports an
/// error. The contract names the result and says nothing of its content.
#[verifier::external_body]
pub(crate) fn parse_json(text: &str) -> (r: Option<JsonValue>)
    ensures
        r == json_parse(text@),
{
    serde_json::from_str::<serde_json::Value>(text).ok().map(json_from_value)
}

/// Converts a `serde_json::Value` variant by variant, keeping of a number
/// what `serde_json::Number::as_u64` returns. Nothing is stated of it: the
/// contract of `parse_json` covers the composition.
#[verifier::external_body]
fn json_from_value(v: serde_json::Value) -> JsonValue {
    match v {
        serde_json::Value::Null => JsonValue::Null,
        serde_json::Value::Bool(b) => JsonValue::Bool(b),
        serde_json::Value::Number(n) => JsonValue::Number(n.as_u64()),
        serde_json::Value::String(s) => JsonValue::Str(s),
        serde_json::Value::Array(a) => JsonValue::Array(a.into_iter().map(json_from_value).collect()),
        serde_json::Value::Object(m) => JsonValue::Object(
            m.into_iter().map(|(k, v)| (k, json_from_value(v))).collect(),
        ),
    }
}

/// The element at position `i` of an array; nothing for any other value.
pub open spec fn json_index(v: JsonValue, i: int) -> Option<JsonValue> {
    match v {
        JsonValue::Array(items) => if 0 <= i < items@.len() {
            Some(items@[i])
        } else {
            None
        },
        _ => None,
    }
}

/// The value of the first member named `key`.
pub open spec fn lookup(entries: Seq<(String, JsonValue)>, key: Seq<char>) -> Option<JsonValue>
    decreases entries.len(),
{
    if entries.len() == 0 {
        None
    } else if entries[0].0@ == key {
        Some(entries[0].1)
    } else {
        lookup(entries.drop_first(), key)
    }
}

/// The member `key` of an object; nothing for any other value.
pub open spec fn json_key(v: JsonValue, key: Seq<char>) -> Option<JsonValue> {
    match v {
        JsonValue::Object(entries) => lookup(entries@, key),
        _ => None,
    }
}

/// The text of a string value.
pub open spec fn json_as_str(v: JsonValue) -> Option<Seq<char>> {
    match v {
        JsonValue::Str(s) => Some(s@),
        _ => None,
    }
}

/// The value of an integer in the range of `u64`.
pub open spec fn json_as_u64(v: JsonValue) -> Option<u64> {
    match v {
        JsonValue::Number(Some(n)) => Some(n),
        _ => None,
    }
}

/// The referenced value, if any.
pub open spec fn opt_deref(o: Option<&JsonValue>) -> Option<JsonValue> {
    match o {
        Some(v) => Some(*v),
        None => None,
    }
}

impl JsonValue {
    /// The element at position `i` of an array.
    pub fn get_index(&self, i: usize) -> (r: Option<&JsonValue>)
        ensures
            opt_deref(r) == json_index(*self, i as int),
    {
        match self {
            JsonValue::Array(items) => if i < items.len() {
                Some(&items[i])
            } else {
                None
            },
            _ => None,
        }
    }

    /// The member `key` of an object.
    pub fn get_key(&self, key: &str) -> (r: Option<&JsonValue>)
        ensures
            opt_deref(r) == json_key(*self, key@),
    {
        match self {
            JsonValue::Object(entries) => {
                let wanted = key.to_owned();
                let mut i: usize = 0;
                proof {
                    assert(entries@.skip(0) =~= entries@);
                }
                while i < entries.len()
                    invariant
                        wanted@ == key@,
                        i <= entries.len(),
                        json_key(*self, key@) == lookup(entries@, key@),
                        lookup(entries@, key@) == lookup(entries@.skip(i as int), key@),
                    decreases entries.len() - i,
                {
                    proof {
                        assert(entries@.skip(i as int).drop_first() =~= entries@.skip(i + 1));
                        assert(entries@.skip(i as int)[0] == entries@[i as int]);
                    }
                    if entries[i].0 == wanted {
                        return Some(&entries[i].1);
                    }
                    i = i + 1;
                }
                None
            },
            _ => None,
        }
    }

    /// The text of a string value.
    pub fn as_str(&self) -> (r: Option<&str>)
        ensures
            match r {
                Some(t) => json_as_str(*self) == Some(t@),
                None => json_as_str(*self) is None,
            },
    {
        match self {
            JsonValue::Str(s) => Some(s.as_str()),
            _ => None,
        }
    }

    /// The value of an integer in the range of `u64`.
    pub fn as_u64(&self) -> (r: Option<u64>)
        ensures
            r == json_as_u64(*self),
    {
        match self {
            JsonValue::Number(Some(n)) => Some(*n),
            _ => None,
        }
    }
}

/// An element of a JSON array that the relay writes: a string or a boolean.
pub enum FrameItem {
    Text(String),
    Flag(bool),
}

/// The mathematical content of a `FrameItem`.
pub enum FrameItemView {
    Text(Seq<char>),
    Flag(bool),
}

impl View for FrameItem {
    type V = FrameItemView;

    open spec fn view(&self) -> FrameItemView {
        match self {
            FrameItem::Text(s) => FrameItemView::Text(s@),
            FrameItem::Flag(b) => FrameItemView::Flag(*b),
        }
    }
}

/// The views of a sequence of items.
pub open spec fn item_views(items: Seq<FrameItem>) -> Seq<FrameItemView> {
    items.map_values(|i: FrameItem| i@)
}

/// The lower case hexadecimal digit of a value below sixteen.
pub open spec fn hex_digit_lower(d: int) -> char {
    if d < 10 {
        digit_char(d as nat)
    } else if d == 10 {
        'a'
    } else if d == 11 {
        'b'
    } else if d == 12 {
        'c'
    } else if d == 13 {
        'd'
    } else if d == 14 {
        'e'
    } else {
        'f'
    }
}

/// How a character stands inside a JSON string: quotation mark and reverse
/// solidus behind a reverse solidus, the control characters with a short
/// escape where JSON has one and as `\u00XX` otherwise, every other
/// character as itself.
pub open spec fn json_escape_char(c: char) -> Seq<char> {
    let u: int = c as int;
    if u == 34 {
        seq!['\\', '"']
    } else if u == 92 {
        seq!['\\', '\\']
    } else if u == 8 {
        seq!['\\', 'b']
    } else if u == 9 {
        seq!['\\', 't']
    } else if u == 10 {
        seq!['\\', 'n']
    } else if u == 12 {
        seq!['\\', 'f']
    } else if u == 13 {
        seq!['\\', 'r']
    } else if u < 32 {
        seq!['\\', 'u', '0', '0', hex_digit_lower(u / 16), hex_digit_lower(u % 16)]
    } else {
        seq![c]
    }
}

/// The escaped contents of a JSON string.
pub open spec fn json_escape(s: Seq<char>) -> Seq<char>
    decreases s.len(),
{
    if s.len() == 0 {
        Seq::empty()
    } else {
        json_escape_char(s[0]) + json_escape(s.drop_first())
    }
}

/// The compact JSON text of one item.
pub open spec fn json_item_text(i: FrameItemView) -> Seq<char> {
    match i {
        FrameItemView::Text(s) => seq!['"'] + json_escape(s) + seq!['"'],
        FrameItemView::Flag(b) => if b {
            seq!['t', 'r', 'u', 'e']
        } else {
            seq!['f', 'a', 'l', 's', 'e']
        },
    }
}

/// The items' texts, separated by commas.
pub open spec fn json_items_text(items: Seq<FrameItemView>) -> Seq<char>
    decreases items.len(),
{
    if items.len() == 0 {
        Seq::empty()
    } else if items.len() == 1 {
        json_item_text(items[0])
    } else {
        json_item_text(items[0]) + seq![','] + json_items_text(items.drop_first())
    }
}

/// The compact JSON text of an array of the items.
pub open spec fn json_array_text(items: Seq<FrameItemView>) -> Seq<char> {
    seq!['['] + json_items_text(items) + seq![']']
}

/// Prints the items as a JSON array with `serde_json`'s `Display` for
/// `serde_json::Value` (the compact form): the contract states that text,
/// escapes included, as `serde_json`'s serializer writes it.
#[verifier::external_body]
pub(crate) fn encode_json_array(items: &Vec<FrameItem>) -> (r: String)
    ensures
        r@ == json_array_text(item_views(items@)),
{
    let values: Vec<serde_json::Value> = items.iter().map(|i| match i {
        FrameItem::Text(s) => serde_json::Value::String(s.clone()),
        FrameItem::Flag(b) => serde_json::Value::Bool(*b),
    }).collect();
    serde_json::Value::Array(values).to_string()
}

} // verus!
