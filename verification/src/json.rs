//! The boundary to `serde_json`.
//!
//! The crate parses and prints JSON; this library reads and builds the
//! resulting values. A `serde_json::Value` is opaque to the verifier, so the
//! contracts speak of the document it holds, [`doc_of`], as a mathematical
//! value of type [`JsonDoc`]. Everything in this module that carries a
//! contract without a proof is a statement about `serde_json`, listed here so
//! that it can be held against that crate's source:
//!
//! | item                 | `serde_json`                          |
//! |----------------------|---------------------------------------|
//! | [`parse_value`]      | `from_str::<Value>`                   |
//! | [`print_value`]      | `to_string::<Value>`                  |
//! | [`get_member`]       | `Value::get::<&str>`                  |
//! | `Value::as_str`      | itself                                |
//! | `Value::as_array`    | itself                                |
//! | `Value::is_null`     | itself                                |
//! | [`text_value`]       | `<Value as From<&str>>::from`         |
//! | [`list_value`]       | `<Value as From<Vec<Value>>>::from`   |
//! | [`object_value`]     | `<Map<String, Value> as FromIterator>::from_iter` |

use vstd::prelude::*;

verus! {

/// A JSON document as a mathematical value.
///
/// An object is the sequence of its members in the order in which
/// `serde_json` walks them, which with the `preserve_order` feature is the
/// order in which they were inserted. A number is kept without its value:
/// nothing in this library reads one.
pub enum JsonDoc {
    Null,
    Bool(bool),
    Number,
    Text(Seq<char>),
    List(Seq<JsonDoc>),
    Object(Seq<(Seq<char>, JsonDoc)>),
}

/// The value of the first member named `key`.
pub open spec fn member(members: Seq<(Seq<char>, JsonDoc)>, key: Seq<char>) -> Option<JsonDoc>
    decreases members.len(),
{
    if members.len() == 0 {
        None
    } else if members[0].0 == key {
        Some(members[0].1)
    } else {
        member(members.drop_first(), key)
    }
}

/// No two members share a name.
pub open spec fn distinct_keys(members: Seq<(Seq<char>, JsonDoc)>) -> bool {
    forall|i: int, j: int|
        0 <= i < j < members.len() ==> (#[trigger] members[i]).0 != (#[trigger] members[j]).0
}

impl JsonDoc {
    /// The member named `key`, if the document is an object that has one.
    pub open spec fn field(self, key: Seq<char>) -> Option<JsonDoc> {
        match self {
            JsonDoc::Object(members) => member(members, key),
            _ => None,
        }
    }

    /// The document holds no number, no object with a repeated key, and
    /// nests arrays and objects at most `depth` deep.
    pub open spec fn plain(self, depth: nat) -> bool
        decreases depth,
    {
        match self {
            JsonDoc::Number => false,
            JsonDoc::List(items) => depth > 0 && forall|i: int|
                0 <= i < items.len() ==> (#[trigger] items[i]).plain((depth - 1) as nat),
            JsonDoc::Object(members) => depth > 0 && distinct_keys(members) && forall|i: int|
                0 <= i < members.len() ==> (#[trigger] members[i]).1.plain((depth - 1) as nat),
            _ => true,
        }
    }
}

#[verifier::external_type_specification]
#[verifier::external_body]
pub struct ExValue(serde_json::Value);

#[verifier::external_type_specification]
#[verifier::external_body]
pub struct ExError(serde_json::Error);

/// The document that a `serde_json::Value` holds.
pub uninterp spec fn doc_of(value: serde_json::Value) -> JsonDoc;

/// The document that `serde_json::from_str` reads from `text`, or `None`
/// where it rejects the text.
pub uninterp spec fn parsed(text: Seq<char>) -> Option<JsonDoc>;

/// The compact text that `serde_json::to_string` writes for a document
/// without numbers.
pub uninterp spec fn printed(doc: JsonDoc) -> Seq<char>;

/// The documents that a vector of values holds, one by one.
pub open spec fn docs_of(values: Seq<serde_json::Value>) -> Seq<JsonDoc> {
    Seq::new(values.len(), |i: int| doc_of(values[i]))
}

/// The members that a vector of named values holds, one by one.
pub open spec fn members_of(pairs: Seq<(String, serde_json::Value)>) -> Seq<(Seq<char>, JsonDoc)> {
    Seq::new(pairs.len(), |i: int| (pairs[i].0@, doc_of(pairs[i].1)))
}

/// `serde_json::from_str` at `Value`: it accepts exactly the texts on which
/// [`parsed`] is defined, and the value it returns holds that document.
#[verifier::external_body]
pub(crate) fn parse_value(text: &str) -> (r: Result<serde_json::Value, serde_json::Error>)
    ensures
        match r {
            Ok(value) => parsed(text@) == Some(doc_of(value)),
            Err(_) => parsed(text@) is None,
        },
{
    serde_json::from_str::<serde_json::Value>(text)
}

/// `serde_json::to_string` at `Value`, which cannot fail there: a `Value`
/// has string keys and the text is written to memory. Claimed of a value
/// that is [`JsonDoc::plain`] to a depth of 100: the text is [`printed`] of
/// its document, and `serde_json::from_str` reads that text back as the same
/// document (its strings escaped and unescaped, its members in the same
/// order, its nesting below the parser's limit of 128).
#[verifier::external_body]
pub(crate) fn print_value(value: &serde_json::Value) -> (text: String)
    requires
        doc_of(*value).plain(100),
    ensures
        text@ == printed(doc_of(*value)),
        parsed(text@) == Some(doc_of(*value)),
{
    serde_json::to_string(value).unwrap_or_default()
}

/// `serde_json::Value::get` with a string index: the member of that name
/// where the value is an object that has one, `None` otherwise.
#[verifier::external_body]
pub(crate) fn get_member<'a>(value: &'a serde_json::Value, key: &str) -> (r: Option<
    &'a serde_json::Value,
>)
    ensures
        match r {
            Some(found) => doc_of(*value).field(key@) == Some(doc_of(*found)),
            None => doc_of(*value).field(key@) is None,
        },
{
    value.get(key)
}

/// The string where the value is one, `None` otherwise.
pub assume_specification[ serde_json::Value::as_str ](value: &serde_json::Value) -> (r: Option<
    &str,
>)
    ensures
        match r {
            Some(text) => doc_of(*value) == JsonDoc::Text(text@),
            None => !(doc_of(*value) is Text),
        },
;

/// The items where the value is an array, `None` otherwise.
pub assume_specification[ serde_json::Value::as_array ](value: &serde_json::Value) -> (r: Option<
    &Vec<serde_json::Value>,
>)
    ensures
        match r {
            Some(items) => doc_of(*value) == JsonDoc::List(docs_of(items@)),
            None => !(doc_of(*value) is List),
        },
;

/// Whether the value is `null`.
pub assume_specification[ serde_json::Value::is_null ](value: &serde_json::Value) -> (r: bool)
    ensures
        r == (doc_of(*value) is Null),
;

/// `Value::from` at `&str`: the string as a JSON value.
#[verifier::external_body]
pub(crate) fn text_value(text: &str) -> (value: serde_json::Value)
    ensures
        doc_of(value) == JsonDoc::Text(text@),
{
    serde_json::Value::from(text)
}

/// `Value::from` at `Vec<Value>`: the array of the given items.
#[verifier::external_body]
pub(crate) fn list_value(items: Vec<serde_json::Value>) -> (value: serde_json::Value)
    ensures
        doc_of(value) == JsonDoc::List(docs_of(items@)),
{
    serde_json::Value::from(items)
}

/// `Map::from_iter`, wrapped in `Value::Object`: the object of the given
/// members, in the given order. Claimed where no name is repeated; the map
/// would keep only the last value of a repeated one.
#[verifier::external_body]
pub(crate) fn object_value(members: Vec<(String, serde_json::Value)>) -> (value: serde_json::Value)
    requires
        distinct_keys(members_of(members@)),
    ensures
        doc_of(value) == JsonDoc::Object(members_of(members@)),
{
    serde_json::Value::Object(serde_json::Map::from_iter(members))
}

} // verus!
