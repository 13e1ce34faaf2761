//! JSON documents: what a `serde_json` value holds, and the calls that build
//! one and write it out.

use vstd::prelude::*;

verus! {

#[verifier::external_type_specification]
#[verifier::external_body]
pub struct ExValue(serde_json::Value);

#[verifier::external_type_specification]
#[verifier::external_body]
#[verifier::reject_recursive_types(K)]
#[verifier::reject_recursive_types(V)]
pub struct ExMembers<K, V>(serde_json::Map<K, V>);

/// What a JSON value holds.
pub enum JsonView {
    Null,
    Int(int),
    Text(Seq<char>),
    List(Seq<JsonView>),
    Object(Map<Seq<char>, JsonView>),
    /// A boolean or a fraction, told from the others by a number.
    Other(nat),
}

/// What a `serde_json::Value` holds.
pub uninterp spec fn holds(v: serde_json::Value) -> JsonView;

/// What a `serde_json::Map` holds: the value of each member, by its name.
pub uninterp spec fn members(
    m: serde_json::Map<String, serde_json::Value>,
) -> Map<Seq<char>, JsonView>;

/// The text that `Display` of a `serde_json::Value` writes for what it holds.
pub uninterp spec fn json_text(doc: JsonView) -> Seq<char>;

pub open spec fn no_members() -> Map<Seq<char>, JsonView> {
    Map::empty()
}

pub open spec fn all_hold(items: Seq<serde_json::Value>) -> Seq<JsonView> {
    Seq::new(items.len(), |i: int| holds(items[i]))
}

/// The variant `serde_json::Value::Null`, which is JSON's null.
#[verifier::external_body]
pub(crate) fn null_value() -> (v: serde_json::Value)
    ensures
        holds(v) == JsonView::Null,
{
    serde_json::Value::Null
}

/// `serde_json::Value::from` of an integer makes that number.
#[verifier::external_body]
pub(crate) fn int_value(n: i64) -> (v: serde_json::Value)
    ensures
        holds(v) == JsonView::Int(n as int),
{
    serde_json::Value::from(n)
}

/// `serde_json::Value::from` of a string slice makes that text.
#[verifier::external_body]
pub(crate) fn text_value(s: &str) -> (v: serde_json::Value)
    ensures
        holds(v) == JsonView::Text(s@),
{
    serde_json::Value::from(s)
}

/// The variant `serde_json::Value::Array` holds its items in their order.
#[verifier::external_body]
pub(crate) fn list_value(items: Vec<serde_json::Value>) -> (v: serde_json::Value)
    ensures
        holds(v) == JsonView::List(all_hold(items@)),
{
    serde_json::Value::Array(items)
}

/// `serde_json::Map::new` makes a map without members.
#[verifier::external_body]
pub(crate) fn new_members() -> (m: serde_json::Map<String, serde_json::Value>)
    ensures
        members(m) == no_members(),
{
    serde_json::Map::new()
}

/// `serde_json::Map::insert` gives the name its value. A value that the name
/// had before is replaced.
#[verifier::external_body]
pub(crate) fn insert_member(
    m: &mut serde_json::Map<String, serde_json::Value>,
    name: &str,
    value: serde_json::Value,
)
    ensures
        members(*final(m)) == members(*old(m)).insert(name@, holds(value)),
{
    m.insert(name.to_owned(), value);
}

/// The variant `serde_json::Value::Object` holds the members of its map.
#[verifier::external_body]
pub(crate) fn object_value(m: serde_json::Map<String, serde_json::Value>) -> (v: serde_json::Value)
    ensures
        holds(v) == JsonView::Object(members(m)),
{
    serde_json::Value::Object(m)
}

/// `Display` of a `serde_json::Value` writes compact JSON, with the members of
/// an object in the order of their names. The contract claims that the text is
/// determined by what the value holds.
#[verifier::external_body]
pub(crate) fn value_text(v: &serde_json::Value) -> (s: String)
    ensures
        s@ == json_text(holds(*v)),
{
    v.to_string()
}

/// A list holds what its items hold, one for one.
pub proof fn lists_hold_their_items(items: Seq<serde_json::Value>, i: int)
    requires
        0 <= i < items.len(),
    ensures
        all_hold(items).len() == items.len(),
        all_hold(items)[i] == holds(items[i]),
        forall|name: Seq<char>| !no_members().contains_key(name),
{
}

} // verus!
