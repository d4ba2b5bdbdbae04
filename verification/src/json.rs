//! JSON documents: the values that the library works on, and the calls into
//! `serde_json` that read them from text and write them as text.

use serde_json::{Number, Value};
use vstd::prelude::*;

use crate::text::{opt_text, same_text};

verus! {

// ---------------------------------------------------------------------------
// The mathematical model
// ---------------------------------------------------------------------------

/// What a JSON number stands for.
///
/// A floating point number is held by the bits of its IEEE 754 binary64
/// representation.
pub enum NumberView {
    Integer(int),
    Float(u64),
}

/// What a JSON document stands for.
///
/// An object is a map: it has no order, and a key occurs at most once.
pub enum JsonView {
    Null,
    Bool(bool),
    Number(NumberView),
    Text(Seq<char>),
    Array(Seq<JsonView>),
    Object(Map<Seq<char>, JsonView>),
}

/// The map that results from inserting `entries` from left to right, so that
/// of two entries with one key the later one stays.
pub open spec fn entries_map(entries: Seq<(Seq<char>, JsonView)>) -> Map<Seq<char>, JsonView>
    decreases entries.len(),
{
    if entries.len() == 0 {
        Map::empty()
    } else {
        entries_map(entries.drop_last()).insert(entries.last().0, entries.last().1)
    }
}

/// The object with the given entries, inserted from left to right.
pub open spec fn object(entries: Seq<(Seq<char>, JsonView)>) -> JsonView {
    JsonView::Object(entries_map(entries))
}

/// Whether a binary64 bit pattern stands for a finite number: the eleven
/// exponent bits are not all ones.
pub open spec fn finite_bits(bits: u64) -> bool {
    (bits >> 52) & 0x7ff != 0x7ff
}

/// Whether two binary64 bit patterns of finite numbers stand for one number:
/// the patterns agree, or both are a zero of either sign.
pub open spec fn same_float(a: u64, b: u64) -> bool {
    a == b || (a & 0x7fff_ffff_ffff_ffff == 0 && b & 0x7fff_ffff_ffff_ffff == 0)
}

pub open spec fn finite_number(n: NumberView) -> bool {
    match n {
        NumberView::Integer(_) => true,
        NumberView::Float(bits) => finite_bits(bits),
    }
}

/// Whether two numbers are equal. An integer never equals a float.
pub open spec fn same_number(a: NumberView, b: NumberView) -> bool {
    match (a, b) {
        (NumberView::Integer(i), NumberView::Integer(j)) => i == j,
        (NumberView::Float(x), NumberView::Float(y)) => same_float(x, y),
        _ => false,
    }
}

/// Whether two documents are equal, array by item and object by key.
///
/// With `floats` false two floats count as equal whatever they are.
pub open spec fn alike(a: JsonView, b: JsonView, floats: bool) -> bool
    decreases a,
{
    match (a, b) {
        (JsonView::Null, JsonView::Null) => true,
        (JsonView::Bool(x), JsonView::Bool(y)) => x == y,
        (JsonView::Number(x), JsonView::Number(y)) => if floats {
            same_number(x, y)
        } else {
            same_number(x, y) || (x is Float && y is Float)
        },
        (JsonView::Text(x), JsonView::Text(y)) => x == y,
        (JsonView::Array(x), JsonView::Array(y)) => {
            &&& x.len() == y.len()
            &&& forall|i: int| 0 <= i < x.len() ==> alike(#[trigger] x[i], y[i], floats)
        },
        (JsonView::Object(x), JsonView::Object(y)) => {
            &&& x.dom() == y.dom()
            &&& forall|k: Seq<char>| #[trigger] x.dom().contains(k) ==> alike(x[k], y[k], floats)
        },
        _ => false,
    }
}

/// Whether two documents are equal.
pub open spec fn same_json(a: JsonView, b: JsonView) -> bool {
    alike(a, b, true)
}

/// A document equals itself.
pub proof fn lemma_same_json_reflexive(v: JsonView)
    ensures
        same_json(v, v),
    decreases v,
{
    match v {
        JsonView::Array(items) => {
            assert forall|i: int| 0 <= i < items.len() implies alike(
                #[trigger] items[i],
                items[i],
                true,
            ) by {
                lemma_same_json_reflexive(items[i]);
            }
        },
        JsonView::Object(map) => {
            assert forall|k: Seq<char>| #[trigger] map.dom().contains(k) implies alike(
                map[k],
                map[k],
                true,
            ) by {
                lemma_same_json_reflexive(map[k]);
            }
        },
        _ => {},
    }
}

/// Whether every number in the document is finite.
pub open spec fn all_finite(v: JsonView) -> bool
    decreases v,
{
    match v {
        JsonView::Number(n) => finite_number(n),
        JsonView::Array(items) => forall|i: int|
            0 <= i < items.len() ==> all_finite(#[trigger] items[i]),
        JsonView::Object(map) => forall|k: Seq<char>|
            #[trigger] map.dom().contains(k) ==> all_finite(map[k]),
        _ => true,
    }
}

/// Whether arrays and objects are nested at most `n` deep.
pub open spec fn depth_at_most(v: JsonView, n: nat) -> bool
    decreases n,
{
    match v {
        JsonView::Array(items) => n > 0 && forall|i: int|
            0 <= i < items.len() ==> depth_at_most(#[trigger] items[i], (n - 1) as nat),
        JsonView::Object(map) => n > 0 && forall|k: Seq<char>|
            #[trigger] map.dom().contains(k) ==> depth_at_most(map[k], (n - 1) as nat),
        _ => true,
    }
}

/// The number as an unsigned 64-bit integer, where it is one.
pub open spec fn number_as_u64(n: NumberView) -> Option<u64> {
    match n {
        NumberView::Integer(i) if 0 <= i <= u64::MAX => Some(i as u64),
        _ => None,
    }
}

/// The number as a signed 64-bit integer, where it is one.
pub open spec fn number_as_i64(n: NumberView) -> Option<i64> {
    match n {
        NumberView::Integer(i) if i64::MIN <= i <= i64::MAX => Some(i as i64),
        _ => None,
    }
}

// ---------------------------------------------------------------------------
// serde_json
// ---------------------------------------------------------------------------

#[verifier::external_type_specification]
#[verifier::external_body]
pub struct ExNumber(serde_json::Number);

#[verifier::external_type_specification]
#[verifier::external_body]
pub struct ExValue(serde_json::Value);

/// The number that a `serde_json::Number` holds.
pub uninterp spec fn number_of(number: serde_json::Number) -> NumberView;

/// The document that a `serde_json::Value` holds.
pub uninterp spec fn json_of(value: serde_json::Value) -> JsonView;

/// `serde_json::Number::as_u64`: the integer that the number holds, where it
/// lies in the range of `u64`.
pub assume_specification[ serde_json::Number::as_u64 ](number: &Number) -> (r: Option<u64>)
    ensures
        r == number_as_u64(number_of(*number)),
;

/// `serde_json::Number::as_i64`: the integer that the number holds, where it
/// lies in the range of `i64`.
pub assume_specification[ serde_json::Number::as_i64 ](number: &Number) -> (r: Option<i64>)
    ensures
        r == number_as_i64(number_of(*number)),
;

/// `<serde_json::Number as Clone>::clone`: a number that holds the same.
pub assume_specification[ <serde_json::Number as Clone>::clone ](number: &Number) -> (r: Number)
    ensures
        number_of(r) == number_of(*number),
;

/// One level of a `serde_json::Value`.
enum ValueNode<'a> {
    Null,
    Bool(bool),
    Number(&'a Number),
    Text(&'a String),
    Array(&'a Vec<Value>),
    Object(Vec<(&'a String, &'a Value)>),
}

spec fn node_view(node: ValueNode<'_>) -> JsonView {
    match node {
        ValueNode::Null => JsonView::Null,
        ValueNode::Bool(b) => JsonView::Bool(b),
        ValueNode::Number(n) => JsonView::Number(number_of(*n)),
        ValueNode::Text(s) => JsonView::Text(s@),
        ValueNode::Array(items) => JsonView::Array(
            Seq::new(items@.len(), |i: int| json_of(items@[i])),
        ),
        ValueNode::Object(pairs) => object(
            Seq::new(pairs@.len(), |i: int| (pairs@[i].0@, json_of(*pairs@[i].1))),
        ),
    }
}

/// Tells the variants of `serde_json::Value` apart and hands out what the
/// variant holds. The entries of an object come from `serde_json::Map::iter`,
/// which gives each key once.
#[verifier::external_body]
fn open_value<'a>(value: &'a Value) -> (node: ValueNode<'a>)
    ensures
        node_view(node) == json_of(*value),
        node matches ValueNode::Object(pairs) ==> forall|i: int, j: int|
            0 <= i < j < pairs@.len() ==> pairs@[i].0@ != pairs@[j].0@,
{
    match value {
        Value::Null => ValueNode::Null,
        Value::Bool(b) => ValueNode::Bool(*b),
        Value::Number(n) => ValueNode::Number(n),
        Value::String(s) => ValueNode::Text(s),
        Value::Array(items) => ValueNode::Array(items),
        Value::Object(map) => ValueNode::Object(map.iter().collect()),
    }
}

/// What `build_value` makes a `serde_json::Value` of.
enum ValueParts {
    Null,
    Bool(bool),
    Number(Number),
    Text(String),
    Array(Vec<Value>),
    Object(Vec<(String, Value)>),
}

spec fn parts_view(parts: ValueParts) -> JsonView {
    match parts {
        ValueParts::Null => JsonView::Null,
        ValueParts::Bool(b) => JsonView::Bool(b),
        ValueParts::Number(n) => JsonView::Number(number_of(n)),
        ValueParts::Text(s) => JsonView::Text(s@),
        ValueParts::Array(items) => JsonView::Array(
            Seq::new(items@.len(), |i: int| json_of(items@[i])),
        ),
        ValueParts::Object(pairs) => object(
            Seq::new(pairs@.len(), |i: int| (pairs@[i].0@, json_of(pairs@[i].1))),
        ),
    }
}

/// Makes a `serde_json::Value` of the variant that the parts name. The entries
/// of an object go through `serde_json::Map::extend`, which updates a key that is
/// already there, so that of two entries with one key the later one stays.
#[verifier::external_body]
fn build_value(parts: ValueParts) -> (value: Value)
    ensures
        json_of(value) == parts_view(parts),
{
    match parts {
        ValueParts::Null => Value::Null,
        ValueParts::Bool(b) => Value::Bool(b),
        ValueParts::Number(n) => Value::Number(n),
        ValueParts::Text(s) => Value::String(s),
        ValueParts::Array(items) => Value::Array(items),
        ValueParts::Object(pairs) => {
            let mut map = serde_json::Map::new();
            map.extend(pairs);
            Value::Object(map)
        },
    }
}

/// `<serde_json::Number as From<u64>>::from`: the number that holds the integer.
#[verifier::external_body]
fn number_from_u64(n: u64) -> (number: Number)
    ensures
        number_of(number) == NumberView::Integer(n as int),
{
    Number::from(n)
}

/// `<serde_json::Number as From<i64>>::from`: the number that holds the integer.
#[verifier::external_body]
fn number_from_i64(n: i64) -> (number: Number)
    ensures
        number_of(number) == NumberView::Integer(n as int),
{
    Number::from(n)
}

/// `<serde_json::Number as PartialEq>::eq`: integers compare as integers, floats
/// as finite floats, and an integer never equals a float.
#[verifier::external_body]
fn numbers_equal(a: &Number, b: &Number) -> (r: bool)
    ensures
        r == same_number(number_of(*a), number_of(*b)),
{
    a == b
}

/// `serde_json::Number::as_f64`, with the number handed out as its bits. A float
/// gives its own bits. An integer gives those of a float near it, which is finite.
#[verifier::external_body]
fn number_bits(number: &Number) -> (r: Option<u64>)
    ensures
        match number_of(*number) {
            NumberView::Float(bits) => r == Some(bits),
            NumberView::Integer(_) => r matches Some(bits) && finite_bits(bits),
        },
{
    number.as_f64().map(|n| n.to_bits())
}

/// Whether a number is finite: whether the eleven exponent bits are not all ones.
fn number_is_finite(number: &Number) -> (r: bool)
    ensures
        r == finite_number(number_of(*number)),
{
    match number_bits(number) {
        Some(bits) => (bits >> 52) & 0x7ff != 0x7ff,
        None => true,
    }
}

#[verifier::external_type_specification]
#[verifier::external_body]
pub struct ExJsonError(serde_json::Error);

/// The message of a `serde_json::Error`.
pub uninterp spec fn error_text(error: serde_json::Error) -> Seq<char>;

/// What `serde_json::from_str` makes of a text: the document that it holds, or
/// the message of the error.
pub uninterp spec fn parsed_json(text: Seq<char>) -> Result<JsonView, Seq<char>>;

/// The compact text that `serde_json::to_string` gives a document.
pub uninterp spec fn json_text(json: JsonView) -> Seq<char>;

/// The message of a `serde_json::Error`, as its `Display` writes it.
#[verifier::external_body]
fn error_message(error: &serde_json::Error) -> (message: String)
    ensures
        message@ == error_text(*error),
{
    error.to_string()
}

/// `serde_json::from_str::<Value>`: the document that the text holds, or an
/// error. The outcome is a function of the text. Every number that it yields is
/// finite: one out of the range of a binary64 is an error. What it yields is not
/// nested deeper than `max_depth`: a text that is nested deeper is an error.
#[verifier::external_body]
fn parse_value(text: &str) -> (r: Result<Value, serde_json::Error>)
    ensures
        match r {
            Ok(value) => parsed_json(text@) == Ok::<JsonView, Seq<char>>(json_of(value))
                && all_finite(json_of(value)) && depth_at_most(json_of(value), max_depth()),
            Err(error) => parsed_json(text@) == Err::<JsonView, Seq<char>>(error_text(error)),
        },
{
    serde_json::from_str(text)
}

/// How deeply nested a document `serde_json::from_str` still reads.
pub open spec fn max_depth() -> nat {
    127
}

/// Whether a text holds a document, but for the exact value of its floats.
pub open spec fn holds(text: Seq<char>, v: JsonView) -> bool {
    parsed_json(text) matches Ok(w) && alike(v, w, false)
}

/// Whether a document can be written as one line and read back from it: its
/// text has neither a line feed nor a carriage return, and holds the document.
pub open spec fn reads_back(v: JsonView) -> bool {
    &&& !json_text(v).contains('\n')
    &&& !json_text(v).contains('\r')
    &&& holds(json_text(v), v)
}

/// `serde_json::to_string` on a `Value`. It succeeds, since the keys are strings
/// and the numbers finite. The text is compact and all control characters in it
/// are escaped. `serde_json::from_str` reads a text that is not nested too
/// deeply, and finds the same document in it, but that the last digits of a
/// float may differ.
#[verifier::external_body]
fn value_to_string(value: &Value) -> (r: Result<String, serde_json::Error>)
    ensures
        r is Ok,
        r->Ok_0@ == json_text(json_of(*value)),
        !r->Ok_0@.contains('\n'),
        !r->Ok_0@.contains('\r'),
        depth_at_most(json_of(*value), max_depth()) ==> holds(r->Ok_0@, json_of(*value)),
{
    serde_json::to_string(value)
}

/// The compact text that `serde_json` gives an object with the given entries, in
/// their order.
pub uninterp spec fn entries_text(entries: Seq<(Seq<char>, JsonView)>) -> Seq<char>;

/// What the entries of an object stand for, with the values as `serde_json` has
/// them.
spec fn value_entries(pairs: Seq<(String, Value)>) -> Seq<(Seq<char>, JsonView)> {
    Seq::new(pairs.len(), |i: int| (pairs[i].0@, json_of(pairs[i].1)))
}

/// Whether the values of some entries are nested so that an object with these
/// entries can be read.
pub open spec fn entries_readable(entries: Seq<(Seq<char>, JsonView)>) -> bool {
    forall|i: int|
        0 <= i < entries.len() ==> depth_at_most(
            (#[trigger] entries[i]).1,
            (max_depth() - 1) as nat,
        )
}

/// `serde::Serializer::collect_map` on a `serde_json::Serializer`: an object with
/// the entries in their order. It succeeds, since the keys are strings and the
/// numbers finite. The text is compact and all control characters in it are
/// escaped. `serde_json::from_str` reads a text that is not nested too deeply, and
/// finds the object in it, but that the last digits of a float may differ.
#[verifier::external_body]
fn entries_to_string(pairs: Vec<(String, Value)>) -> (r: Result<String, serde_json::Error>)
    ensures
        r is Ok,
        r->Ok_0@ == entries_text(value_entries(pairs@)),
        !r->Ok_0@.contains('\n'),
        !r->Ok_0@.contains('\r'),
        entries_readable(value_entries(pairs@)) ==> holds(
            r->Ok_0@,
            object(value_entries(pairs@)),
        ),
{
    let mut bytes = Vec::new();
    let mut serializer = serde_json::Serializer::new(&mut bytes);
    serde::Serializer::collect_map(&mut serializer, pairs)?;
    Ok(String::from_utf8_lossy(&bytes).into_owned())
}

/// A JSON document.
///
/// Of two entries of an object with one key the later one counts.
#[derive(Debug)]
pub enum Json {
    Null,
    Bool(bool),
    Number(Number),
    Text(String),
    Array(Vec<Json>),
    Object(Vec<(String, Json)>),
}

/// What a document stands for.
pub open spec fn json_view(j: Json) -> JsonView
    decreases j,
{
    match j {
        Json::Null => JsonView::Null,
        Json::Bool(b) => JsonView::Bool(b),
        Json::Number(n) => JsonView::Number(number_of(n)),
        Json::Text(s) => JsonView::Text(s@),
        Json::Array(items) => JsonView::Array(items_view(items@)),
        Json::Object(pairs) => object(pairs_view(pairs@)),
    }
}

/// What the items of an array stand for.
pub open spec fn items_view(items: Seq<Json>) -> Seq<JsonView>
    decreases items,
{
    Seq::new(
        items.len(),
        |i: int| if 0 <= i < items.len() { json_view(items[i]) } else { JsonView::Null },
    )
}

/// What the entries of an object stand for.
pub open spec fn pairs_view(pairs: Seq<(String, Json)>) -> Seq<(Seq<char>, JsonView)>
    decreases pairs,
{
    Seq::new(
        pairs.len(),
        |i: int|
            if 0 <= i < pairs.len() {
                (pairs[i].0@, json_view(pairs[i].1))
            } else {
                (Seq::empty(), JsonView::Null)
            },
    )
}

impl View for Json {
    type V = JsonView;

    open spec fn view(&self) -> JsonView {
        json_view(*self)
    }
}

/// The keys of `entries_map` are those of the entries, and a key has the value
/// of its last entry.
pub proof fn lemma_entries_map(entries: Seq<(Seq<char>, JsonView)>, key: Seq<char>, i: int)
    requires
        0 <= i < entries.len(),
        entries[i].0 == key,
        forall|j: int| i < j < entries.len() ==> (#[trigger] entries[j]).0 != key,
    ensures
        entries_map(entries).dom().contains(key),
        entries_map(entries)[key] == entries[i].1,
    decreases entries.len(),
{
    if i < entries.len() - 1 {
        assert(entries[entries.len() - 1].0 != key);
        lemma_entries_map(entries.drop_last(), key, i);
    }
}

pub proof fn lemma_entries_map_keys(entries: Seq<(Seq<char>, JsonView)>, i: int)
    requires
        0 <= i < entries.len(),
    ensures
        entries_map(entries).dom().contains(entries[i].0),
    decreases entries.len(),
{
    if i < entries.len() - 1 {
        lemma_entries_map_keys(entries.drop_last(), i);
    }
}

/// A key of `entries_map` is that of some entry, the last of which gives its
/// value.
pub proof fn lemma_entries_map_index(
    entries: Seq<(Seq<char>, JsonView)>,
    key: Seq<char>,
) -> (i: int)
    requires
        entries_map(entries).dom().contains(key),
    ensures
        0 <= i < entries.len(),
        entries[i].0 == key,
        entries_map(entries)[key] == entries[i].1,
    decreases entries.len(),
{
    if entries.last().0 == key {
        entries.len() - 1
    } else {
        lemma_entries_map_index(entries.drop_last(), key)
    }
}

pub proof fn lemma_entries_map_finite(entries: Seq<(Seq<char>, JsonView)>)
    ensures
        entries_map(entries).dom().finite(),
    decreases entries.len(),
{
    if entries.len() > 0 {
        lemma_entries_map_finite(entries.drop_last());
    }
}

pub proof fn lemma_entries_map_absent(entries: Seq<(Seq<char>, JsonView)>, key: Seq<char>)
    requires
        forall|j: int| 0 <= j < entries.len() ==> (#[trigger] entries[j]).0 != key,
    ensures
        !entries_map(entries).dom().contains(key),
    decreases entries.len(),
{
    if entries.len() > 0 {
        assert(entries[entries.len() - 1].0 != key);
        assert forall|j: int| 0 <= j < entries.drop_last().len() implies (
        #[trigger] entries.drop_last()[j]).0 != key by {
            assert(entries[j].0 != key);
        }
        lemma_entries_map_absent(entries.drop_last(), key);
    }
}

/// Entries behind others are inserted over them.
pub proof fn lemma_entries_map_concat(
    a: Seq<(Seq<char>, JsonView)>,
    b: Seq<(Seq<char>, JsonView)>,
)
    ensures
        entries_map(a + b) == entries_map(a).union_prefer_right(entries_map(b)),
    decreases b.len(),
{
    if b.len() == 0 {
        assert(a + b =~= a);
        assert(entries_map(a).union_prefer_right(entries_map(b)) =~= entries_map(a));
    } else {
        lemma_entries_map_concat(a, b.drop_last());
        assert((a + b).drop_last() =~= a + b.drop_last());
        assert(entries_map(a + b) =~= entries_map(a).union_prefer_right(entries_map(b)));
    }
}

/// What is nested at most `n` deep is nested at most `m` deep, for a larger `m`.
pub proof fn lemma_depth_monotone(v: JsonView, n: nat, m: nat)
    requires
        depth_at_most(v, n),
        n <= m,
    ensures
        depth_at_most(v, m),
    decreases n,
{
    match v {
        JsonView::Array(items) => {
            assert forall|i: int| 0 <= i < items.len() implies depth_at_most(
                #[trigger] items[i],
                (m - 1) as nat,
            ) by {
                lemma_depth_monotone(items[i], (n - 1) as nat, (m - 1) as nat);
            }
        },
        JsonView::Object(map) => {
            assert forall|k: Seq<char>| #[trigger] map.dom().contains(k) implies depth_at_most(
                map[k],
                (m - 1) as nat,
            ) by {
                lemma_depth_monotone(map[k], (n - 1) as nat, (m - 1) as nat);
            }
        },
        _ => {},
    }
}

/// An object is nested one deeper than its entries.
pub proof fn lemma_object_depth(entries: Seq<(Seq<char>, JsonView)>, n: nat)
    requires
        forall|i: int| 0 <= i < entries.len() ==> depth_at_most((#[trigger] entries[i]).1, n),
    ensures
        depth_at_most(object(entries), n + 1),
{
    let map = entries_map(entries);
    assert forall|k: Seq<char>| #[trigger] map.dom().contains(k) implies depth_at_most(
        map[k],
        n,
    ) by {
        let i = lemma_entries_map_index(entries, k);
    }
}

/// The value under `key`, where the document is an object that has the key.
pub open spec fn field(v: JsonView, key: Seq<char>) -> Option<JsonView> {
    match v {
        JsonView::Object(map) => if map.dom().contains(key) {
            Some(map[key])
        } else {
            None
        },
        _ => None,
    }
}

/// The text under `key`, where there is one.
pub open spec fn text_field(v: JsonView, key: Seq<char>) -> Option<Seq<char>> {
    match field(v, key) {
        Some(JsonView::Text(s)) => Some(s),
        _ => None,
    }
}

/// The unsigned integer under `key`, where there is one.
pub open spec fn u64_field(v: JsonView, key: Seq<char>) -> Option<u64> {
    match field(v, key) {
        Some(JsonView::Number(n)) => number_as_u64(n),
        _ => None,
    }
}

/// The signed integer under `key`, where there is one.
pub open spec fn i64_field(v: JsonView, key: Seq<char>) -> Option<i64> {
    match field(v, key) {
        Some(JsonView::Number(n)) => number_as_i64(n),
        _ => None,
    }
}

proof fn lemma_item_not_finite(items: Seq<JsonView>, i: int)
    requires
        0 <= i < items.len(),
        !all_finite(items[i]),
    ensures
        !all_finite(JsonView::Array(items)),
{
    let v = JsonView::Array(items);
    if all_finite(v) {
        assert(all_finite(v->Array_0[i]));
    }
}

proof fn lemma_entry_not_finite(map: Map<Seq<char>, JsonView>, key: Seq<char>)
    requires
        map.dom().contains(key),
        !all_finite(map[key]),
    ensures
        !all_finite(JsonView::Object(map)),
{
    let v = JsonView::Object(map);
    if all_finite(v) {
        assert(v->Object_0.dom().contains(key));
    }
}

impl Json {
    /// The document that a `serde_json::Value` holds.
    pub fn from_value(value: &Value) -> (json: Json)
        ensures
            json@ == json_of(*value),
        decreases json_of(*value),
    {
        let json = match open_value(value) {
            ValueNode::Null => Json::Null,
            ValueNode::Bool(b) => Json::Bool(b),
            ValueNode::Number(n) => Json::Number(n.clone()),
            ValueNode::Text(s) => Json::Text(s.clone()),
            ValueNode::Array(items) => {
                let ghost views = json_of(*value)->Array_0;
                let mut copies: Vec<Json> = Vec::new();
                for i in 0..items.len()
                    invariant
                        copies@.len() == i,
                        json_of(*value) == JsonView::Array(views),
                        views == Seq::new(items@.len(), |i: int| json_of(items@[i])),
                        forall|j: int| 0 <= j < i ==> (#[trigger] copies@[j])@ == json_of(items@[j]),
                {
                    assert(views[i as int] == json_of(items@[i as int]));
                    assert(decreases_to!(json_of(*value) => json_of(*value)->Array_0));
                    assert(decreases_to!(views => views[i as int]));
                    copies.push(Json::from_value(&items[i]));
                }
                assert(items_view(copies@) =~= views);
                Json::Array(copies)
            },
            ValueNode::Object(pairs) => {
                let ghost entries = Seq::new(
                    pairs@.len(),
                    |i: int| (pairs@[i].0@, json_of(*pairs@[i].1)),
                );
                let mut copies: Vec<(String, Json)> = Vec::new();
                for i in 0..pairs.len()
                    invariant
                        copies@.len() == i,
                        json_of(*value) == object(entries),
                        entries == Seq::new(
                            pairs@.len(),
                            |i: int| (pairs@[i].0@, json_of(*pairs@[i].1)),
                        ),
                        forall|i: int, j: int|
                            0 <= i < j < pairs@.len() ==> pairs@[i].0@ != pairs@[j].0@,
                        forall|j: int|
                            0 <= j < i ==> (#[trigger] copies@[j]).0@ == pairs@[j].0@
                                && copies@[j].1@ == json_of(*pairs@[j].1),
                {
                    proof {
                        let map = entries_map(entries);
                        let key = entries[i as int].0;
                        lemma_entries_map(entries, key, i as int);
                        lemma_entries_map_finite(entries);
                        assert(decreases_to!(json_of(*value) => json_of(*value)->Object_0));
                        assert(decreases_to!(map => map[key]));
                    }
                    let copy = Json::from_value(pairs[i].1);
                    copies.push((pairs[i].0.clone(), copy));
                }
                assert(pairs_view(copies@) =~= entries);
                Json::Object(copies)
            },
        };
        json
    }

    /// The `serde_json::Value` that holds the document.
    pub fn to_value(&self) -> (value: Value)
        ensures
            json_of(value) == self@,
        decreases self,
    {
        match self {
            Json::Null => build_value(ValueParts::Null),
            Json::Bool(b) => build_value(ValueParts::Bool(*b)),
            Json::Number(n) => build_value(ValueParts::Number(n.clone())),
            Json::Text(s) => build_value(ValueParts::Text(s.clone())),
            Json::Array(items) => {
                let mut values: Vec<Value> = Vec::new();
                for i in 0..items.len()
                    invariant
                        *self == Json::Array(*items),
                        values@.len() == i,
                        forall|j: int| 0 <= j < i ==> json_of(#[trigger] values@[j]) == items@[j]@,
                {
                    assert(decreases_to!(*self => self->Array_0));
                    assert(decreases_to!(self->Array_0@ => self->Array_0@[i as int]));
                    values.push(items[i].to_value());
                }
                assert(Seq::new(values@.len(), |i: int| json_of(values@[i])) =~= items_view(
                    items@,
                ));
                build_value(ValueParts::Array(values))
            },
            Json::Object(pairs) => {
                let mut values: Vec<(String, Value)> = Vec::new();
                for i in 0..pairs.len()
                    invariant
                        *self == Json::Object(*pairs),
                        values@.len() == i,
                        forall|j: int|
                            0 <= j < i ==> (#[trigger] values@[j]).0@ == pairs@[j].0@ && json_of(
                                values@[j].1,
                            ) == pairs@[j].1@,
                {
                    assert(decreases_to!(*self => self->Object_0));
                    assert(decreases_to!(self->Object_0@ => self->Object_0@[i as int]));
                    values.push((pairs[i].0.clone(), pairs[i].1.to_value()));
                }
                assert(Seq::new(values@.len(), |i: int| (values@[i].0@, json_of(values@[i].1)))
                    =~= pairs_view(pairs@));
                build_value(ValueParts::Object(values))
            },
        }
    }

    /// A document that holds the same.
    pub fn copy(&self) -> (json: Json)
        ensures
            json@ == self@,
        decreases self,
    {
        match self {
            Json::Null => Json::Null,
            Json::Bool(b) => Json::Bool(*b),
            Json::Number(n) => Json::Number(n.clone()),
            Json::Text(s) => Json::Text(s.clone()),
            Json::Array(items) => {
                let mut copies: Vec<Json> = Vec::new();
                for i in 0..items.len()
                    invariant
                        *self == Json::Array(*items),
                        copies@.len() == i,
                        forall|j: int| 0 <= j < i ==> (#[trigger] copies@[j])@ == items@[j]@,
                {
                    assert(decreases_to!(*self => self->Array_0));
                    assert(decreases_to!(self->Array_0@ => self->Array_0@[i as int]));
                    copies.push(items[i].copy());
                }
                assert(items_view(copies@) =~= items_view(items@));
                Json::Array(copies)
            },
            Json::Object(pairs) => {
                let mut copies: Vec<(String, Json)> = Vec::new();
                for i in 0..pairs.len()
                    invariant
                        *self == Json::Object(*pairs),
                        copies@.len() == i,
                        forall|j: int|
                            0 <= j < i ==> (#[trigger] copies@[j]).0@ == pairs@[j].0@
                                && copies@[j].1@ == pairs@[j].1@,
                {
                    assert(decreases_to!(*self => self->Object_0));
                    assert(decreases_to!(self->Object_0@ => self->Object_0@[i as int]));
                    copies.push((pairs[i].0.clone(), pairs[i].1.copy()));
                }
                assert(pairs_view(copies@) =~= pairs_view(pairs@));
                Json::Object(copies)
            },
        }
    }

    /// The document that a text holds, or the message of the error.
    pub fn parse(text: &str) -> (r: Result<Json, String>)
        ensures
            match r {
                Ok(json) => {
                    &&& parsed_json(text@) == Ok::<JsonView, Seq<char>>(json@)
                    &&& all_finite(json@)
                    &&& depth_at_most(json@, max_depth())
                },
                Err(message) => parsed_json(text@) == Err::<JsonView, Seq<char>>(message@),
            },
    {
        match parse_value(text) {
            Ok(value) => Ok(Json::from_value(&value)),
            Err(error) => Err(error_message(&error)),
        }
    }

    /// The document as compact text, without a line feed or a carriage return in it.
    pub fn to_text(&self) -> (text: String)
        ensures
            text@ == json_text(self@),
            !text@.contains('\n'),
            !text@.contains('\r'),
            depth_at_most(self@, max_depth()) ==> reads_back(self@),
    {
        let value = self.to_value();
        match value_to_string(&value) {
            Ok(text) => text,
            // A document always has a text.
            Err(_) => String::new(),
        }
    }

    /// The value under `key`, where the document is an object that has the key.
    pub fn get(&self, key: &str) -> (r: Option<&Json>)
        ensures
            match r {
                Some(json) => field(self@, key@) == Some(json@),
                None => field(self@, key@) is None,
            },
    {
        match self {
            Json::Object(pairs) => match last_entry(pairs, key) {
                Some(i) => Some(&pairs[i].1),
                None => None,
            },
            _ => None,
        }
    }

    /// The text, where the document is one.
    pub fn as_str(&self) -> (r: Option<&str>)
        ensures
            match r {
                Some(text) => self@ == JsonView::Text(text@),
                None => !(self@ is Text),
            },
    {
        match self {
            Json::Text(s) => Some(s.as_str()),
            _ => None,
        }
    }

    /// The text under `key`, where there is one.
    pub fn get_str(&self, key: &str) -> (r: Option<&str>)
        ensures
            match r {
                Some(text) => text_field(self@, key@) == Some(text@),
                None => text_field(self@, key@) is None,
            },
    {
        match self.get(key) {
            Some(json) => json.as_str(),
            None => None,
        }
    }

    /// The unsigned integer under `key`, where there is one.
    pub fn get_u64(&self, key: &str) -> (r: Option<u64>)
        ensures
            r == u64_field(self@, key@),
    {
        match self.get(key) {
            Some(Json::Number(n)) => n.as_u64(),
            _ => None,
        }
    }

    /// The signed integer under `key`, where there is one.
    pub fn get_i64(&self, key: &str) -> (r: Option<i64>)
        ensures
            r == i64_field(self@, key@),
    {
        match self.get(key) {
            Some(Json::Number(n)) => n.as_i64(),
            _ => None,
        }
    }

    /// Whether the two documents are equal.
    pub fn equals(&self, other: &Json) -> (r: bool)
        ensures
            r == same_json(self@, other@),
        decreases self,
    {
        match (self, other) {
            (Json::Null, Json::Null) => true,
            (Json::Bool(a), Json::Bool(b)) => *a == *b,
            (Json::Number(a), Json::Number(b)) => numbers_equal(a, b),
            (Json::Text(a), Json::Text(b)) => *a == *b,
            (Json::Array(a), Json::Array(b)) => {
                let ghost x = items_view(a@);
                let ghost y = items_view(b@);
                if a.len() != b.len() {
                    return false;
                }
                for i in 0..a.len()
                    invariant
                        *self == Json::Array(*a),
                        self@ == JsonView::Array(x),
                        other@ == JsonView::Array(y),
                        x == items_view(a@),
                        y == items_view(b@),
                        a@.len() == b@.len(),
                        forall|j: int| 0 <= j < i ==> alike(#[trigger] x[j], y[j], true),
                {
                    if !a[i].equals(&b[i]) {
                        assert(!alike(x[i as int], y[i as int], true));
                        return false;
                    }
                }
                true
            },
            (Json::Object(a), Json::Object(b)) => {
                let ghost x = entries_map(pairs_view(a@));
                let ghost y = entries_map(pairs_view(b@));
                for i in 0..a.len()
                    invariant
                        *self == Json::Object(*a),
                        self@ == JsonView::Object(x),
                        other@ == JsonView::Object(y),
                        x == entries_map(pairs_view(a@)),
                        y == entries_map(pairs_view(b@)),
                        forall|j: int|
                            0 <= j < i ==> y.dom().contains(#[trigger] a@[j].0@) && alike(
                                x[a@[j].0@],
                                y[a@[j].0@],
                                true,
                            ),
                {
                    let ghost key = a@[i as int].0@;
                    match (last_entry(a, a[i].0.as_str()), last_entry(b, a[i].0.as_str())) {
                        (Some(j), Some(k)) => {
                            if !a[j].1.equals(&b[k].1) {
                                assert(!alike(x[key], y[key], true));
                                return false;
                            }
                        },
                        _ => {
                            proof {
                                lemma_entries_map_keys(pairs_view(a@), i as int);
                            }
                            assert(x.dom().contains(key) && !y.dom().contains(key));
                            return false;
                        },
                    }
                }
                for i in 0..b.len()
                    invariant
                        self@ == JsonView::Object(x),
                        other@ == JsonView::Object(y),
                        x == entries_map(pairs_view(a@)),
                        y == entries_map(pairs_view(b@)),
                        forall|j: int| 0 <= j < i ==> x.dom().contains(#[trigger] b@[j].0@),
                {
                    if last_entry(a, b[i].0.as_str()).is_none() {
                        proof {
                            lemma_entries_map_keys(pairs_view(b@), i as int);
                        }
                        assert(y.dom().contains(b@[i as int].0@) && !x.dom().contains(
                            b@[i as int].0@,
                        ));
                        return false;
                    }
                }
                proof {
                    assert forall|k: Seq<char>| #[trigger]
                        x.dom().contains(k) implies y.dom().contains(k) && alike(
                        x[k],
                        y[k],
                        true,
                    ) by {
                        let j = lemma_entries_map_index(pairs_view(a@), k);
                        assert(a@[j].0@ == k);
                    }
                    assert forall|k: Seq<char>| #[trigger]
                        y.dom().contains(k) implies x.dom().contains(k) by {
                        let j = lemma_entries_map_index(pairs_view(b@), k);
                        assert(b@[j].0@ == k);
                    }
                    assert(x.dom() =~= y.dom());
                }
                true
            },
            _ => false,
        }
    }

    /// Whether every number in the document is finite.
    pub fn is_finite(&self) -> (r: bool)
        ensures
            r == all_finite(self@),
        decreases self,
    {
        match self {
            Json::Number(n) => number_is_finite(n),
            Json::Array(items) => {
                let ghost x = items_view(items@);
                for i in 0..items.len()
                    invariant
                        *self == Json::Array(*items),
                        self@ == JsonView::Array(x),
                        x == items_view(items@),
                        forall|j: int| 0 <= j < i ==> all_finite(#[trigger] x[j]),
                {
                    if !items[i].is_finite() {
                        proof {
                            lemma_item_not_finite(x, i as int);
                        }
                        return false;
                    }
                }
                true
            },
            Json::Object(pairs) => {
                let ghost x = entries_map(pairs_view(pairs@));
                for i in 0..pairs.len()
                    invariant
                        *self == Json::Object(*pairs),
                        self@ == JsonView::Object(x),
                        x == entries_map(pairs_view(pairs@)),
                        forall|j: int| 0 <= j < i ==> all_finite(x[#[trigger] pairs@[j].0@]),
                {
                    match last_entry(pairs, pairs[i].0.as_str()) {
                        Some(k) => {
                            if !pairs[k].1.is_finite() {
                                proof {
                                    lemma_entry_not_finite(x, pairs@[i as int].0@);
                                }
                                return false;
                            }
                        },
                        None => {
                            proof {
                                lemma_entries_map_keys(pairs_view(pairs@), i as int);
                            }
                        },
                    }
                }
                proof {
                    assert forall|k: Seq<char>| #[trigger]
                        x.dom().contains(k) implies all_finite(x[k]) by {
                        let j = lemma_entries_map_index(pairs_view(pairs@), k);
                        assert(pairs@[j].0@ == k);
                    }
                }
                true
            },
            _ => true,
        }
    }
}

/// The document for an integer.
pub open spec fn int_json(n: int) -> JsonView {
    JsonView::Number(NumberView::Integer(n))
}

/// The document for a text that may be missing.
pub open spec fn opt_text_json(text: Option<Seq<char>>) -> JsonView {
    match text {
        Some(text) => JsonView::Text(text),
        None => JsonView::Null,
    }
}

/// The document for an unsigned integer that may be missing.
pub open spec fn opt_u64_json(n: Option<u64>) -> JsonView {
    match n {
        Some(n) => int_json(n as int),
        None => JsonView::Null,
    }
}

/// The document for a signed integer that may be missing.
pub open spec fn opt_i64_json(n: Option<i64>) -> JsonView {
    match n {
        Some(n) => int_json(n as int),
        None => JsonView::Null,
    }
}

/// The document for a number that may be missing.
pub open spec fn opt_number_json(n: Option<Number>) -> JsonView {
    match n {
        Some(n) => JsonView::Number(number_of(n)),
        None => JsonView::Null,
    }
}

impl Json {
    /// The document for a text.
    pub fn text(text: &str) -> (json: Json)
        ensures
            json@ == JsonView::Text(text@),
    {
        Json::Text(text.to_owned())
    }

    /// The document for an unsigned integer.
    pub fn unsigned(n: u64) -> (json: Json)
        ensures
            json@ == int_json(n as int),
    {
        Json::Number(number_from_u64(n))
    }

    /// The document for a signed integer.
    pub fn signed(n: i64) -> (json: Json)
        ensures
            json@ == int_json(n as int),
    {
        Json::Number(number_from_i64(n))
    }

    /// The document for a text that may be missing.
    pub fn opt_text(text: &Option<String>) -> (json: Json)
        ensures
            json@ == opt_text_json(opt_text(*text)),
    {
        match text {
            Some(text) => Json::text(text.as_str()),
            None => Json::Null,
        }
    }

    /// The document for an unsigned integer that may be missing.
    pub fn opt_unsigned(n: Option<u64>) -> (json: Json)
        ensures
            json@ == opt_u64_json(n),
    {
        match n {
            Some(n) => Json::unsigned(n),
            None => Json::Null,
        }
    }

    /// The document for a signed integer that may be missing.
    pub fn opt_signed(n: Option<i64>) -> (json: Json)
        ensures
            json@ == opt_i64_json(n),
    {
        match n {
            Some(n) => Json::signed(n),
            None => Json::Null,
        }
    }

    /// The document for a number that may be missing.
    pub fn opt_number(n: Option<Number>) -> (json: Json)
        ensures
            json@ == opt_number_json(n),
    {
        match n {
            Some(n) => Json::Number(n),
            None => Json::Null,
        }
    }
}

/// The entries of an object, with the values as `serde_json` has them.
fn pairs_to_values(pairs: &Vec<(String, Json)>) -> (values: Vec<(String, Value)>)
    ensures
        value_entries(values@) == pairs_view(pairs@),
{
    let mut values: Vec<(String, Value)> = Vec::new();
    for i in 0..pairs.len()
        invariant
            values@.len() == i,
            forall|j: int|
                0 <= j < i ==> (#[trigger] values@[j]).0@ == pairs@[j].0@ && json_of(values@[j].1)
                    == pairs@[j].1@,
    {
        values.push((pairs[i].0.clone(), pairs[i].1.to_value()));
    }
    assert(value_entries(values@) =~= pairs_view(pairs@));
    values
}

/// The object with the given entries as compact text, with the entries in their
/// order and without a line feed.
pub fn entries_line(pairs: &Vec<(String, Json)>) -> (text: String)
    ensures
        text@ == entries_text(pairs_view(pairs@)),
        !text@.contains('\n'),
        !text@.contains('\r'),
        entries_readable(pairs_view(pairs@)) ==> holds(text@, object(pairs_view(pairs@))),
{
    match entries_to_string(pairs_to_values(pairs)) {
        Ok(text) => text,
        // An object always has a text.
        Err(_) => String::new(),
    }
}

/// An entry of an object.
pub(crate) fn entry(key: &str, value: Json) -> (pair: (String, Json))
    ensures
        pair.0@ == key@,
        pair.1@ == value@,
{
    (key.to_owned(), value)
}

/// The index of the last entry with the key, where there is one.
fn last_entry(pairs: &Vec<(String, Json)>, key: &str) -> (r: Option<usize>)
    ensures
        match r {
            Some(i) => {
                &&& i < pairs@.len()
                &&& entries_map(pairs_view(pairs@)).dom().contains(key@)
                &&& entries_map(pairs_view(pairs@))[key@] == pairs@[i as int].1@
            },
            None => !entries_map(pairs_view(pairs@)).dom().contains(key@),
        },
{
    let ghost entries = pairs_view(pairs@);
    let mut i: usize = pairs.len();
    while i > 0
        invariant
            i <= pairs@.len(),
            entries == pairs_view(pairs@),
            forall|j: int| i <= j < pairs@.len() ==> (#[trigger] entries[j]).0 != key@,
        decreases i,
    {
        i = i - 1;
        if same_text(pairs[i].0.as_str(), key) {
            proof {
                lemma_entries_map(entries, key@, i as int);
            }
            return Some(i);
        }
    }
    proof {
        lemma_entries_map_absent(entries, key@);
    }
    None
}

// ---------------------------------------------------------------------------
// What documents say
// ---------------------------------------------------------------------------

/// A document stands for what it is made of: a text for its characters, an array for
/// its items in their order, and an object for the last entry under each key.
pub proof fn law_document_stands_for_its_parts(
    text: String,
    number: Number,
    items: Vec<Json>,
    pairs: Vec<(String, Json)>,
    i: int,
)
    ensures
        Json::Null@ == JsonView::Null,
        Json::Bool(true)@ == JsonView::Bool(true),
        Json::Bool(false)@ == JsonView::Bool(false),
        Json::Number(number)@ == JsonView::Number(number_of(number)),
        Json::Text(text)@ == JsonView::Text(text@),
        Json::Array(items)@ matches JsonView::Array(views) && views.len() == items@.len() && (0 <= i
            < items@.len() ==> views[i] == items@[i]@),
        Json::Object(pairs)@ is Object,
        0 <= i < pairs@.len() && (forall|j: int|
            i < j < pairs@.len() ==> (#[trigger] pairs@[j]).0@ != pairs@[i].0@) ==> field(
            Json::Object(pairs)@,
            pairs@[i].0@,
        ) == Some(pairs@[i].1@),
{
    if 0 <= i < pairs@.len() && (forall|j: int|
        i < j < pairs@.len() ==> (#[trigger] pairs@[j]).0@ != pairs@[i].0@) {
        let entries = pairs_view(pairs@);
        assert forall|j: int| i < j < entries.len() implies (#[trigger] entries[j]).0
            != pairs@[i].0@ by {
            assert(pairs@[j].0@ != pairs@[i].0@);
        }
        lemma_entries_map(entries, pairs@[i].0@, i);
    }
}

/// A field is what stands under the key of an object. Where there is no object, or the
/// object lacks the key, there is no field.
pub proof fn law_field_is_what_stands_under_the_key(
    v: JsonView,
    map: Map<Seq<char>, JsonView>,
    key: Seq<char>,
    value: JsonView,
)
    ensures
        field(JsonView::Object(map), key) == Some(value) <==> map.dom().contains(key) && map[key]
            == value,
        field(JsonView::Object(map), key) is None <==> !map.dom().contains(key),
        !(v is Object) ==> field(v, key) is None,
{
}

/// A text field is a field that is a text, and an integer field one that is an integer
/// in the range that is asked for. Floats and texts are no integers.
pub proof fn law_typed_fields_are_fields(
    v: JsonView,
    key: Seq<char>,
    text: Seq<char>,
    unsigned: u64,
    signed: i64,
)
    ensures
        text_field(v, key) == Some(text) <==> field(v, key) == Some(JsonView::Text(text)),
        u64_field(v, key) == Some(unsigned) <==> field(v, key) == Some(
            JsonView::Number(NumberView::Integer(unsigned as int)),
        ),
        i64_field(v, key) == Some(signed) <==> field(v, key) == Some(
            JsonView::Number(NumberView::Integer(signed as int)),
        ),
{
}

/// Documents that are neither a float nor hold other documents are equal only to
/// themselves. Arrays are equal item by item, objects key by key, and documents of
/// different kinds never.
pub proof fn law_equality_of_documents(
    a: JsonView,
    b: JsonView,
    x: Seq<JsonView>,
    y: Seq<JsonView>,
    p: Map<Seq<char>, JsonView>,
    q: Map<Seq<char>, JsonView>,
)
    ensures
        a is Null || a is Bool || a is Text ==> (same_json(a, b) <==> a == b),
        a is Null || a is Bool || a is Text ==> (same_json(b, a) <==> a == b),
        a matches JsonView::Number(NumberView::Integer(_)) ==> (same_json(a, b) <==> a == b),
        a matches JsonView::Number(NumberView::Integer(_)) ==> (same_json(b, a) <==> a == b),
        same_json(JsonView::Array(x), JsonView::Array(y)) <==> x.len() == y.len() && forall|i: int|
            0 <= i < x.len() ==> same_json(#[trigger] x[i], y[i]),
        same_json(JsonView::Object(p), JsonView::Object(q)) <==> p.dom() == q.dom() && forall|
            k: Seq<char>,
        | #[trigger]
            p.dom().contains(k) ==> same_json(p[k], q[k]),
        same_json(a, b) ==> (a is Array <==> b is Array) && (a is Object <==> b is Object),
{
    let u = JsonView::Array(x);
    let v = JsonView::Array(y);
    if same_json(u, v) {
        assert forall|i: int| 0 <= i < x.len() implies same_json(#[trigger] x[i], y[i]) by {
            assert(alike(u->Array_0[i], v->Array_0[i], true));
        }
    }
    if x.len() == y.len() && (forall|i: int| 0 <= i < x.len() ==> same_json(#[trigger] x[i], y[i])) {
        assert forall|i: int| 0 <= i < x.len() implies alike(#[trigger] x[i], y[i], true) by {
            assert(same_json(x[i], y[i]));
        }
    }
    let s = JsonView::Object(p);
    let t = JsonView::Object(q);
    if same_json(s, t) {
        assert forall|k: Seq<char>| #[trigger] p.dom().contains(k) implies same_json(p[k], q[k]) by {
            assert(alike(s->Object_0[k], t->Object_0[k], true));
        }
    }
    if p.dom() == q.dom() && (forall|k: Seq<char>| #[trigger]
        p.dom().contains(k) ==> same_json(p[k], q[k])) {
        assert forall|k: Seq<char>| #[trigger] p.dom().contains(k) implies alike(
            p[k],
            q[k],
            true,
        ) by {
            assert(same_json(p[k], q[k]));
        }
    }
}

/// Two floats are equal where their bits are, or where both are a zero of either sign.
pub proof fn law_equality_of_floats(a: u64, b: u64)
    ensures
        same_json(
            JsonView::Number(NumberView::Float(a)),
            JsonView::Number(NumberView::Float(b)),
        ) <==> a == b || ((a == 0 || a == 0x8000_0000_0000_0000) && (b == 0 || b
            == 0x8000_0000_0000_0000)),
{
    assert((a & 0x7fff_ffff_ffff_ffff == 0) <==> (a == 0 || a == 0x8000_0000_0000_0000))
        by (bit_vector);
    assert((b & 0x7fff_ffff_ffff_ffff == 0) <==> (b == 0 || b == 0x8000_0000_0000_0000))
        by (bit_vector);
}

/// A document is finite where no number in it, however deep, has the bits of an
/// infinity or of no number: those whose bits without the sign reach those of infinity.
pub proof fn law_finite_documents(
    v: JsonView,
    bits: u64,
    items: Seq<JsonView>,
    map: Map<Seq<char>, JsonView>,
)
    ensures
        v is Null || v is Bool || v is Text ==> all_finite(v),
        v matches JsonView::Number(NumberView::Integer(_)) ==> all_finite(v),
        all_finite(JsonView::Number(NumberView::Float(bits))) <==> bits
            % 0x8000_0000_0000_0000 < 0x7ff0_0000_0000_0000,
        all_finite(JsonView::Array(items)) <==> forall|i: int|
            0 <= i < items.len() ==> all_finite(#[trigger] items[i]),
        all_finite(JsonView::Object(map)) <==> forall|k: Seq<char>| #[trigger]
            map.dom().contains(k) ==> all_finite(map[k]),
{
    assert(((bits >> 52) & 0x7ff != 0x7ff) <==> bits % 0x8000_0000_0000_0000
        < 0x7ff0_0000_0000_0000) by (bit_vector);
    let a = JsonView::Array(items);
    let o = JsonView::Object(map);
    if all_finite(a) {
        assert forall|i: int| 0 <= i < items.len() implies all_finite(#[trigger] items[i]) by {
            assert(all_finite(a->Array_0[i]));
        }
    }
    if all_finite(o) {
        assert forall|k: Seq<char>| #[trigger] map.dom().contains(k) implies all_finite(map[k]) by {
            assert(o->Object_0.dom().contains(k));
        }
    }
}

/// What is missing is written as null, and what is there as itself.
pub proof fn law_missing_values_are_null(
    n: int,
    text: Seq<char>,
    unsigned: u64,
    signed: i64,
    number: Number,
)
    ensures
        int_json(n) == JsonView::Number(NumberView::Integer(n)),
        opt_text_json(Some(text)) == JsonView::Text(text),
        opt_text_json(None) == JsonView::Null,
        opt_u64_json(Some(unsigned)) == JsonView::Number(NumberView::Integer(unsigned as int)),
        opt_u64_json(None) == JsonView::Null,
        opt_i64_json(Some(signed)) == JsonView::Number(NumberView::Integer(signed as int)),
        opt_i64_json(None) == JsonView::Null,
        opt_number_json(Some(number)) == JsonView::Number(number_of(number)),
        opt_number_json(None) == JsonView::Null,
{
}

/// A document that reads back is found again in its text: with the same keys, and with
/// the same texts, integers, truth values and nulls under them.
pub proof fn law_read_document_says_the_same(v: JsonView, w: JsonView, key: Seq<char>)
    requires
        reads_back(v),
        parsed_json(json_text(v)) == Ok::<JsonView, Seq<char>>(w),
    ensures
        !json_text(v).contains('\n'),
        !json_text(v).contains('\r'),
        field(v, key) is Some <==> field(w, key) is Some,
        text_field(v, key) == text_field(w, key),
        u64_field(v, key) == u64_field(w, key),
        i64_field(v, key) == i64_field(w, key),
        field(v, key) == Some(JsonView::Null) <==> field(w, key) == Some(JsonView::Null),
        field(v, key) == Some(JsonView::Bool(true)) <==> field(w, key) == Some(
            JsonView::Bool(true),
        ),
{
    if let JsonView::Object(x) = v {
        let y = w->Object_0;
        assert(x.dom() == y.dom());
        if x.dom().contains(key) {
            assert(alike(x[key], y[key], false));
        }
    }
}

/// How deep a document is nested: what holds no other document not at all, and an array
/// or an object one deeper than what it holds.
pub proof fn law_depth_counts_nesting(
    v: JsonView,
    items: Seq<JsonView>,
    map: Map<Seq<char>, JsonView>,
    n: nat,
)
    ensures
        !(v is Array || v is Object) ==> depth_at_most(v, 0),
        !depth_at_most(JsonView::Array(items), 0),
        !depth_at_most(JsonView::Object(map), 0),
        depth_at_most(JsonView::Array(items), n + 1) <==> forall|i: int|
            0 <= i < items.len() ==> depth_at_most(#[trigger] items[i], n),
        depth_at_most(JsonView::Object(map), n + 1) <==> forall|k: Seq<char>| #[trigger]
            map.dom().contains(k) ==> depth_at_most(map[k], n),
{
    let a = JsonView::Array(items);
    let o = JsonView::Object(map);
    if depth_at_most(a, n + 1) {
        assert forall|i: int| 0 <= i < items.len() implies depth_at_most(
            #[trigger] items[i],
            n,
        ) by {
            assert(depth_at_most(a->Array_0[i], n));
        }
    }
    if depth_at_most(o, n + 1) {
        assert forall|k: Seq<char>| #[trigger] map.dom().contains(k) implies depth_at_most(
            map[k],
            n,
        ) by {
            assert(o->Object_0.dom().contains(k));
        }
    }
}

} // verus!
