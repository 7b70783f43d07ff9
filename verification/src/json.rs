//! JSON values, and the reading and writing of JSON text with `serde_json`.

use vstd::prelude::*;

use crate::text::same_text;

verus! {

/// A JSON number as `serde_json` holds it.
#[verifier::external_type_specification]
#[verifier::external_body]
pub struct ExNumber(serde_json::Number);

/// A JSON value as `serde_json` holds it.
#[verifier::external_type_specification]
#[verifier::external_body]
pub struct ExValue(serde_json::Value);

/// The fields of an object as `serde_json` holds them.
#[verifier::external_type_specification]
#[verifier::external_body]
#[verifier::reject_recursive_types(K)]
#[verifier::reject_recursive_types(V)]
pub struct ExMap<K, V>(serde_json::Map<K, V>);

/// The reason for which `serde_json` rejects a text.
#[verifier::external_type_specification]
#[verifier::external_body]
pub struct ExError(serde_json::Error);

/// What a JSON number holds: an integer, or a finite float by its IEEE 754 bits.
pub enum NumberTree {
    Integer(int),
    Float(u64),
}

/// The mathematical content of a JSON value.
pub enum JsonTree {
    Null,
    Bool(bool),
    Number(NumberTree),
    Text(Seq<char>),
    List(Seq<JsonTree>),
    Object(Map<Seq<char>, JsonTree>),
}

impl JsonTree {
    /// The field `key` of an object; `None` where there is none, or no object.
    pub open spec fn field(self, key: Seq<char>) -> Option<JsonTree> {
        match self {
            JsonTree::Object(fields) => if fields.contains_key(key) {
                Some(fields[key])
            } else {
                None
            },
            _ => None,
        }
    }

    /// The text that the field `key` holds, `default` where it holds none.
    pub open spec fn text_or(self, key: Seq<char>, default: Seq<char>) -> Seq<char> {
        match self.field(key) {
            Some(JsonTree::Text(text)) => text,
            _ => default,
        }
    }

    /// The text that the field `key` holds, if it holds one.
    pub open spec fn text_at(self, key: Seq<char>) -> Option<Seq<char>> {
        match self.field(key) {
            Some(JsonTree::Text(text)) => Some(text),
            _ => None,
        }
    }

    /// The truth value that the field `key` holds, `default` where it holds none.
    pub open spec fn bool_or(self, key: Seq<char>, default: bool) -> bool {
        match self.field(key) {
            Some(JsonTree::Bool(b)) => b,
            _ => default,
        }
    }

    /// The items of the list that the field `key` holds, none where it holds no list.
    pub open spec fn items_at(self, key: Seq<char>) -> Seq<JsonTree> {
        match self.field(key) {
            Some(JsonTree::List(items)) => items,
            _ => Seq::empty(),
        }
    }

    /// The field `key`, or null.
    pub open spec fn field_or_null(self, key: Seq<char>) -> JsonTree {
        match self.field(key) {
            Some(tree) => tree,
            None => JsonTree::Null,
        }
    }

    /// The number that the field `key` holds as the bits of a float, those of zero
    /// where it holds none.
    pub open spec fn float_bits_at(self, key: Seq<char>) -> u64 {
        match self.field(key) {
            Some(JsonTree::Number(number)) => float_bits(number),
            _ => 0,
        }
    }
}

/// The texts among some items, in order.
pub open spec fn texts_among(items: Seq<JsonTree>) -> Seq<Seq<char>>
    decreases items.len(),
{
    if items.len() == 0 {
        Seq::empty()
    } else {
        let earlier = texts_among(items.drop_last());
        match items.last() {
            JsonTree::Text(text) => earlier.push(text),
            _ => earlier,
        }
    }
}

/// A JSON value.
///
/// An object is a list of entries; where a key occurs more than once, its last
/// entry counts.
#[derive(Debug, PartialEq)]
pub enum Json {
    Null,
    Bool(bool),
    Number(serde_json::Number),
    Text(String),
    List(Vec<Json>),
    Object(Vec<(String, Json)>),
}

/// The content of a value.
pub open spec fn json_tree(json: Json) -> JsonTree
    decreases json,
{
    match json {
        Json::Null => JsonTree::Null,
        Json::Bool(b) => JsonTree::Bool(b),
        Json::Number(n) => JsonTree::Number(number_content(n)),
        Json::Text(s) => JsonTree::Text(s@),
        Json::List(items) => JsonTree::List(list_trees(items@)),
        Json::Object(entries) => JsonTree::Object(entry_map(entries@)),
    }
}

/// The contents of the items of a list.
pub open spec fn list_trees(items: Seq<Json>) -> Seq<JsonTree>
    decreases items,
{
    Seq::new(
        items.len(),
        |i: int|
            if 0 <= i < items.len() {
                json_tree(items[i])
            } else {
                JsonTree::Null
            },
    )
}

/// The entries of an object as a map: the last entry of a key counts.
pub open spec fn entry_map(entries: Seq<(String, Json)>) -> Map<Seq<char>, JsonTree>
    decreases entries,
{
    if entries.len() == 0 {
        Map::empty()
    } else {
        entry_map(entries.drop_last()).insert(entries.last().0@, json_tree(entries.last().1))
    }
}

/// What a `serde_json::Number` holds.
pub uninterp spec fn number_content(number: serde_json::Number) -> NumberTree;

/// What a `serde_json::Value` holds.
pub uninterp spec fn value_content(value: serde_json::Value) -> JsonTree;

/// What a `serde_json::Map` holds.
pub uninterp spec fn map_content(map: serde_json::Map<String, serde_json::Value>) -> Map<
    Seq<char>,
    JsonTree,
>;

/// What `serde_json::from_str` reads from a text as a `Value`; `None` where it fails.
pub uninterp spec fn json_document(text: Seq<char>) -> Option<JsonTree>;

/// The compact text that the `Display` of `serde_json::Value` gives of a value.
pub uninterp spec fn json_text(tree: JsonTree) -> Seq<char>;

/// The bits of the float that `serde_json::Number::as_f64` gives of an integer.
pub uninterp spec fn integer_float_bits(n: int) -> u64;

/// The bits of a number as a float: those that it holds where it is one.
pub open spec fn float_bits(number: NumberTree) -> u64 {
    match number {
        NumberTree::Integer(n) => integer_float_bits(n),
        NumberTree::Float(bits) => bits,
    }
}

/// How deep `serde_json` follows lists and objects inside one another when it reads.
pub const MAX_NESTING: u8 = 127;

/// Whether lists and objects are nested at most `depth` deep, with no float among
/// the numbers.
pub open spec fn plain_to_depth(tree: JsonTree, depth: nat) -> bool
    decreases depth,
{
    match tree {
        JsonTree::Number(n) => n is Integer,
        JsonTree::List(items) => depth > 0 && forall|i: int|
            0 <= i < items.len() ==> plain_to_depth(#[trigger] items[i], (depth - 1) as nat),
        JsonTree::Object(fields) => depth > 0 && forall|key: Seq<char>|
            fields.contains_key(key) ==> plain_to_depth(
                #[trigger] fields[key],
                (depth - 1) as nat,
            ),
        _ => true,
    }
}

/// Whether lists and objects are nested at most `depth` deep, and every float among the
/// numbers is below two to the power of 1023 in magnitude.
pub open spec fn readable_to_depth(tree: JsonTree, depth: nat) -> bool
    decreases depth,
{
    match tree {
        JsonTree::Number(NumberTree::Float(bits)) => is_below_top(bits),
        JsonTree::List(items) => depth > 0 && forall|i: int|
            0 <= i < items.len() ==> readable_to_depth(#[trigger] items[i], (depth - 1) as nat),
        JsonTree::Object(fields) => depth > 0 && forall|key: Seq<char>|
            fields.contains_key(key) ==> readable_to_depth(
                #[trigger] fields[key],
                (depth - 1) as nat,
            ),
        _ => true,
    }
}

/// Whether a float is below two to the power of 1023 in magnitude, by its IEEE 754 bits.
pub open spec fn is_below_top(bits: u64) -> bool {
    bits as int % 0x8000_0000_0000_0000 < 0x7fe0_0000_0000_0000
}

/// Whether two values are the same but for what their floats are: a float stands where a
/// float stands.
pub open spec fn same_but_floats(a: JsonTree, b: JsonTree) -> bool
    decreases a,
{
    match (a, b) {
        (JsonTree::Number(NumberTree::Float(_)), JsonTree::Number(NumberTree::Float(_))) => true,
        (JsonTree::List(x), JsonTree::List(y)) => x.len() == y.len() && forall|i: int|
            0 <= i < x.len() ==> same_but_floats(#[trigger] x[i], y[i]),
        (JsonTree::Object(x), JsonTree::Object(y)) => x.dom() == y.dom() && forall|key: Seq<char>|
            x.contains_key(key) ==> same_but_floats(#[trigger] x[key], y[key]),
        _ => a == b,
    }
}

/// Calls `serde_json::Number::from` for `usize`: the number is that integer.
#[verifier::external_body]
pub(crate) fn unsigned_number(n: usize) -> (number: serde_json::Number)
    ensures
        number_content(number) == NumberTree::Integer(n as int),
{
    serde_json::Number::from(n)
}

/// Calls `serde_json::Number::as_f64`, and gives the bits of the float. Every number has
/// one. A number that holds a float gives that float; what an integer gives is named, as
/// a function of the integer alone.
#[verifier::external_body]
fn number_float_bits(number: &serde_json::Number) -> (bits: Option<u64>)
    ensures
        bits == match number_content(*number) {
            NumberTree::Integer(n) => Some(integer_float_bits(n)),
            NumberTree::Float(own) => Some(own),
        },
{
    number.as_f64().map(|x| x.to_bits())
}

/// `serde_json::Number::clone`: the copy is the number.
pub assume_specification[ <serde_json::Number as Clone>::clone ](
    number: &serde_json::Number,
) -> (copy: serde_json::Number)
    ensures
        copy == *number,
;

/// Calls `serde_json::from_str` for a `Value`. What it reads is named, as a function of
/// the text alone; it fails exactly where that name says that there is nothing to read.
#[verifier::external_body]
fn read_value(text: &str) -> (read: Result<serde_json::Value, serde_json::Error>)
    ensures
        match read {
            Ok(value) => json_document(text@) == Some(value_content(value)),
            Err(_) => json_document(text@) is None,
        },
{
    serde_json::from_str(text)
}

/// One level of a `serde_json::Value`.
enum Layer {
    Null,
    Bool(bool),
    Number(serde_json::Number),
    Text(String),
    List(Vec<serde_json::Value>),
    Object(serde_json::Map<String, serde_json::Value>),
}

/// The content of a value of which one level is seen.
spec fn layer_tree(layer: Layer) -> JsonTree {
    match layer {
        Layer::Null => JsonTree::Null,
        Layer::Bool(b) => JsonTree::Bool(b),
        Layer::Number(n) => JsonTree::Number(number_content(n)),
        Layer::Text(s) => JsonTree::Text(s@),
        Layer::List(values) => JsonTree::List(value_contents(values@)),
        Layer::Object(map) => JsonTree::Object(map_content(map)),
    }
}

/// The contents of some values.
pub open spec fn value_contents(values: Seq<serde_json::Value>) -> Seq<JsonTree> {
    Seq::new(values.len(), |i: int| value_content(values[i]))
}

/// Entries as a map: the last entry of a key counts.
pub open spec fn value_entry_map(entries: Seq<(String, serde_json::Value)>) -> Map<
    Seq<char>,
    JsonTree,
>
    decreases entries.len(),
{
    if entries.len() == 0 {
        Map::empty()
    } else {
        value_entry_map(entries.drop_last()).insert(
            entries.last().0@,
            value_content(entries.last().1),
        )
    }
}

/// Whether no key occurs twice among some entries.
pub open spec fn keys_differ(entries: Seq<(String, serde_json::Value)>) -> bool {
    forall|i: int, j: int|
        0 <= i < j < entries.len() ==> (#[trigger] entries[i]).0@ != (#[trigger] entries[j]).0@
}

/// Tells the variants of `serde_json::Value` apart: the layer is what the value holds.
#[verifier::external_body]
fn take_apart(value: serde_json::Value) -> (layer: Layer)
    ensures
        layer_tree(layer) == value_content(value),
{
    match value {
        serde_json::Value::Null => Layer::Null,
        serde_json::Value::Bool(b) => Layer::Bool(b),
        serde_json::Value::Number(n) => Layer::Number(n),
        serde_json::Value::String(s) => Layer::Text(s),
        serde_json::Value::Array(values) => Layer::List(values),
        serde_json::Value::Object(map) => Layer::Object(map),
    }
}

/// Makes a `serde_json::Value` of the variant of a layer: the value holds what the layer
/// does.
#[verifier::external_body]
fn put_together(layer: Layer) -> (value: serde_json::Value)
    ensures
        value_content(value) == layer_tree(layer),
{
    match layer {
        Layer::Null => serde_json::Value::Null,
        Layer::Bool(b) => serde_json::Value::Bool(b),
        Layer::Number(n) => serde_json::Value::Number(n),
        Layer::Text(s) => serde_json::Value::String(s),
        Layer::List(values) => serde_json::Value::Array(values),
        Layer::Object(map) => serde_json::Value::Object(map),
    }
}

/// The fields of an object that has none.
pub open spec fn no_fields() -> Map<Seq<char>, JsonTree> {
    Map::empty()
}

/// Calls `serde_json::Map::new`: the map is empty.
#[verifier::external_body]
fn new_fields() -> (map: serde_json::Map<String, serde_json::Value>)
    ensures
        map_content(map) == no_fields(),
{
    serde_json::Map::new()
}

/// Calls `serde_json::Map::insert`: the key has the value, in place of one that it had,
/// and nothing else changes.
#[verifier::external_body]
fn insert_field(
    map: &mut serde_json::Map<String, serde_json::Value>,
    key: String,
    value: serde_json::Value,
)
    ensures
        map_content(*final(map)) == map_content(*old(map)).insert(key@, value_content(value)),
{
    map.insert(key, value);
}

/// Collects the `into_iter` of a `serde_json::Map`: its entries, each key once.
#[verifier::external_body]
fn fields_of(map: serde_json::Map<String, serde_json::Value>) -> (entries: Vec<
    (String, serde_json::Value),
>)
    ensures
        value_entry_map(entries@) == map_content(map),
        keys_differ(entries@),
{
    map.into_iter().collect()
}

/// The map of some entries has finitely many keys.
proof fn lemma_entries_are_finite(entries: Seq<(String, serde_json::Value)>)
    ensures
        value_entry_map(entries).dom().finite(),
    decreases entries.len(),
{
    if entries.len() > 0 {
        lemma_entries_are_finite(entries.drop_last());
    }
}

/// Where no key occurs twice, each entry is in the map.
proof fn lemma_entry_in_map(entries: Seq<(String, serde_json::Value)>, i: int)
    requires
        keys_differ(entries),
        0 <= i < entries.len(),
    ensures
        value_entry_map(entries).contains_key(entries[i].0@),
        value_entry_map(entries)[entries[i].0@] == value_content(entries[i].1),
    decreases entries.len(),
{
    let front = entries.drop_last();
    assert(entries.last() == entries[entries.len() - 1]);
    if i < front.len() {
        assert(forall|j: int| 0 <= j < front.len() ==> front[j] == entries[j]);
        lemma_entry_in_map(front, i);
    }
}

/// A value of `serde_json` as a value of the type here, level by level.
pub fn import_value(value: serde_json::Value) -> (json: Json)
    ensures
        json@ == value_content(value),
    decreases value_content(value),
{
    let ghost tree = value_content(value);
    match take_apart(value) {
        Layer::Null => Json::Null,
        Layer::Bool(b) => Json::Bool(b),
        Layer::Number(n) => Json::Number(n),
        Layer::Text(s) => Json::Text(s),
        Layer::List(values) => {
            let mut items: Vec<Json> = Vec::new();
            for item in it: values
                invariant
                    tree == value_content(value),
                    tree == JsonTree::List(value_contents(values@)),
                    it.seq() == values@,
                    items.len() == it.index(),
                    forall|j: int|
                        0 <= j < items.len() ==> json_tree(items@[j]) == value_content(values@[j]),
            {
                proof {
                    let n = it.index() as int;
                    assert(decreases_to!(tree => tree->List_0));
                    assert(decreases_to!(tree->List_0 => tree->List_0[n]));
                    assert(tree->List_0[n] == value_content(item));
                }
                items.push(import_value(item));
            }
            assert(list_trees(items@) =~= value_contents(values@));
            Json::List(items)
        },
        Layer::Object(map) => {
            let fields: Vec<(String, serde_json::Value)> = fields_of(map);
            let mut entries: Vec<(String, Json)> = Vec::new();
            assert(fields@.take(0) =~= Seq::empty());
            for field in it: fields
                invariant
                    tree == value_content(value),
                    tree == JsonTree::Object(value_entry_map(fields@)),
                    keys_differ(fields@),
                    it.seq() == fields@,
                    entry_map(entries@) == value_entry_map(fields@.take(it.index() as int)),
            {
                let ghost n = it.index() as int;
                let ghost before = entries@;
                proof {
                    lemma_entry_in_map(fields@, n);
                    lemma_entries_are_finite(fields@);
                    assert(decreases_to!(tree => tree->Object_0));
                    assert(decreases_to!(tree->Object_0 => tree->Object_0[field.0@]));
                    assert(tree->Object_0[field.0@] == value_content(field.1));
                }
                let (key, item) = field;
                entries.push((key, import_value(item)));
                proof {
                    assert(entries@.drop_last() =~= before);
                    assert(fields@.take(n + 1).drop_last() =~= fields@.take(n));
                }
            }
            assert(fields@.take(fields@.len() as int) =~= fields@);
            Json::Object(entries)
        },
    }
}

/// A value of the type here as one of `serde_json`, level by level.
pub fn export_value(json: &Json) -> (value: serde_json::Value)
    ensures
        value_content(value) == json@,
    decreases json,
{
    match json {
        Json::Null => put_together(Layer::Null),
        Json::Bool(b) => put_together(Layer::Bool(*b)),
        Json::Number(n) => put_together(Layer::Number(n.clone())),
        Json::Text(s) => put_together(Layer::Text(s.clone())),
        Json::List(items) => {
            let mut values: Vec<serde_json::Value> = Vec::new();
            let mut i: usize = 0;
            while i < items.len()
                invariant
                    json == Json::List(*items),
                    i <= items.len(),
                    values.len() == i,
                    forall|j: int| 0 <= j < i ==> value_content(values@[j]) == json_tree(items@[j]),
                decreases items.len() - i,
            {
                assert(decreases_to!(json => json->List_0));
                assert(decreases_to!(items => items@));
                assert(decreases_to!(items@ => items@[i as int]));
                values.push(export_value(&items[i]));
                i += 1;
            }
            assert(value_contents(values@) =~= list_trees(items@));
            put_together(Layer::List(values))
        },
        Json::Object(entries) => {
            let mut map: serde_json::Map<String, serde_json::Value> = new_fields();
            let mut i: usize = 0;
            assert(entries@.take(0) =~= Seq::empty());
            while i < entries.len()
                invariant
                    json == Json::Object(*entries),
                    i <= entries.len(),
                    map_content(map) == entry_map(entries@.take(i as int)),
                decreases entries.len() - i,
            {
                assert(decreases_to!(json => json->Object_0));
                assert(decreases_to!(entries => entries@));
                assert(decreases_to!(entries@ => entries@[i as int]));
                assert(decreases_to!(entries@[i as int] => entries@[i as int].1));
                let value: serde_json::Value = export_value(&entries[i].1);
                insert_field(&mut map, entries[i].0.clone(), value);
                i += 1;
                assert(entries@.take(i as int).drop_last() =~= entries@.take(i - 1));
            }
            assert(entries@.take(i as int) =~= entries@);
            put_together(Layer::Object(map))
        },
    }
}

/// Calls the `Display` of `serde_json::Value`. The text is named, as a function of what
/// the value holds: the fields of an object are printed in the order of their keys. It is
/// compact, and control characters in strings are escaped, so that it holds no newline.
/// Where the value holds no float, and nests no deeper than the reader follows, the text
/// reads back as the value.
///
/// A float is printed with a point or an exponent, so that it is read as a float; the
/// reader rounds some of them differently, and which it reads is not said. Where the text
/// reads, it reads as the value but for its floats. The reader rejects a float only where
/// it comes out as infinite: the text reads where no float is near the largest.
#[verifier::external_body]
fn print_value(value: &serde_json::Value) -> (text: String)
    ensures
        text@ == json_text(value_content(*value)),
        !text@.contains('\n'),
        plain_to_depth(value_content(*value), MAX_NESTING as nat) ==> json_document(text@) == Some(
            value_content(*value),
        ),
        json_document(text@) matches Some(read) ==> same_but_floats(read, value_content(*value)),
        readable_to_depth(value_content(*value), MAX_NESTING as nat) ==> json_document(text@) is Some,
{
    value.to_string()
}

/// Reads a JSON text.
pub fn parse_json(text: &str) -> (json: Option<Json>)
    ensures
        json is Some <==> json_document(text@) is Some,
        json matches Some(j) ==> json_document(text@) == Some(j@),
{
    match read_value(text) {
        Ok(value) => Some(import_value(value)),
        Err(_) => None,
    }
}

/// Writes a value as compact JSON text, on one line.
pub fn print_json(json: &Json) -> (text: String)
    ensures
        text@ == json_text(json@),
        !text@.contains('\n'),
        plain_to_depth(json@, MAX_NESTING as nat) ==> json_document(text@) == Some(json@),
        json_document(text@) matches Some(read) ==> same_but_floats(read, json@),
        readable_to_depth(json@, MAX_NESTING as nat) ==> json_document(text@) is Some,
{
    let value = export_value(json);
    print_value(&value)
}

impl View for Json {
    type V = JsonTree;

    open spec fn view(&self) -> JsonTree {
        json_tree(*self)
    }
}

impl DeepView for Json {
    type V = JsonTree;

    open spec fn deep_view(&self) -> JsonTree {
        json_tree(*self)
    }
}

impl Clone for Json {
    fn clone(&self) -> (copy: Self)
        ensures
            copy@ == self@,
        decreases self,
    {
        match self {
            Json::Null => Json::Null,
            Json::Bool(b) => Json::Bool(*b),
            Json::Number(n) => Json::Number(n.clone()),
            Json::Text(s) => Json::Text(s.clone()),
            Json::List(items) => {
                let mut copies: Vec<Json> = Vec::new();
                let mut i: usize = 0;
                while i < items.len()
                    invariant
                        self == Json::List(*items),
                        i <= items.len(),
                        copies.len() == i,
                        forall|j: int| 0 <= j < i ==> json_tree(copies@[j]) == json_tree(items@[j]),
                    decreases items.len() - i,
                {
                    assert(decreases_to!(self => self->List_0));
                    assert(decreases_to!(items => items@));
                    assert(decreases_to!(items@ => items@[i as int]));
                    copies.push(items[i].clone());
                    i += 1;
                }
                assert(list_trees(copies@) =~= list_trees(items@));
                Json::List(copies)
            },
            Json::Object(entries) => {
                let mut copies: Vec<(String, Json)> = Vec::new();
                let mut i: usize = 0;
                while i < entries.len()
                    invariant
                        self == Json::Object(*entries),
                        i <= entries.len(),
                        copies.len() == i,
                        entry_map(copies@) == entry_map(entries@.take(i as int)),
                    decreases entries.len() - i,
                {
                    assert(decreases_to!(self => self->Object_0));
                    assert(decreases_to!(entries => entries@));
                    assert(decreases_to!(entries@ => entries@[i as int]));
                    assert(decreases_to!(entries@[i as int] => entries@[i as int].1));
                    let ghost before = copies@;
                    let key: String = entries[i].0.clone();
                    let item: Json = entries[i].1.clone();
                    copies.push((key, item));
                    i += 1;
                    proof {
                        assert(copies@.drop_last() =~= before);
                        assert(entries@.take(i as int).drop_last() =~= entries@.take(i - 1));
                    }
                }
                assert(entries@.take(i as int) =~= entries@);
                Json::Object(copies)
            },
        }
    }
}

/// A key that no entry from `from` on carries is looked up among the entries before.
proof fn lemma_entry_lookup(entries: Seq<(String, Json)>, from: int, key: Seq<char>)
    requires
        0 <= from <= entries.len(),
        forall|j: int| from <= j < entries.len() ==> (#[trigger] entries[j]).0@ != key,
    ensures
        entry_map(entries).contains_key(key) == entry_map(entries.take(from)).contains_key(key),
        entry_map(entries).contains_key(key) ==> entry_map(entries)[key] == entry_map(
            entries.take(from),
        )[key],
    decreases entries.len(),
{
    if from < entries.len() {
        let front = entries.drop_last();
        assert(front.take(from) =~= entries.take(from));
        assert(entries.last() == entries[entries.len() - 1]);
        lemma_entry_lookup(front, from, key);
    } else {
        assert(entries.take(from) =~= entries);
    }
}

impl Json {
    /// The field `key` of an object; `None` where there is none, or no object.
    pub fn get(&self, key: &str) -> (found: Option<&Json>)
        ensures
            found matches Some(json) ==> self@.field(key@) == Some(json@),
            found is None ==> self@.field(key@) is None,
    {
        match self {
            Json::Object(entries) => {
                let mut i: usize = entries.len();
                while i > 0
                    invariant
                        self == Json::Object(*entries),
                        i <= entries.len(),
                        forall|j: int| i <= j < entries.len() ==> (#[trigger] entries@[j]).0@ != key@,
                    decreases i,
                {
                    i -= 1;
                    if same_text(entries[i].0.as_str(), key) {
                        proof {
                            let ghost upto = entries@.take(i + 1);
                            lemma_entry_lookup(entries@, i + 1, key@);
                            assert(upto.last() == entries@[i as int]);
                            assert(upto.drop_last() =~= entries@.take(i as int));
                        }
                        return Some(&entries[i].1);
                    }
                }
                proof {
                    lemma_entry_lookup(entries@, 0, key@);
                    assert(entries@.take(0) =~= Seq::empty());
                }
                None
            },
            _ => None,
        }
    }

    /// The text of a string value.
    pub fn as_str(&self) -> (text: Option<&str>)
        ensures
            text matches Some(t) ==> self@ == JsonTree::Text(t@),
            text is None ==> !(self@ is Text),
    {
        match self {
            Json::Text(text) => Some(text.as_str()),
            _ => None,
        }
    }

    /// The text of the field `key`, if it is a string.
    pub fn text_at(&self, key: &str) -> (text: Option<&str>)
        ensures
            text matches Some(t) ==> self@.text_at(key@) == Some(t@),
            text is None ==> self@.text_at(key@) is None,
    {
        match self.get(key) {
            Some(json) => json.as_str(),
            None => None,
        }
    }

    /// The text of the field `key`, `default` where it is not a string.
    pub fn text_or(&self, key: &str, default: &str) -> (text: String)
        ensures
            text@ == self@.text_or(key@, default@),
    {
        match self.text_at(key) {
            Some(text) => text.to_owned(),
            None => default.to_owned(),
        }
    }

    /// The truth value of the field `key`, `default` where it is none.
    pub fn bool_or(&self, key: &str, default: bool) -> (flag: bool)
        ensures
            flag == self@.bool_or(key@, default),
    {
        match self.get(key) {
            Some(Json::Bool(b)) => *b,
            _ => default,
        }
    }

    /// Copies of the items of the list in the field `key`; none where it is no list.
    pub fn items_at(&self, key: &str) -> (items: Vec<Json>)
        ensures
            items.deep_view() == self@.items_at(key@),
    {
        let mut copies: Vec<Json> = Vec::new();
        if let Some(Json::List(items)) = self.get(key) {
            let mut i: usize = 0;
            while i < items.len()
                invariant
                    i <= items.len(),
                    copies.len() == i,
                    forall|j: int| 0 <= j < i ==> json_tree(copies@[j]) == json_tree(items@[j]),
                decreases items.len() - i,
            {
                copies.push(items[i].clone());
                i += 1;
            }
            assert(copies.deep_view() =~= list_trees(items@));
        } else {
            assert(copies.deep_view() =~= Seq::empty());
        }
        copies
    }

    /// The strings among the items of the list in the field `key`, in order.
    pub fn texts_at(&self, key: &str) -> (texts: Vec<String>)
        ensures
            texts.deep_view() == texts_among(self@.items_at(key@)),
    {
        let mut texts: Vec<String> = Vec::new();
        assert(texts.deep_view() =~= Seq::empty());
        if let Some(Json::List(items)) = self.get(key) {
            let ghost trees = list_trees(items@);
            assert(trees.take(0) =~= Seq::empty());
            let mut i: usize = 0;
            while i < items.len()
                invariant
                    i <= items.len(),
                    trees == list_trees(items@),
                    texts.deep_view() == texts_among(trees.take(i as int)),
                decreases items.len() - i,
            {
                proof {
                    assert(trees.take(i + 1).drop_last() =~= trees.take(i as int));
                    assert(trees.take(i + 1).last() == json_tree(items@[i as int]));
                }
                let ghost before = texts.deep_view();
                if let Some(text) = items[i].as_str() {
                    texts.push(text.to_owned());
                    assert(texts.deep_view() =~= before.push(text@));
                }
                i += 1;
            }
            assert(trees.take(i as int) =~= trees);
        }
        texts
    }

    /// A copy of the field `key`, null where there is none.
    pub fn field_or_null(&self, key: &str) -> (json: Json)
        ensures
            json@ == self@.field_or_null(key@),
    {
        match self.get(key) {
            Some(json) => json.clone(),
            None => Json::Null,
        }
    }

    /// The number of the field `key` as the bits of a float, those of zero where it
    /// is no number.
    pub fn float_bits_at(&self, key: &str) -> (bits: u64)
        ensures
            bits == self@.float_bits_at(key@),
    {
        match self.get(key) {
            Some(Json::Number(number)) => number_float_bits(number).unwrap_or(0),
            _ => 0,
        }
    }
}

/// Values that are the same but for their floats have the same fields, with the same texts
/// and truth values in them, and the same integers.
pub proof fn law_floats_touch_nothing_else(a: JsonTree, b: JsonTree, key: Seq<char>)
    requires
        same_but_floats(a, b),
    ensures
        a.field(key) is Some <==> b.field(key) is Some,
        a.text_at(key) == b.text_at(key),
        a.field(key) matches Some(JsonTree::Bool(x)) ==> b.field(key) == Some(JsonTree::Bool(x)),
        a.field(key) matches Some(JsonTree::Number(NumberTree::Integer(n))) ==> b.field(key) == Some(
            JsonTree::Number(NumberTree::Integer(n)),
        ),
        a.field(key) == Some(JsonTree::Null) <==> b.field(key) == Some(JsonTree::Null),
        a.field(key) is Some ==> same_but_floats(a.field(key)->0, b.field(key)->0),
{
    if let JsonTree::Object(x) = a {
        if let JsonTree::Object(y) = b {
            assert(x.contains_key(key) <==> x.dom().contains(key));
            assert(y.contains_key(key) <==> y.dom().contains(key));
            if x.contains_key(key) {
                assert(same_but_floats(x[key], y[key]));
            }
        }
    }
}

/// Every item of a list is there in its place, an object has the value of the last entry of
/// each key and no other keys, and all else is what it is.
pub proof fn law_values_are_what_they_hold(
    b: bool,
    n: serde_json::Number,
    s: String,
    items: Vec<Json>,
    entries: Seq<(String, Json)>,
    key: String,
    value: Json,
    other: Seq<char>,
)
    requires
        other != key@,
    ensures
        json_tree(Json::Null) == JsonTree::Null,
        json_tree(Json::Bool(b)) == JsonTree::Bool(b),
        json_tree(Json::Number(n)) == JsonTree::Number(number_content(n)),
        json_tree(Json::Text(s)) == JsonTree::Text(s@),
        json_tree(Json::List(items)) matches JsonTree::List(trees) && trees.len() == items@.len()
            && forall|i: int| 0 <= i < trees.len() ==> #[trigger] trees[i] == json_tree(items@[i]),
        forall|fields: Vec<(String, Json)>|
            #[trigger] json_tree(Json::Object(fields)) == JsonTree::Object(entry_map(fields@)),
        value@ == json_tree(value),
        value.deep_view() == json_tree(value),
        entry_map(Seq::empty()).dom() == Set::<Seq<char>>::empty(),
        entry_map(entries.push((key, value))).contains_key(key@),
        entry_map(entries.push((key, value)))[key@] == json_tree(value),
        entry_map(entries.push((key, value))).contains_key(other) <==> entry_map(
            entries,
        ).contains_key(other),
        entry_map(entries.push((key, value)))[other] == entry_map(entries)[other],
{
    assert(entries.push((key, value)).drop_last() =~= entries);
}

/// A field is looked up in an object alone, and gives what the object holds there: a text
/// for a text, a truth value for a truth value, the items for a list, the float for a float.
/// Where the object holds something else there, or nothing, or where there is no object,
/// what was asked for in its place is given.
pub proof fn law_fields_give_what_is_there(
    fields: Map<Seq<char>, JsonTree>,
    key: Seq<char>,
    text: Seq<char>,
    flag: bool,
)
    ensures
        ({
            let object = JsonTree::Object(fields);
            &&& fields.contains_key(key) ==> {
                &&& object.field(key) == Some(fields[key])
                &&& object.field_or_null(key) == fields[key]
                &&& fields[key] matches JsonTree::Text(t) ==> object.text_at(key) == Some(t)
                    && object.text_or(key, text) == t
                &&& fields[key] matches JsonTree::Bool(b) ==> object.bool_or(key, flag) == b
                &&& fields[key] matches JsonTree::List(items) ==> object.items_at(key) == items
                &&& fields[key] matches JsonTree::Number(NumberTree::Float(bits))
                    ==> object.float_bits_at(key) == bits
            }
            &&& !fields.contains_key(key) ==> object.field(key) is None && object.field_or_null(key)
                == JsonTree::Null
            &&& !fields.contains_key(key) || !(fields[key] is Text) ==> object.text_at(key) is None
                && object.text_or(key, text) == text
            &&& !fields.contains_key(key) || !(fields[key] is Bool) ==> object.bool_or(key, flag)
                == flag
            &&& !fields.contains_key(key) || !(fields[key] is List) ==> object.items_at(key).len()
                == 0
            &&& !fields.contains_key(key) || !(fields[key] is Number) ==> object.float_bits_at(key)
                == 0
        }),
        forall|tree: JsonTree|
            !(tree is Object) ==> (#[trigger] tree.field(key)) is None && tree.text_at(key) is None
                && tree.text_or(key, text) == text && tree.bool_or(key, flag) == flag
                && tree.items_at(key).len() == 0 && tree.field_or_null(key) == JsonTree::Null
                && tree.float_bits_at(key) == 0,
{
}

/// Of a list, the texts are picked out and nothing else: a text alone gives itself, anything
/// else alone gives nothing, and two lists one after the other give what each gives, one
/// after the other.
pub proof fn law_texts_are_picked_in_order(a: Seq<JsonTree>, b: Seq<JsonTree>, one: JsonTree)
    ensures
        texts_among(a + b) == texts_among(a) + texts_among(b),
        one matches JsonTree::Text(text) ==> texts_among(seq![one]) == seq![text],
        !(one is Text) ==> texts_among(seq![one]).len() == 0,
        texts_among(Seq::empty()).len() == 0,
    decreases b.len(),
{
    assert(seq![one].drop_last() =~= Seq::empty());
    assert(seq![one].last() == one);
    assert(texts_among(seq![one].drop_last()) =~= Seq::empty());
    assert(one matches JsonTree::Text(text) ==> texts_among(seq![one]) =~= seq![text]);
    if b.len() == 0 {
        assert(a + b =~= a);
        assert(texts_among(a) + texts_among(b) =~= texts_among(a));
    } else {
        assert((a + b).drop_last() =~= a + b.drop_last());
        law_texts_are_picked_in_order(a, b.drop_last(), one);
        assert(texts_among(a + b) =~= texts_among(a) + texts_among(b));
    }
}

/// A list of texts alone gives all of them.
pub proof fn law_a_list_of_texts_gives_all(texts: Seq<Seq<char>>)
    ensures
        texts_among(texts.map_values(|text: Seq<char>| JsonTree::Text(text))) == texts,
    decreases texts.len(),
{
    let trees = texts.map_values(|text: Seq<char>| JsonTree::Text(text));
    if texts.len() > 0 {
        let front = texts.drop_last();
        law_a_list_of_texts_gives_all(front);
        assert(trees.drop_last() =~= front.map_values(|text: Seq<char>| JsonTree::Text(text)));
        assert(texts =~= front.push(texts.last()));
    } else {
        assert(texts =~= Seq::empty());
    }
}

} // verus!
