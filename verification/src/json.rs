//! JSON documents as values.
//!
//! Some stores are kept by other tooling as lists of free-form JSON objects. The
//! library reads and edits such objects field by field and leaves alone what it
//! does not know. Reading and writing the text of a document is not done here.

use vstd::prelude::*;
use crate::text::text_eq;

verus! {

/// A number as a JSON document holds it: a whole number that is not negative, a
/// whole number below zero, or any other number, carried as the bit pattern of
/// its double-precision value.
#[derive(Clone, Copy, Debug, PartialEq, Eq)]
pub enum Number {
    Unsigned(u64),
    Signed(i64),
    Real(u64),
}

/// A JSON value.
#[derive(Debug, PartialEq)]
pub enum JsonValue {
    Null,
    Bool(bool),
    Number(Number),
    Text(String),
    Array(Vec<JsonValue>),
    Object(JsonObject),
}

/// A JSON object: fields by name. Where a name stands twice, the first entry holds
/// the field.
#[derive(Debug, PartialEq)]
pub struct JsonObject {
    pub entries: Vec<(String, JsonValue)>,
}

/// What a JSON value means: strings by their characters, arrays as sequences,
/// objects as maps from field name to value.
pub enum JsonModel {
    Null,
    Bool(bool),
    Number(Number),
    Text(Seq<char>),
    Array(Seq<JsonModel>),
    Object(Map<Seq<char>, JsonModel>),
}

/// What a value means.
pub open spec fn value_model(v: JsonValue) -> JsonModel
    decreases v,
{
    match v {
        JsonValue::Null => JsonModel::Null,
        JsonValue::Bool(b) => JsonModel::Bool(b),
        JsonValue::Number(n) => JsonModel::Number(n),
        JsonValue::Text(s) => JsonModel::Text(s@),
        JsonValue::Array(items) => JsonModel::Array(items_model(items@)),
        JsonValue::Object(object) => JsonModel::Object(entries_model(object.entries@)),
    }
}

/// What the items of an array mean, item by item.
pub open spec fn items_model(items: Seq<JsonValue>) -> Seq<JsonModel>
    decreases items,
{
    if items.len() == 0 {
        Seq::empty()
    } else {
        items_model(items.drop_last()).push(value_model(items.last()))
    }
}

/// What the entries of an object mean: a map from name to value, in which the
/// first entry of a name holds the field.
pub open spec fn entries_model(entries: Seq<(String, JsonValue)>) -> Map<Seq<char>, JsonModel>
    decreases entries,
{
    if entries.len() == 0 {
        Map::empty()
    } else {
        entries_model(entries.drop_first()).insert(entries[0].0@, value_model(entries[0].1))
    }
}

impl View for JsonValue {
    type V = JsonModel;

    open spec fn view(&self) -> JsonModel {
        value_model(*self)
    }
}

impl View for JsonObject {
    type V = Map<Seq<char>, JsonModel>;

    open spec fn view(&self) -> Map<Seq<char>, JsonModel> {
        entries_model(self.entries@)
    }
}

/// The models of a list of objects, object by object.
pub open spec fn objects_model(objects: Seq<JsonObject>) -> Seq<Map<Seq<char>, JsonModel>> {
    Seq::new(objects.len(), |i: int| objects[i]@)
}

/// The field `key` of an object, where it has one.
pub open spec fn field(object: Map<Seq<char>, JsonModel>, key: Seq<char>) -> Option<JsonModel> {
    if object.contains_key(key) {
        Some(object[key])
    } else {
        None
    }
}

impl JsonModel {
    /// The characters of a string value.
    pub open spec fn text(self) -> Option<Seq<char>> {
        match self {
            JsonModel::Text(s) => Some(s),
            _ => None,
        }
    }

    /// The fields of an object value.
    pub open spec fn object(self) -> Option<Map<Seq<char>, JsonModel>> {
        match self {
            JsonModel::Object(fields) => Some(fields),
            _ => None,
        }
    }

    /// The items of an array value.
    pub open spec fn array(self) -> Option<Seq<JsonModel>> {
        match self {
            JsonModel::Array(items) => Some(items),
            _ => None,
        }
    }

    /// A number value.
    pub open spec fn number(self) -> Option<Number> {
        match self {
            JsonModel::Number(n) => Some(n),
            _ => None,
        }
    }

    /// A number value that is whole and not negative.
    pub open spec fn unsigned(self) -> Option<u64> {
        match self {
            JsonModel::Number(Number::Unsigned(n)) => Some(n),
            _ => None,
        }
    }
}

/// The array of the strings `texts`.
pub open spec fn texts_model(texts: Seq<Seq<char>>) -> JsonModel {
    JsonModel::Array(Seq::new(texts.len(), |i: int| JsonModel::Text(texts[i])))
}

/// Whether an object has a string field `key` that holds `wanted`.
pub open spec fn has_text(key: Seq<char>, wanted: Seq<char>) -> spec_fn(
    Map<Seq<char>, JsonModel>,
) -> bool {
    |object: Map<Seq<char>, JsonModel>| text_field(object, key) == Some(wanted)
}

/// The string field `key` of an object: `None` where the field is missing or
/// holds something else.
pub open spec fn text_field(object: Map<Seq<char>, JsonModel>, key: Seq<char>) -> Option<Seq<char>> {
    match field(object, key) {
        Some(value) => value.text(),
        None => None,
    }
}

proof fn lemma_items_model(items: Seq<JsonValue>)
    ensures
        items_model(items).len() == items.len(),
        forall|i: int| 0 <= i < items.len() ==> (#[trigger] items_model(items)[i]) == value_model(items[i]),
    decreases items.len(),
{
    if items.len() > 0 {
        lemma_items_model(items.drop_last());
    }
}

proof fn lemma_first_entry_holds_field(entries: Seq<(String, JsonValue)>, key: Seq<char>, i: int)
    requires
        0 <= i < entries.len(),
        entries[i].0@ == key,
        forall|j: int| 0 <= j < i ==> entries[j].0@ != key,
    ensures
        entries_model(entries).contains_key(key),
        entries_model(entries)[key] == value_model(entries[i].1),
    decreases i,
{
    if i > 0 {
        lemma_first_entry_holds_field(entries.drop_first(), key, i - 1);
    }
}

proof fn lemma_no_entry_no_field(entries: Seq<(String, JsonValue)>, key: Seq<char>)
    requires
        forall|j: int| 0 <= j < entries.len() ==> entries[j].0@ != key,
    ensures
        !entries_model(entries).contains_key(key),
    decreases entries.len(),
{
    if entries.len() > 0 {
        lemma_no_entry_no_field(entries.drop_first(), key);
    }
}

proof fn lemma_replace_first_entry(
    entries: Seq<(String, JsonValue)>,
    i: int,
    entry: (String, JsonValue),
)
    requires
        0 <= i < entries.len(),
        entries[i].0@ == entry.0@,
        forall|j: int| 0 <= j < i ==> entries[j].0@ != entry.0@,
    ensures
        entries_model(entries.update(i, entry)) == entries_model(entries).insert(
            entry.0@,
            value_model(entry.1),
        ),
    decreases i,
{
    let after = entries.update(i, entry);
    if i == 0 {
        assert(after.drop_first() =~= entries.drop_first());
        assert(entries_model(after) =~= entries_model(entries).insert(
            entry.0@,
            value_model(entry.1),
        ));
    } else {
        lemma_replace_first_entry(entries.drop_first(), i - 1, entry);
        assert(after.drop_first() =~= entries.drop_first().update(i - 1, entry));
        assert(entries_model(after) =~= entries_model(entries).insert(
            entry.0@,
            value_model(entry.1),
        ));
    }
}

proof fn lemma_append_new_entry(entries: Seq<(String, JsonValue)>, entry: (String, JsonValue))
    requires
        forall|j: int| 0 <= j < entries.len() ==> entries[j].0@ != entry.0@,
    ensures
        entries_model(entries.push(entry)) == entries_model(entries).insert(
            entry.0@,
            value_model(entry.1),
        ),
    decreases entries.len(),
{
    let after = entries.push(entry);
    if entries.len() == 0 {
        assert(after.drop_first() =~= entries);
        assert(entries_model(after) =~= entries_model(entries).insert(
            entry.0@,
            value_model(entry.1),
        ));
    } else {
        lemma_append_new_entry(entries.drop_first(), entry);
        assert(after.drop_first() =~= entries.drop_first().push(entry));
        assert(entries_model(after) =~= entries_model(entries).insert(
            entry.0@,
            value_model(entry.1),
        ));
    }
}

impl JsonValue {
    /// A string value made of the characters of `text`.
    pub fn from_text(text: &str) -> (value: JsonValue)
        ensures
            value@ == JsonModel::Text(text@),
    {
        JsonValue::Text(text.to_owned())
    }

    /// An array value of the strings `texts`.
    pub fn from_texts(texts: &Vec<String>) -> (value: JsonValue)
        ensures
            value@ == texts_model(texts.deep_view()),
    {
        let mut items: Vec<JsonValue> = Vec::new();
        let mut i: usize = 0;
        while i < texts.len()
            invariant
                i <= texts.len(),
                items.len() == i,
                forall|j: int| 0 <= j < i ==> (#[trigger] items[j])@ == JsonModel::Text(texts[j]@),
            decreases texts.len() - i,
        {
            items.push(JsonValue::Text(texts[i].clone()));
            i += 1;
        }
        proof {
            lemma_items_model(items@);
            assert(items_model(items@) =~= Seq::new(
                texts.deep_view().len(),
                |i: int| JsonModel::Text(texts.deep_view()[i]),
            ));
        }
        JsonValue::Array(items)
    }

    /// The string that a string value holds.
    pub fn as_str(&self) -> (text: Option<&str>)
        ensures
            text.is_some() == self@.text().is_some(),
            text matches Some(t) ==> self@.text() == Some(t@),
    {
        match self {
            JsonValue::Text(s) => Some(s.as_str()),
            _ => None,
        }
    }

    /// The object that an object value holds.
    pub fn as_object(&self) -> (object: Option<&JsonObject>)
        ensures
            object.is_some() == self@.object().is_some(),
            object matches Some(o) ==> self@.object() == Some(o@),
    {
        match self {
            JsonValue::Object(o) => Some(o),
            _ => None,
        }
    }

    /// The items that an array value holds.
    pub fn as_array(&self) -> (items: Option<&Vec<JsonValue>>)
        ensures
            items.is_some() == self@.array().is_some(),
            items matches Some(list) ==> {
                &&& self@.array() matches Some(models)
                &&& models.len() == list.len()
                &&& forall|i: int| 0 <= i < list.len() ==> (#[trigger] models[i]) == list[i]@
            },
    {
        match self {
            JsonValue::Array(list) => {
                proof {
                    lemma_items_model(list@);
                }
                Some(list)
            },
            _ => None,
        }
    }

    /// The number that a number value holds.
    pub fn as_number(&self) -> (number: Option<Number>)
        ensures
            number == self@.number(),
    {
        match self {
            JsonValue::Number(n) => Some(*n),
            _ => None,
        }
    }

    /// The number that a number value holds, where it is whole and not negative.
    pub fn as_u64(&self) -> (number: Option<u64>)
        ensures
            number == self@.unsigned(),
    {
        match self {
            JsonValue::Number(Number::Unsigned(n)) => Some(*n),
            _ => None,
        }
    }

    /// Whether the value is `null`.
    pub fn is_null(&self) -> (null: bool)
        ensures
            null == (self@ == JsonModel::Null),
    {
        match self {
            JsonValue::Null => true,
            _ => false,
        }
    }
}

impl JsonObject {
    /// An object without fields.
    pub fn new() -> (object: JsonObject)
        ensures
            object@ == Map::<Seq<char>, JsonModel>::empty(),
    {
        JsonObject { entries: Vec::new() }
    }

    /// The place of the first entry named `key`.
    fn position(&self, key: &str) -> (place: Option<usize>)
        ensures
            match place {
                Some(i) => {
                    &&& i < self.entries.len()
                    &&& self.entries[i as int].0@ == key@
                    &&& forall|j: int| 0 <= j < i ==> self.entries[j].0@ != key@
                },
                None => forall|j: int| 0 <= j < self.entries.len() ==> self.entries[j].0@ != key@,
            },
    {
        let mut i: usize = 0;
        while i < self.entries.len()
            invariant
                i <= self.entries.len(),
                forall|j: int| 0 <= j < i ==> self.entries[j].0@ != key@,
            decreases self.entries.len() - i,
        {
            if text_eq(self.entries[i].0.as_str(), key) {
                return Some(i);
            }
            i += 1;
        }
        None
    }

    /// The value of the field `key`, where the object has it.
    pub fn get(&self, key: &str) -> (value: Option<&JsonValue>)
        ensures
            value.is_some() == self@.contains_key(key@),
            value matches Some(v) ==> self@[key@] == v@,
    {
        match self.position(key) {
            Some(i) => {
                proof {
                    lemma_first_entry_holds_field(self.entries@, key@, i as int);
                }
                Some(&self.entries[i].1)
            },
            None => {
                proof {
                    lemma_no_entry_no_field(self.entries@, key@);
                }
                None
            },
        }
    }

    /// Whether the object has a string field `key` that holds `wanted`.
    pub fn has_text(&self, key: &str, wanted: &str) -> (has: bool)
        ensures
            has == has_text(key@, wanted@)(self@),
    {
        match self.get(key) {
            Some(value) => match value.as_str() {
                Some(text) => text_eq(text, wanted),
                None => false,
            },
            None => false,
        }
    }

    /// Sets the field `key` to `value`, whether the object had the field or not.
    /// The other fields stay as they are.
    pub fn insert(&mut self, key: &str, value: JsonValue)
        ensures
            final(self)@ == old(self)@.insert(key@, value@),
    {
        let entry = (key.to_owned(), value);
        match self.position(key) {
            Some(i) => {
                proof {
                    lemma_replace_first_entry(self.entries@, i as int, entry);
                }
                self.entries.set(i, entry);
            },
            None => {
                proof {
                    lemma_append_new_entry(self.entries@, entry);
                }
                self.entries.push(entry);
            },
        }
    }
}

} // verus!
