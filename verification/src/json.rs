//! JSON values as plain data.

use crate::text::str_eq;
use vstd::prelude::*;
use vstd::string::*;

verus! {

/// A JSON value.
#[derive(Debug)]
pub enum Json {
    Null,
    Bool(bool),
    /// A number that is an `i64`.
    Int(i64),
    /// Any other number.
    Number(serde_json::Number),
    Text(String),
    Array(Vec<Json>),
    /// Where a name occurs twice, the later field counts.
    Object(Vec<(String, Json)>),
}

/// What a [`Json`] holds.
pub ghost enum JsonView {
    Null,
    Bool(bool),
    Int(int),
    Number(serde_json::Number),
    Text(Seq<char>),
    Array(Seq<JsonView>),
    Object(Map<Seq<char>, JsonView>),
}

/// What `json` holds.
pub open spec fn json_view(json: Json) -> JsonView
    decreases json,
{
    match json {
        Json::Null => JsonView::Null,
        Json::Bool(b) => JsonView::Bool(b),
        Json::Int(i) => JsonView::Int(i as int),
        Json::Number(n) => JsonView::Number(n),
        Json::Text(text) => JsonView::Text(text@),
        Json::Array(items) => JsonView::Array(items_view(items@)),
        Json::Object(fields) => JsonView::Object(fields_view(fields@)),
    }
}

/// What the items of an array hold.
pub open spec fn items_view(items: Seq<Json>) -> Seq<JsonView>
    decreases items,
{
    if items.len() == 0 {
        Seq::empty()
    } else {
        items_view(items.drop_last()).push(json_view(items.last()))
    }
}

/// What the fields of an object hold.
pub open spec fn fields_view(fields: Seq<(String, Json)>) -> Map<Seq<char>, JsonView>
    decreases fields,
{
    if fields.len() == 0 {
        Map::empty()
    } else {
        fields_view(fields.drop_last()).insert(fields.last().0@, json_view(fields.last().1))
    }
}

impl View for Json {
    type V = JsonView;

    open spec fn view(&self) -> JsonView {
        json_view(*self)
    }
}

impl DeepView for Json {
    type V = JsonView;

    open spec fn deep_view(&self) -> JsonView {
        self@
    }
}

impl JsonView {
    /// The field `key` of an object.
    pub open spec fn get(self, key: Seq<char>) -> Option<JsonView> {
        match self {
            JsonView::Object(fields) => if fields.contains_key(key) {
                Some(fields[key])
            } else {
                None
            },
            _ => None,
        }
    }

    /// The text, if it is one.
    pub open spec fn text(self) -> Option<Seq<char>> {
        match self {
            JsonView::Text(text) => Some(text),
            _ => None,
        }
    }

    /// The text of the field `key`, if that is one.
    pub open spec fn text_of(self, key: Seq<char>) -> Option<Seq<char>> {
        match self.get(key) {
            Some(field) => field.text(),
            None => None,
        }
    }
}

/// Whether a value survives being written and read again: none of its numbers
/// is outside `i64`, and it nests no deeper than `depth`.
pub open spec fn reads_back(json: JsonView, depth: nat) -> bool
    decreases depth,
{
    match json {
        JsonView::Number(_) => false,
        JsonView::Array(items) => depth > 0 && forall|i: int|
            0 <= i < items.len() ==> reads_back(#[trigger] items[i], (depth - 1) as nat),
        JsonView::Object(fields) => depth > 0 && forall|key: Seq<char>|
            fields.contains_key(key) ==> reads_back(#[trigger] fields[key], (depth - 1) as nat),
        _ => true,
    }
}

/// How deep arrays and objects may nest in text that is read.
pub open spec fn max_depth() -> nat {
    127
}

/// The items of the JSON array that `text` is, as `serde_json::from_str` reads
/// it; `None` where it reads no array.
pub uninterp spec fn json_array(text: Seq<char>) -> Option<Seq<JsonView>>;

/// How `serde_json` writes a value on one line.
pub uninterp spec fn json_text(json: JsonView) -> Seq<char>;

/// `serde_json::Number`, which is only carried from a value that was read to one
/// that is written.
#[verifier::external_type_specification]
#[verifier::external_body]
pub struct ExNumber(serde_json::Number);

/// The `clone` of `serde_json::Number`, which copies it: both are the same
/// number.
pub assume_specification[ <serde_json::Number as Clone>::clone ](
    number: &serde_json::Number,
) -> (copy: serde_json::Number)
    ensures
        copy == *number,
;

/// `serde_json::Value`, which is only carried between the functions below.
#[verifier::external_type_specification]
#[verifier::external_body]
pub struct ExValue(serde_json::Value);

/// Moves what a `serde_json::Value` holds into a [`Json`], one for one. Of the
/// numbers, those that `Number::as_i64` knows become integers and the others
/// are carried as they are.
#[verifier::external_body]
fn from_value(value: serde_json::Value) -> Json {
    match value {
        serde_json::Value::Null => Json::Null,
        serde_json::Value::Bool(b) => Json::Bool(b),
        serde_json::Value::Number(n) => match n.as_i64() {
            Some(i) => Json::Int(i),
            None => Json::Number(n),
        },
        serde_json::Value::String(s) => Json::Text(s),
        serde_json::Value::Array(a) => Json::Array(a.into_iter().map(from_value).collect()),
        serde_json::Value::Object(o) => {
            Json::Object(o.into_iter().map(|(k, v)| (k, from_value(v))).collect())
        },
    }
}

/// Moves what a [`Json`] holds into a `serde_json::Value`, one for one.
/// `Map::insert` replaces the value of a name that is already there, so that
/// the later of two fields counts.
#[verifier::external_body]
fn to_value(json: &Json) -> serde_json::Value {
    match json {
        Json::Null => serde_json::Value::Null,
        Json::Bool(b) => serde_json::Value::from(*b),
        Json::Int(i) => serde_json::Value::from(*i),
        Json::Number(n) => serde_json::Value::Number(n.clone()),
        Json::Text(s) => serde_json::Value::from(s.as_str()),
        Json::Array(a) => serde_json::Value::Array(a.iter().map(to_value).collect()),
        Json::Object(o) => {
            let mut fields = serde_json::Map::new();
            for (k, v) in o {
                fields.insert(k.clone(), to_value(v));
            }
            serde_json::Value::Object(fields)
        },
    }
}

/// `serde_json::from_str` for an array of values. The result is only named:
/// what text is JSON, and what it holds, is the crate's to say.
#[verifier::external_body]
pub(crate) fn read_array(text: &str) -> (items: Option<Vec<Json>>)
    ensures
        match items {
            Some(found) => json_array(text@) == Some(found.deep_view()),
            None => json_array(text@) is None,
        },
{
    let values: Vec<serde_json::Value> = serde_json::from_str(text).ok()?;
    Some(values.into_iter().map(from_value).collect())
}

/// The `Display` of `serde_json::Value`, which is compact. The text is only
/// named, but it holds no line break, an array begins with its bracket, and an
/// array is read back as it was, unless it holds numbers outside `i64` or nests
/// deeper than `serde_json::from_str` follows.
#[verifier::external_body]
pub(crate) fn write_json(json: &Json) -> (text: String)
    ensures
        text@ == json_text(json@),
        !text@.contains('\n'),
        json@ is Array ==> text@.len() > 0 && text@[0] == '[',
        json@ is Array && reads_back(json@, max_depth()) ==> json_array(text@) == Some(
            json@->Array_0,
        ),
{
    to_value(json).to_string()
}

impl Clone for Json {
    fn clone(&self) -> (copy: Self)
        ensures
            copy@ == self@,
        decreases self,
    {
        match self {
            Json::Null => Json::Null,
            Json::Bool(b) => Json::Bool(*b),
            Json::Int(i) => Json::Int(*i),
            Json::Number(n) => Json::Number(n.clone()),
            Json::Text(text) => Json::Text(text.clone()),
            Json::Array(items) => {
                let mut copies: Vec<Json> = Vec::new();
                for i in 0..items.len()
                    invariant
                        *self == Json::Array(*items),
                        items_view(copies@) == items_view(items@.take(i as int)),
                {
                    let ghost before = copies@;
                    assert(items@.take(i + 1).drop_last() =~= items@.take(i as int));
                    proof {
                        assert(decreases_to!(*self => self->Array_0));
                        assert(decreases_to!(*items => items@));
                        assert(decreases_to!(items@ => items@[i as int]));
                    }
                    copies.push(items[i].clone());
                    assert(copies@.drop_last() =~= before);
                }
                assert(items@.take(items@.len() as int) =~= items@);
                Json::Array(copies)
            },
            Json::Object(fields) => {
                let mut copies: Vec<(String, Json)> = Vec::new();
                for i in 0..fields.len()
                    invariant
                        *self == Json::Object(*fields),
                        fields_view(copies@) == fields_view(fields@.take(i as int)),
                {
                    let ghost before = copies@;
                    assert(fields@.take(i + 1).drop_last() =~= fields@.take(i as int));
                    proof {
                        assert(decreases_to!(*self => self->Object_0));
                        assert(decreases_to!(*fields => fields@));
                        assert(decreases_to!(fields@ => fields@[i as int]));
                        assert(decreases_to!(fields@[i as int] => fields@[i as int].1));
                    }
                    copies.push((fields[i].0.clone(), fields[i].1.clone()));
                    assert(copies@.drop_last() =~= before);
                }
                assert(fields@.take(fields@.len() as int) =~= fields@);
                Json::Object(copies)
            },
        }
    }
}

impl Json {
    /// The field `key` of an object.
    pub fn get(&self, key: &str) -> (field: Option<&Json>)
        ensures
            match field {
                Some(f) => self@.get(key@) == Some(f@),
                None => self@.get(key@) is None,
            },
    {
        match self {
            Json::Object(fields) => {
                let mut end: usize = fields.len();
                assert(fields@.take(end as int) =~= fields@);
                while end > 0
                    invariant
                        *self == Json::Object(*fields),
                        end <= fields@.len(),
                        self@.get(key@) == JsonView::Object(
                            fields_view(fields@.take(end as int)),
                        ).get(key@),
                    decreases end,
                {
                    assert(fields@.take(end as int).drop_last() =~= fields@.take(end - 1));
                    if str_eq(fields[end - 1].0.as_str(), key) {
                        return Some(&fields[end - 1].1);
                    }
                    end -= 1;
                }
                None
            },
            _ => None,
        }
    }

    /// The text, if it is one.
    pub fn as_str(&self) -> (text: Option<&str>)
        ensures
            match text {
                Some(t) => self@.text() == Some(t@),
                None => self@.text() is None,
            },
    {
        match self {
            Json::Text(text) => Some(text.as_str()),
            _ => None,
        }
    }

    /// The text of the field `key`, if that is one.
    pub fn text_of(&self, key: &str) -> (text: Option<String>)
        ensures
            match text {
                Some(t) => self@.text_of(key@) == Some(t@),
                None => self@.text_of(key@) is None,
            },
    {
        match self.get(key) {
            None => None,
            Some(field) => match field.as_str() {
                None => None,
                Some(text) => Some(text.to_owned()),
            },
        }
    }
}

/// Adds a field to an object that is being built.
pub(crate) fn push_field(fields: &mut Vec<(String, Json)>, name: &str, value: Json)
    ensures
        fields_view(final(fields)@) == fields_view(old(fields)@).insert(name@, value@),
{
    let ghost before = fields@;
    fields.push((name.to_owned(), value));
    assert(fields@.drop_last() =~= before);
}

/// The array with the one item `item`.
pub(crate) fn one_item(item: Json) -> (array: Json)
    ensures
        array@ == JsonView::Array(seq![item@]),
{
    let mut items: Vec<Json> = Vec::new();
    items.push(item);
    assert(items@.drop_last() =~= Seq::<Json>::empty());
    assert(items_view(items@.drop_last()) =~= Seq::empty());
    assert(items_view(items@) =~= seq![item@]);
    Json::Array(items)
}

/// The object with the one field `name`.
pub(crate) fn one_field(name: &str, value: Json) -> (object: Json)
    ensures
        object@ == JsonView::Object(map![name@ => value@]),
{
    let mut fields: Vec<(String, Json)> = Vec::new();
    push_field(&mut fields, name, value);
    assert(fields_view(fields@) =~= map![name@ => value@]);
    Json::Object(fields)
}

/// The object without fields.
pub(crate) fn no_fields() -> (object: Json)
    ensures
        object@ == JsonView::Object(Map::empty()),
{
    Json::Object(Vec::new())
}

proof fn lemma_items_view(items: Seq<Json>)
    ensures
        items_view(items).len() == items.len(),
        forall|i: int| 0 <= i < items.len() ==> #[trigger] items_view(items)[i] == items[i]@,
    decreases items.len(),
{
    if items.len() > 0 {
        let rest = items.drop_last();
        lemma_items_view(rest);
        assert forall|i: int| 0 <= i < items.len() implies #[trigger] items_view(items)[i]
            == items[i]@ by {
            if i < rest.len() {
                assert(items_view(rest)[i] == rest[i]@);
            }
        }
    }
}

/// A value shows what it holds: itself where it holds no others, and otherwise
/// as many items as it has, each in its place.
pub proof fn values_show_what_they_hold(json: Json)
    ensures
        json is Null ==> json@ == JsonView::Null,
        json matches Json::Bool(b) ==> json@ == JsonView::Bool(b),
        json matches Json::Int(i) ==> json@ == JsonView::Int(i as int),
        json matches Json::Number(n) ==> json@ == JsonView::Number(n),
        json matches Json::Text(text) ==> json@ == JsonView::Text(text@),
        json matches Json::Array(items) ==> json@ is Array && json@->Array_0.len() == items@.len()
            && forall|i: int|
            0 <= i < items@.len() ==> #[trigger] json@->Array_0[i] == items@[i]@,
        json matches Json::Object(fields) ==> json@ == JsonView::Object(fields_view(fields@)),
{
    if let Json::Array(items) = json {
        lemma_items_view(items@);
    }
}

/// The fields of an object are those that it was given, and of two with one name
/// the later.
pub proof fn the_last_field_of_a_name_counts(fields: Seq<(String, Json)>, i: int)
    requires
        0 <= i < fields.len(),
        forall|j: int| i < j < fields.len() ==> (#[trigger] fields[j]).0@ != fields[i].0@,
    ensures
        fields_view(fields).contains_key(fields[i].0@),
        fields_view(fields)[fields[i].0@] == fields[i].1@,
    decreases fields.len(),
{
    if i < fields.len() - 1 {
        let rest = fields.drop_last();
        assert forall|j: int| i < j < rest.len() implies (#[trigger] rest[j]).0@ != rest[i].0@ by {
            assert(rest[j] == fields[j]);
        }
        the_last_field_of_a_name_counts(rest, i);
        assert(fields[fields.len() - 1].0@ != fields[i].0@);
    }
}

/// An object has no field that it was not given.
pub proof fn every_field_was_given(fields: Seq<(String, Json)>, key: Seq<char>)
    ensures
        fields_view(fields).contains_key(key) <==> exists|i: int|
            0 <= i < fields.len() && (#[trigger] fields[i]).0@ == key,
    decreases fields.len(),
{
    if fields.len() > 0 {
        let rest = fields.drop_last();
        every_field_was_given(rest, key);
        if fields.last().0@ == key {
            assert(fields[fields.len() - 1].0@ == key);
        }
        if fields_view(rest).contains_key(key) {
            let i = choose|i: int| 0 <= i < rest.len() && (#[trigger] rest[i]).0@ == key;
            assert(fields[i].0@ == key);
        }
        if exists|i: int| 0 <= i < fields.len() && (#[trigger] fields[i]).0@ == key {
            let i = choose|i: int| 0 <= i < fields.len() && (#[trigger] fields[i]).0@ == key;
            if i < rest.len() {
                assert(rest[i].0@ == key);
            }
        }
    }
}

/// A field is found exactly where there is an object that has it, and its text
/// exactly where it is text.
pub proof fn fields_are_found_by_name(
    json: JsonView,
    key: Seq<char>,
    field: JsonView,
    text: Seq<char>,
)
    ensures
        json.get(key) == Some(field) <==> json is Object && json->Object_0.contains_key(key)
            && json->Object_0[key] == field,
        json.get(key) is None <==> !(json is Object) || !json->Object_0.contains_key(key),
        json.text() == Some(text) <==> json == JsonView::Text(text),
        json.text_of(key) == Some(text) <==> json is Object && json->Object_0.contains_key(key)
            && json->Object_0[key] == JsonView::Text(text),
{
}

} // verus!
