//! JSON values as plain data.

use vstd::prelude::*;

use crate::text::{push_text, same_text, Text};

verus! {

/// A JSON value.
#[derive(Debug)]
pub enum Json {
    Null,
    Bool(bool),
    /// A number, by its text.
    Number(String),
    Str(String),
    Array(Vec<Json>),
    /// The fields of an object, no key twice.
    Object(Vec<(String, Json)>),
}

/// What a `Json` says.
pub ghost enum JsonModel {
    Null,
    Bool(bool),
    Number(Text),
    Str(Text),
    Array(Seq<JsonModel>),
    Object(Seq<(Text, JsonModel)>),
}

/// The meaning of a JSON value.
pub open spec fn json_model(json: Json) -> JsonModel
    decreases json,
{
    match json {
        Json::Null => JsonModel::Null,
        Json::Bool(b) => JsonModel::Bool(b),
        Json::Number(n) => JsonModel::Number(n@),
        Json::Str(s) => JsonModel::Str(s@),
        Json::Array(items) => JsonModel::Array(
            Seq::new(
                items@.len(),
                |i: int|
                    if 0 <= i < items@.len() {
                        json_model(items@[i])
                    } else {
                        arbitrary()
                    },
            ),
        ),
        Json::Object(fields) => JsonModel::Object(
            Seq::new(
                fields@.len(),
                |i: int|
                    if 0 <= i < fields@.len() {
                        (fields@[i].0@, json_model(fields@[i].1))
                    } else {
                        arbitrary()
                    },
            ),
        ),
    }
}

impl DeepView for Json {
    type V = JsonModel;

    open spec fn deep_view(&self) -> JsonModel {
        json_model(*self)
    }
}

impl Clone for Json {
    fn clone(&self) -> (r: Json)
        ensures
            r.deep_view() == self.deep_view(),
        decreases self,
    {
        match self {
            Json::Null => Json::Null,
            Json::Bool(b) => Json::Bool(*b),
            Json::Number(n) => Json::Number(n.clone()),
            Json::Str(s) => Json::Str(s.clone()),
            Json::Array(items) => {
                let mut copy: Vec<Json> = Vec::new();
                let mut i: usize = 0;
                while i < items.len()
                    invariant
                        i <= items@.len(),
                        *self == Json::Array(*items),
                        copy@.len() == i,
                        forall|j: int|
                            0 <= j < i ==> json_model(#[trigger] copy@[j]) == json_model(items@[j]),
                    decreases items@.len() - i,
                {
                    let item: &Json = &items[i];
                    assert(*items == self->Array_0);
                    assert(decreases_to!(*self => self->Array_0));
                    copy.push(item.clone());
                    i += 1;
                }
                assert(json_model(Json::Array(copy))->Array_0 =~= json_model(*self)->Array_0);
                Json::Array(copy)
            },
            Json::Object(fields) => {
                let mut copy: Vec<(String, Json)> = Vec::new();
                let mut i: usize = 0;
                while i < fields.len()
                    invariant
                        i <= fields@.len(),
                        *self == Json::Object(*fields),
                        copy@.len() == i,
                        forall|j: int|
                            #![trigger copy@[j]]
                            0 <= j < i ==> copy@[j].0@ == fields@[j].0@ && json_model(copy@[j].1)
                                == json_model(fields@[j].1),
                    decreases fields@.len() - i,
                {
                    let value: &Json = &fields[i].1;
                    assert(*fields == self->Object_0);
                    assert(decreases_to!(*self => self->Object_0));
                    assert(decreases_to!(fields@ => fields@[i as int]));
                    assert(decreases_to!(fields@[i as int] => fields@[i as int].1));
                    copy.push((fields[i].0.clone(), value.clone()));
                    i += 1;
                }
                assert(json_model(Json::Object(copy))->Object_0 =~= json_model(*self)->Object_0);
                Json::Object(copy)
            },
        }
    }
}

/// The value of the first field called `key`.
pub open spec fn field_named(fields: Seq<(Text, JsonModel)>, key: Text) -> Option<JsonModel>
    decreases fields.len(),
{
    if fields.len() == 0 {
        None
    } else if fields[0].0 == key {
        Some(fields[0].1)
    } else {
        field_named(fields.drop_first(), key)
    }
}

impl JsonModel {
    /// The field `key` of an object. Other values have no fields.
    pub open spec fn field(self, key: Text) -> Option<JsonModel> {
        match self {
            JsonModel::Object(fields) => field_named(fields, key),
            _ => None,
        }
    }

    /// The text of a string. Other values have none.
    pub open spec fn text(self) -> Option<Text> {
        match self {
            JsonModel::Str(s) => Some(s),
            _ => None,
        }
    }

    /// The text of the field `key`, where it is a string.
    pub open spec fn field_text(self, key: Text) -> Option<Text> {
        match self.field(key) {
            Some(value) => value.text(),
            None => None,
        }
    }

    /// The strings in the array at the field `key`, in order. What is no string
    /// is passed over; what is no array holds none.
    pub open spec fn field_texts(self, key: Text) -> Seq<Text> {
        match self.field(key) {
            Some(JsonModel::Array(items)) => items.filter_map(|item: JsonModel| item.text()),
            _ => Seq::empty(),
        }
    }
}

impl Json {
    /// The field `key` of an object.
    pub fn get(&self, key: &str) -> (r: Option<&Json>)
        ensures
            r.deep_view() == self.deep_view().field(key@),
    {
        let fields = match self {
            Json::Object(fields) => fields,
            _ => {
                return None;
            },
        };
        let ghost all = self.deep_view()->Object_0;
        let mut i: usize = 0;
        assert(all.skip(0) =~= all);
        while i < fields.len()
            invariant
                i <= fields@.len(),
                *self == Json::Object(*fields),
                self.deep_view() == JsonModel::Object(all),
                field_named(all, key@) == field_named(all.skip(i as int), key@),
            decreases fields@.len() - i,
        {
            assert(all.skip(i as int)[0] == (fields@[i as int].0@, json_model(fields@[i as int].1)));
            if same_text(fields[i].0.as_str(), key) {
                return Some(&fields[i].1);
            }
            assert(all.skip(i as int).drop_first() =~= all.skip(i + 1));
            i += 1;
        }
        None
    }

    /// The text of a string.
    pub fn as_str(&self) -> (r: Option<&str>)
        ensures
            r.deep_view() == self.deep_view().text(),
    {
        match self {
            Json::Str(s) => Some(s.as_str()),
            _ => None,
        }
    }

    /// The text of the field `key`, where it is a string.
    pub fn get_str(&self, key: &str) -> (r: Option<&str>)
        ensures
            r.deep_view() == self.deep_view().field_text(key@),
    {
        match self.get(key) {
            Some(value) => value.as_str(),
            None => None,
        }
    }

    /// The strings in the array at the field `key`.
    pub fn get_strings(&self, key: &str) -> (r: Vec<String>)
        ensures
            r.deep_view() == self.deep_view().field_texts(key@),
    {
        let mut r: Vec<String> = Vec::new();
        assert(r.deep_view() =~= Seq::<Text>::empty());
        if let Some(Json::Array(items)) = self.get(key) {
            let ghost all = items.deep_view();
            let ghost f = |item: JsonModel| item.text();
            assert(self.deep_view().field(key@) == Some(json_model(Json::Array(*items))));
            assert(json_model(Json::Array(*items))->Array_0 =~= all);
            let mut i: usize = 0;
            assert(r.deep_view() =~= all.take(0).filter_map(f));
            while i < items.len()
                invariant
                    i <= items@.len(),
                    all == items.deep_view(),
                    f == (|item: JsonModel| item.text()),
                    r.deep_view() == all.take(i as int).filter_map(f),
                decreases items@.len() - i,
            {
                let ghost before = r.deep_view();
                if let Some(s) = items[i].as_str() {
                    push_text(&mut r, s.to_string());
                    assert(r.deep_view() =~= before + seq![s@]);
                }
                i += 1;
                assert(all.take(i as int).drop_last() =~= all.take(i - 1));
                assert(all.take(i as int).last() == items@[i - 1].deep_view());
            }
            assert(all.take(i as int) =~= all);
        }
        r
    }
}

/// The array of the given strings.
pub open spec fn text_array(texts: Seq<Text>) -> JsonModel {
    JsonModel::Array(texts.map_values(|t: Text| JsonModel::Str(t)))
}

/// The object with a field for each of three keys: a string, a string, and an
/// array of strings.
pub open spec fn row_object(
    keys: (Text, Text, Text),
    row: (Text, Text, Seq<Text>),
) -> JsonModel {
    JsonModel::Object(
        seq![
            (keys.0, JsonModel::Str(row.0)),
            (keys.1, JsonModel::Str(row.1)),
            (keys.2, text_array(row.2)),
        ],
    )
}

/// The array of the objects of `rows`.
pub open spec fn row_array(
    keys: (Text, Text, Text),
    rows: Seq<(Text, Text, Seq<Text>)>,
) -> JsonModel {
    JsonModel::Array(rows.map_values(|row: (Text, Text, Seq<Text>)| row_object(keys, row)))
}

/// The compact JSON text that `serde_json::to_string` gives a value.
pub uninterp spec fn json_text(value: JsonModel) -> Seq<char>;

/// The error of `serde_json`.
#[verifier::external_type_specification]
#[verifier::external_body]
pub struct ExJsonError(serde_json::Error);

/// `serde_json::to_string` on a list of strings. It succeeds, for it fails only
/// on values whose own serialization fails and on maps with keys that are no
/// strings. Its result depends on the strings alone; which text it is goes
/// unsaid here.
#[verifier::external_body]
fn encode_text_list(texts: &Vec<String>) -> (r: Result<String, serde_json::Error>)
    ensures
        r is Ok,
        r->Ok_0@ == json_text(text_array(texts.deep_view())),
{
    serde_json::to_string(texts)
}

/// `serde_json::to_string` on a list of objects, each made of its row by
/// `Map::insert` and `Value::from`: the first two parts become strings, the
/// third an array of strings. It succeeds for the same reason as on strings.
/// Its result depends on the keys and rows alone; which text it is goes unsaid
/// here.
#[verifier::external_body]
fn encode_row_list(
    keys: (&str, &str, &str),
    rows: &Vec<(String, String, Vec<String>)>,
) -> (r: Result<String, serde_json::Error>)
    requires
        keys.0@ != keys.1@ && keys.0@ != keys.2@ && keys.1@ != keys.2@,
    ensures
        r is Ok,
        r->Ok_0@ == json_text(row_array((keys.0@, keys.1@, keys.2@), rows.deep_view())),
{
    let mut values = Vec::new();
    for row in rows {
        let mut object = serde_json::Map::new();
        object.insert(keys.0.to_string(), serde_json::Value::from(row.0.clone()));
        object.insert(keys.1.to_string(), serde_json::Value::from(row.1.clone()));
        object.insert(keys.2.to_string(), serde_json::Value::from(row.2.clone()));
        values.push(serde_json::Value::Object(object));
    }
    serde_json::to_string(&values)
}

/// Writes a list of strings as JSON.
pub fn texts_to_json(texts: &Vec<String>) -> (r: String)
    ensures
        r@ == json_text(text_array(texts.deep_view())),
{
    match encode_text_list(texts) {
        Ok(text) => text,
        Err(_) => String::new(),
    }
}

/// Writes a list of rows as a JSON array of objects with the given keys.
pub fn rows_to_json(
    keys: (&str, &str, &str),
    rows: &Vec<(String, String, Vec<String>)>,
) -> (r: String)
    requires
        keys.0@ != keys.1@ && keys.0@ != keys.2@ && keys.1@ != keys.2@,
    ensures
        r@ == json_text(row_array((keys.0@, keys.1@, keys.2@), rows.deep_view())),
{
    match encode_row_list(keys, rows) {
        Ok(text) => text,
        Err(_) => String::new(),
    }
}

} // verus!
