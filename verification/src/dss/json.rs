use vstd::prelude::*;

verus! {

/// A JSON value. Numbers are kept as their decimal text.
#[derive(Debug, PartialEq, Eq)]
pub enum Json {
    Null,
    Bool(bool),
    Number(String),
    String(String),
    Array(Vec<Json>),
    Object(Vec<(String, Json)>),
}

/// The mathematical model of a JSON value: strings are sequences of
/// characters, arrays sequences of values, objects sequences of entries.
pub enum JsonModel {
    Null,
    Bool(bool),
    Number(Seq<char>),
    Str(Seq<char>),
    Array(Seq<JsonModel>),
    Object(Seq<(Seq<char>, JsonModel)>),
}

/// The model of a JSON value.
pub open spec fn json_model(j: Json) -> JsonModel
    decreases j,
{
    match j {
        Json::Null => JsonModel::Null,
        Json::Bool(b) => JsonModel::Bool(b),
        Json::Number(n) => JsonModel::Number(n@),
        Json::String(s) => JsonModel::Str(s@),
        Json::Array(items) => JsonModel::Array(items_model(items@)),
        Json::Object(entries) => JsonModel::Object(entries_model(entries@)),
    }
}

/// The models of a sequence of JSON values, in order.
pub open spec fn items_model(items: Seq<Json>) -> Seq<JsonModel>
    decreases items,
{
    if items.len() == 0 {
        Seq::empty()
    } else {
        items_model(items.subrange(0, items.len() - 1)).push(json_model(items[items.len() - 1]))
    }
}

/// The models of a sequence of object entries, in order.
pub open spec fn entries_model(entries: Seq<(String, Json)>) -> Seq<(Seq<char>, JsonModel)>
    decreases entries,
{
    if entries.len() == 0 {
        Seq::empty()
    } else {
        let last = entries[entries.len() - 1];
        entries_model(entries.subrange(0, entries.len() - 1)).push((last.0@, json_model(last.1)))
    }
}

/// The value of the first entry named `key`, if any.
pub open spec fn lookup(entries: Seq<(Seq<char>, JsonModel)>, key: Seq<char>) -> Option<JsonModel>
    decreases entries.len(),
{
    if entries.len() == 0 {
        None
    } else if entries[0].0 == key {
        Some(entries[0].1)
    } else {
        lookup(entries.drop_first(), key)
    }
}

/// An object's member is the value of the first entry with that name.
pub proof fn lemma_lookup_at(entries: Seq<(Seq<char>, JsonModel)>, key: Seq<char>, j: int)
    requires
        0 <= j < entries.len(),
        entries[j].0 == key,
        forall|i: int| 0 <= i < j ==> entries[i].0 != key,
    ensures
        lookup(entries, key) == Some(entries[j].1),
    decreases j,
{
    if j > 0 {
        let rest = entries.drop_first();
        assert forall|i: int| 0 <= i < j - 1 implies rest[i].0 != key by {
            assert(rest[i] == entries[i + 1]);
        }
        lemma_lookup_at(rest, key, j - 1);
    }
}

/// An object without an entry of that name has no such member.
pub proof fn lemma_lookup_absent(entries: Seq<(Seq<char>, JsonModel)>, key: Seq<char>)
    requires
        forall|i: int| 0 <= i < entries.len() ==> entries[i].0 != key,
    ensures
        lookup(entries, key) is None,
    decreases entries.len(),
{
    if entries.len() > 0 {
        let rest = entries.drop_first();
        assert forall|i: int| 0 <= i < rest.len() implies rest[i].0 != key by {
            assert(rest[i] == entries[i + 1]);
        }
        lemma_lookup_absent(rest, key);
    }
}

impl JsonModel {
    /// The member named `key` of an object; `None` for anything else.
    pub open spec fn get(self, key: Seq<char>) -> Option<JsonModel> {
        match self {
            JsonModel::Object(entries) => lookup(entries, key),
            _ => None,
        }
    }

    /// The text of a string value; `None` for anything else.
    pub open spec fn as_str(self) -> Option<Seq<char>> {
        match self {
            JsonModel::Str(s) => Some(s),
            _ => None,
        }
    }

    /// The items of an array; `None` for anything else.
    pub open spec fn as_array(self) -> Option<Seq<JsonModel>> {
        match self {
            JsonModel::Array(items) => Some(items),
            _ => None,
        }
    }
}

/// The model of a sequence of values has one model per value, in order.
pub proof fn lemma_items_model(items: Seq<Json>)
    ensures
        items_model(items).len() == items.len(),
        forall|i: int| 0 <= i < items.len() ==> #[trigger] items_model(items)[i] == json_model(items[i]),
    decreases items.len(),
{
    if items.len() > 0 {
        let init = items.subrange(0, items.len() - 1);
        lemma_items_model(init);
        assert forall|i: int| 0 <= i < items.len() implies #[trigger] items_model(items)[i] == json_model(items[i]) by {
            if i < items.len() - 1 {
                assert(init[i] == items[i]);
            }
        }
    }
}

/// The model of a sequence of entries has one model per entry, in order.
pub proof fn lemma_entries_model(entries: Seq<(String, Json)>)
    ensures
        entries_model(entries).len() == entries.len(),
        forall|i: int| 0 <= i < entries.len() ==> #[trigger] entries_model(entries)[i] == (entries[i].0@, json_model(entries[i].1)),
    decreases entries.len(),
{
    if entries.len() > 0 {
        let init = entries.subrange(0, entries.len() - 1);
        lemma_entries_model(init);
        assert forall|i: int| 0 <= i < entries.len() implies #[trigger] entries_model(entries)[i] == (entries[i].0@, json_model(entries[i].1)) by {
            if i < entries.len() - 1 {
                assert(init[i] == entries[i]);
            }
        }
    }
}

impl Json {
    /// The member named `key` of an object (the first one, should the name
    /// repeat); `None` when `self` is not an object or has no such member.
    pub fn get(&self, key: &str) -> (res: Option<&Json>)
        ensures
            match res {
                Some(v) => self@.get(key@) == Some(v@),
                None => self@.get(key@) is None,
            },
    {
        match self {
            Json::Object(entries) => {
                let wanted = key.to_owned();
                let ghost model = entries_model(entries@);
                proof {
                    lemma_entries_model(entries@);
                    assert(model.skip(0) =~= model);
                }
                let mut i: usize = 0;
                while i < entries.len()
                    invariant
                        0 <= i <= entries.len(),
                        wanted@ == key@,
                        model == entries_model(entries@),
                        self@ == JsonModel::Object(model),
                        model.len() == entries.len(),
                        forall|j: int| 0 <= j < entries.len() ==> #[trigger] model[j] == (entries@[j].0@, json_model(entries@[j].1)),
                        lookup(model, key@) == lookup(model.skip(i as int), key@),
                    decreases entries.len() - i,
                {
                    assert(model.skip(i as int)[0] == model[i as int]);
                    if entries[i].0 == wanted {
                        return Some(&entries[i].1);
                    }
                    assert(model.skip(i as int).drop_first() =~= model.skip(i + 1));
                    i = i + 1;
                }
                None
            },
            _ => None,
        }
    }

    /// The text of a string value; `None` for anything else.
    pub fn as_str(&self) -> (res: Option<&str>)
        ensures
            match res {
                Some(s) => self@.as_str() == Some(s@),
                None => self@.as_str() is None,
            },
    {
        match self {
            Json::String(s) => Some(s.as_str()),
            _ => None,
        }
    }

    /// The items of an array; `None` for anything else.
    pub fn as_array(&self) -> (res: Option<&Vec<Json>>)
        ensures
            match res {
                Some(items) => self@.as_array() == Some(items_model(items@)),
                None => self@.as_array() is None,
            },
    {
        match self {
            Json::Array(items) => Some(items),
            _ => None,
        }
    }
}

impl View for Json {
    type V = JsonModel;

    open spec fn view(&self) -> JsonModel {
        json_model(*self)
    }
}

} // verus!
