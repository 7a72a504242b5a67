use vstd::prelude::*;

verus! {

/// A JSON document as a mathematical tree.
pub enum JsonValue {
    Null,
    Bool(bool),
    Number(Seq<char>),
    Text(Seq<char>),
    List(Seq<JsonValue>),
    Object(Seq<(Seq<char>, JsonValue)>),
}

/// One `"key": value` entry of a JSON object.
#[derive(Debug, PartialEq, Eq)]
pub struct Member {
    pub key: String,
    pub value: Json,
}

/// A JSON document held as plain data. Numbers keep their decimal text.
#[derive(Debug, PartialEq, Eq)]
pub enum Json {
    Null,
    Bool(bool),
    Number(String),
    Text(String),
    List(Vec<Json>),
    Object(Vec<Member>),
}

impl View for Json {
    type V = JsonValue;

    open spec fn view(&self) -> JsonValue
        decreases self,
    {
        match self {
            Json::Null => JsonValue::Null,
            Json::Bool(b) => JsonValue::Bool(*b),
            Json::Number(n) => JsonValue::Number(n@),
            Json::Text(t) => JsonValue::Text(t@),
            Json::List(items) => JsonValue::List(
                Seq::new(
                    items@.len(),
                    |i: int|
                        if 0 <= i < items@.len() {
                            items@[i].view()
                        } else {
                            JsonValue::Null
                        },
                ),
            ),
            Json::Object(members) => JsonValue::Object(
                Seq::new(
                    members@.len(),
                    |i: int|
                        if 0 <= i < members@.len() {
                            (members@[i].key@, members@[i].value.view())
                        } else {
                            (Seq::empty(), JsonValue::Null)
                        },
                ),
            ),
        }
    }
}

impl JsonValue {
    /// The value stored under `key`, if this is an object that has such a member.
    pub open spec fn member(self, key: Seq<char>) -> Option<JsonValue> {
        match self {
            JsonValue::Object(members) => lookup(members, key),
            _ => None,
        }
    }

    /// The element at `index`, if this is an array that is long enough.
    pub open spec fn element(self, index: int) -> Option<JsonValue> {
        match self {
            JsonValue::List(items) => if 0 <= index < items.len() {
                Some(items[index])
            } else {
                None
            },
            _ => None,
        }
    }

    /// The characters of a JSON string; `None` for every other kind of value.
    pub open spec fn text(self) -> Option<Seq<char>> {
        match self {
            JsonValue::Text(t) => Some(t),
            _ => None,
        }
    }

    /// The value of a JSON boolean; `None` for every other kind of value.
    pub open spec fn flag(self) -> Option<bool> {
        match self {
            JsonValue::Bool(b) => Some(b),
            _ => None,
        }
    }
}

/// The value of the first member named `key`.
pub open spec fn lookup(members: Seq<(Seq<char>, JsonValue)>, key: Seq<char>) -> Option<JsonValue>
    decreases members.len(),
{
    if members.len() == 0 {
        None
    } else if members[0].0 == key {
        Some(members[0].1)
    } else {
        lookup(members.drop_first(), key)
    }
}

/// The view of an object holds one entry for each member, in the same order.
proof fn lemma_object_view(members: Vec<Member>)
    ensures
        Json::Object(members)@ is Object,
        Json::Object(members)@->Object_0.len() == members@.len(),
        forall|k: int|
            0 <= k < members@.len() ==> (#[trigger] Json::Object(members)@->Object_0[k]) == (
                members@[k].key@,
                members@[k].value@,
            ),
{
    reveal_with_fuel(<Json as View>::view, 2);
}

/// The view of an array holds the view of each element, in the same order.
proof fn lemma_list_view(items: Vec<Json>)
    ensures
        Json::List(items)@ is List,
        Json::List(items)@->List_0.len() == items@.len(),
        forall|k: int|
            0 <= k < items@.len() ==> (#[trigger] Json::List(items)@->List_0[k]) == items@[k]@,
{
    reveal_with_fuel(<Json as View>::view, 2);
}

/// What `serde_json::from_str` makes of `text`: the document it reads, or `None` where it
/// reports an error.
pub uninterp spec fn json_from_str(text: Seq<char>) -> Option<JsonValue>;

/// `serde_json::Value`, of which nothing is known here: a document is looked into only
/// once it has been copied into a [`Json`].
#[verifier::external_type_specification]
#[verifier::external_body]
pub struct ExValue(serde_json::Value);

/// Copies a `serde_json::Value` into a [`Json`], variant by variant. A number is kept as the
/// text that its `Display` impl prints; the members of an object come in the order in which
/// `serde_json::Map` hands them out.
#[verifier::external_body]
fn from_value(value: serde_json::Value) -> Json {
    match value {
        serde_json::Value::Null => Json::Null,
        serde_json::Value::Bool(b) => Json::Bool(b),
        serde_json::Value::Number(n) => Json::Number(n.to_string()),
        serde_json::Value::String(s) => Json::Text(s),
        serde_json::Value::Array(items) => Json::List(items.into_iter().map(from_value).collect()),
        serde_json::Value::Object(map) => Json::Object(
            map.into_iter().map(|(key, value)| Member { key, value: from_value(value) }).collect(),
        ),
    }
}

/// Runs `serde_json::from_str` on `text`. The contract only gives the outcome its name:
/// equal texts read as equal documents, and an error is reported as `None`.
#[verifier::external_body]
fn from_str(text: &str) -> (doc: Option<Json>)
    ensures
        match doc {
            Some(d) => json_from_str(text@) == Some(d@),
            None => json_from_str(text@) is None,
        },
{
    serde_json::from_str::<serde_json::Value>(text).ok().map(from_value)
}

impl Json {
    /// Reads `text` as one JSON document.
    pub fn parse(text: &str) -> (doc: Option<Json>)
        ensures
            match doc {
                Some(d) => json_from_str(text@) == Some(d@),
                None => json_from_str(text@) is None,
            },
    {
        from_str(text)
    }

    /// The value stored under `key`, if this is an object that has such a member.
    pub fn member(&self, key: &str) -> (found: Option<&Json>)
        ensures
            match found {
                Some(j) => self@.member(key@) == Some(j@),
                None => self@.member(key@) is None,
            },
    {
        match self {
            Json::Object(members) => {
                let ghost all = self@->Object_0;
                proof {
                    assert(*self == Json::Object(*members));
                    lemma_object_view(*members);
                    assert(all.skip(0) =~= all);
                }
                let mut i: usize = 0;
                while i < members.len()
                    invariant
                        i <= members.len(),
                        self@ == JsonValue::Object(all),
                        all.len() == members@.len(),
                        forall|k: int|
                            0 <= k < all.len() ==> (#[trigger] all[k]) == (
                                members@[k].key@,
                                members@[k].value@,
                            ),
                        lookup(all, key@) == lookup(all.skip(i as int), key@),
                    decreases members.len() - i,
                {
                    let entry = &members[i];
                    proof {
                        let rest = all.skip(i as int);
                        assert(rest[0] == all[i as int]);
                        assert(rest.drop_first() =~= all.skip(i + 1));
                    }
                    if entry.key.as_str().eq(key) {
                        return Some(&entry.value);
                    }
                    i += 1;
                }
                None
            },
            _ => None,
        }
    }

    /// The element at `index`, if this is an array that is long enough.
    pub fn element(&self, index: usize) -> (found: Option<&Json>)
        ensures
            match found {
                Some(j) => self@.element(index as int) == Some(j@),
                None => self@.element(index as int) is None,
            },
    {
        match self {
            Json::List(items) => {
                proof {
                    assert(*self == Json::List(*items));
                    lemma_list_view(*items);
                }
                if index < items.len() {
                    Some(&items[index])
                } else {
                    None
                }
            },
            _ => None,
        }
    }

    /// The characters of a JSON string; `None` for every other kind of value.
    pub fn as_text(&self) -> (found: Option<&str>)
        ensures
            match found {
                Some(t) => self@.text() == Some(t@),
                None => self@.text() is None,
            },
    {
        match self {
            Json::Text(t) => Some(t.as_str()),
            _ => None,
        }
    }

    /// The value of a JSON boolean; `None` for every other kind of value.
    pub fn as_flag(&self) -> (found: Option<bool>)
        ensures
            found == self@.flag(),
    {
        match self {
            Json::Bool(b) => Some(*b),
            _ => None,
        }
    }
}

} // verus!
