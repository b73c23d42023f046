//! A plain model of JSON values, as the library reads and builds them.

use vstd::prelude::*;

use crate::text::{chars_equal, parse_u64, parse_u64_spec};

verus! {

/// A JSON value. A number is kept as its decimal text, as it stood in the document.
#[derive(Debug, PartialEq, Eq)]
pub enum Json {
    Null,
    Bool(bool),
    Number(String),
    Str(String),
    Array(Vec<Json>),
    Object(Vec<(String, Json)>),
}

/// The mathematical value of a [`Json`].
pub enum JsonView {
    Null,
    Bool(bool),
    Number(Seq<char>),
    Str(Seq<char>),
    Array(Seq<JsonView>),
    Object(Seq<(Seq<char>, JsonView)>),
}

impl Json {
    pub open spec fn model(self) -> JsonView
        decreases self,
    {
        match self {
            Json::Null => JsonView::Null,
            Json::Bool(b) => JsonView::Bool(b),
            Json::Number(n) => JsonView::Number(n@),
            Json::Str(s) => JsonView::Str(s@),
            Json::Array(v) => JsonView::Array(
                Seq::new(
                    v@.len(),
                    |i: int|
                        if 0 <= i < v@.len() {
                            v@[i].model()
                        } else {
                            JsonView::Null
                        },
                ),
            ),
            Json::Object(v) => JsonView::Object(
                Seq::new(
                    v@.len(),
                    |i: int|
                        if 0 <= i < v@.len() {
                            (v@[i].0@, v@[i].1.model())
                        } else {
                            (Seq::empty(), JsonView::Null)
                        },
                ),
            ),
        }
    }
}

impl View for Json {
    type V = JsonView;

    open spec fn view(&self) -> JsonView {
        self.model()
    }
}

/// The value stored under `key` among `fields`: the first entry with that key.
pub open spec fn lookup(fields: Seq<(Seq<char>, JsonView)>, key: Seq<char>) -> Option<JsonView>
    decreases fields.len(),
{
    if fields.len() == 0 {
        None
    } else if fields[0].0 == key {
        Some(fields[0].1)
    } else {
        lookup(fields.skip(1), key)
    }
}

impl JsonView {
    /// The member `key` of an object; `None` for a missing key or a value that is no object.
    pub open spec fn field(self, key: Seq<char>) -> Option<JsonView> {
        match self {
            JsonView::Object(fields) => lookup(fields, key),
            _ => None,
        }
    }

    /// The text of a string value.
    pub open spec fn text(self) -> Option<Seq<char>> {
        match self {
            JsonView::Str(s) => Some(s),
            _ => None,
        }
    }

    /// The text of the string member `key`.
    pub open spec fn field_text(self, key: Seq<char>) -> Option<Seq<char>> {
        match self.field(key) {
            Some(v) => v.text(),
            None => None,
        }
    }

    /// The value of the boolean member `key`.
    pub open spec fn field_bool(self, key: Seq<char>) -> Option<bool> {
        match self.field(key) {
            Some(JsonView::Bool(b)) => Some(b),
            _ => None,
        }
    }

    /// The value of a number that is a whole number in the range of `u64`.
    pub open spec fn as_u64(self) -> Option<u64> {
        match self {
            JsonView::Number(n) => parse_u64_spec(n),
            _ => None,
        }
    }
}

proof fn lemma_lookup_step(fields: Seq<(Seq<char>, JsonView)>, key: Seq<char>, i: int)
    requires
        0 <= i < fields.len(),
        forall|j: int| 0 <= j < i ==> fields[j].0 != key,
    ensures
        lookup(fields, key) == lookup(fields.skip(i), key),
    decreases i,
{
    if i > 0 {
        assert(fields[0].0 != key);
        assert forall|j: int| 0 <= j < i - 1 implies fields.skip(1)[j].0 != key by {
            assert(fields.skip(1)[j] == fields[j + 1]);
        }
        lemma_lookup_step(fields.skip(1), key, i - 1);
        assert(fields.skip(1).skip(i - 1) =~= fields.skip(i));
    } else {
        assert(fields.skip(0) =~= fields);
    }
}

proof fn lemma_lookup_none(fields: Seq<(Seq<char>, JsonView)>, key: Seq<char>)
    requires
        forall|j: int| 0 <= j < fields.len() ==> fields[j].0 != key,
    ensures
        lookup(fields, key) == None::<JsonView>,
    decreases fields.len(),
{
    if fields.len() > 0 {
        assert forall|j: int| 0 <= j < fields.len() - 1 implies fields.skip(1)[j].0 != key by {
            assert(fields.skip(1)[j] == fields[j + 1]);
        }
        lemma_lookup_none(fields.skip(1), key);
    }
}

impl Json {
    /// A string value.
    pub fn from_str(s: &str) -> (r: Json)
        ensures
            r@ == JsonView::Str(s@),
    {
        Json::Str(s.to_owned())
    }

    /// The member `key` of an object (`None` for a missing key or a value that is no object).
    pub fn get(&self, key: &str) -> (r: Option<&Json>)
        ensures
            r matches Some(v) ==> self@.field(key@) == Some(v@),
            r is None ==> self@.field(key@) is None,
    {
        match self {
            Json::Object(fields) => {
                let ghost model = self@;
                let ghost fv = match model {
                    JsonView::Object(f) => f,
                    _ => Seq::empty(),
                };
                assert(fv.len() == fields@.len());
                let mut i: usize = 0;
                while i < fields.len()
                    invariant
                        i <= fields@.len(),
                        *self == Json::Object(*fields),
                        self@ == JsonView::Object(fv),
                        fv.len() == fields@.len(),
                        forall|j: int| 0 <= j < fields@.len() ==> #[trigger] fv[j] == (fields@[j].0@, fields@[j].1@),
                        forall|j: int| 0 <= j < i ==> fv[j].0 != key@,
                    decreases fields@.len() - i,
                {
                    if chars_equal(fields[i].0.as_str(), key) {
                        proof {
                            lemma_lookup_step(fv, key@, i as int);
                            assert(fv.skip(i as int)[0] == fv[i as int]);
                        }
                        return Some(&fields[i].1);
                    }
                    i += 1;
                }
                proof {
                    lemma_lookup_none(fv, key@);
                }
                None
            },
            _ => None,
        }
    }

    /// The text of a string value.
    pub fn as_str(&self) -> (r: Option<&str>)
        ensures
            r matches Some(s) ==> self@.text() == Some(s@),
            r is None ==> self@.text() is None,
    {
        match self {
            Json::Str(s) => Some(s.as_str()),
            _ => None,
        }
    }

    /// The value of a boolean.
    pub fn as_bool(&self) -> (r: Option<bool>)
        ensures
            r == (match self@ {
                JsonView::Bool(b) => Some(b),
                _ => None::<bool>,
            }),
    {
        match self {
            Json::Bool(b) => Some(*b),
            _ => None,
        }
    }

    /// The elements of an array.
    pub fn as_array(&self) -> (r: Option<&Vec<Json>>)
        ensures
            r matches Some(v) ==> self is Array && self->Array_0 == *v,
            r is None ==> !(self is Array),
    {
        match self {
            Json::Array(v) => Some(v),
            _ => None,
        }
    }

    /// Whether this is an object.
    pub fn is_object(&self) -> (r: bool)
        ensures
            r == (self@ is Object),
    {
        match self {
            Json::Object(_) => true,
            _ => false,
        }
    }

    /// The value of a number that is a whole number in the range of `u64`.
    pub fn as_u64(&self) -> (r: Option<u64>)
        ensures
            r == self@.as_u64(),
    {
        match self {
            Json::Number(n) => parse_u64(n.as_str()),
            _ => None,
        }
    }

    /// The text of the string member `key`.
    pub fn get_str(&self, key: &str) -> (r: Option<String>)
        ensures
            r matches Some(s) ==> self@.field_text(key@) == Some(s@),
            r is None ==> self@.field_text(key@) is None,
    {
        match self.get(key) {
            Some(v) => match v.as_str() {
                Some(s) => Some(s.to_owned()),
                None => None,
            },
            None => None,
        }
    }

    /// Whether this is an object with a string member `key`.
    pub fn has_str(&self, key: &str) -> (r: bool)
        ensures
            r == self@.field_text(key@) is Some,
    {
        self.get_str(key).is_some()
    }

    /// The text of the string member `key`, which must be there.
    pub fn str_member(&self, key: &str) -> (r: String)
        requires
            self@.field_text(key@) is Some,
        ensures
            self@.field_text(key@) == Some(r@),
    {
        match self.get_str(key) {
            Some(s) => s,
            None => String::new(),
        }
    }

    /// The value of the boolean member `key`.
    pub fn get_bool(&self, key: &str) -> (r: Option<bool>)
        ensures
            r == self@.field_bool(key@),
    {
        match self.get(key) {
            Some(v) => v.as_bool(),
            None => None,
        }
    }
}

} // verus!

verus! {

/// The values of a list of members.
pub open spec fn fields_model(fields: Seq<(String, Json)>) -> Seq<(Seq<char>, JsonView)> {
    Seq::new(fields.len(), |i: int| (fields[i].0@, fields[i].1@))
}

/// The values of a list of elements.
pub open spec fn items_model(items: Seq<Json>) -> Seq<JsonView> {
    Seq::new(items.len(), |i: int| items[i]@)
}

/// A member of an object: a key and its value.
pub fn entry(key: &str, value: Json) -> (r: (String, Json))
    ensures
        r.0@ == key@,
        r.1 == value,
{
    (key.to_owned(), value)
}

impl Json {
    /// An object with the given members, in order.
    pub fn object(fields: Vec<(String, Json)>) -> (r: Json)
        ensures
            r@ == JsonView::Object(fields_model(fields@)),
    {
        let r = Json::Object(fields);
        assert(r@ == JsonView::Object(fields_model(fields@))) by {
            match r@ {
                JsonView::Object(s) => {
                    assert(s =~= fields_model(fields@));
                },
                _ => {},
            }
        }
        r
    }

    /// An array with the given elements, in order.
    pub fn array(items: Vec<Json>) -> (r: Json)
        ensures
            r@ == JsonView::Array(items_model(items@)),
    {
        let r = Json::Array(items);
        assert(r@ == JsonView::Array(items_model(items@))) by {
            match r@ {
                JsonView::Array(s) => {
                    assert(s =~= items_model(items@));
                },
                _ => {},
            }
        }
        r
    }

    /// A whole number.
    pub fn from_u64(n: u64) -> (r: Json)
        ensures
            r@ == JsonView::Number(crate::text::decimal_text_spec(n as nat)),
    {
        Json::Number(crate::text::decimal_text(n))
    }
}

} // verus!
