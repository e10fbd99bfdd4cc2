//! A plain model of JSON documents, as far as the backend builds and reads
//! them.

use crate::text::same_text;
use vstd::prelude::*;

verus! {

/// A JSON document.
///
/// A number with a fraction or an exponent is kept as the text it was
/// written with; the backend never computes with one.
#[derive(Debug, PartialEq)]
pub enum Json {
    Null,
    Bool(bool),
    Integer(i128),
    Real(String),
    Text(String),
    Array(Vec<Json>),
    Object(Vec<Member>),
}

/// One `key: value` pair of a JSON object.
#[derive(Debug, PartialEq)]
pub struct Member {
    pub key: String,
    pub value: Json,
}

/// The mathematical value of a [`Json`] document.
pub enum JsonView {
    Null,
    Bool(bool),
    Integer(int),
    Real(Seq<char>),
    Text(Seq<char>),
    Array(Seq<JsonView>),
    Object(Seq<(Seq<char>, JsonView)>),
}

/// The value of the first member of `members` whose key is `key`.
pub open spec fn first_with_key(members: Seq<(Seq<char>, JsonView)>, key: Seq<char>) -> Option<
    JsonView,
>
    decreases members.len(),
{
    if members.len() == 0 {
        None
    } else if members[0].0 == key {
        Some(members[0].1)
    } else {
        first_with_key(members.drop_first(), key)
    }
}

impl JsonView {
    /// The member `key` of an object. `None` where the document is no object
    /// or the object has no such member.
    pub open spec fn member(self, key: Seq<char>) -> Option<JsonView> {
        match self {
            JsonView::Object(members) => first_with_key(members, key),
            _ => None,
        }
    }

    /// The element at `index` of an array. `None` where the document is no
    /// array or the array is too short.
    pub open spec fn element(self, index: int) -> Option<JsonView> {
        match self {
            JsonView::Array(items) if 0 <= index < items.len() => Some(items[index]),
            _ => None,
        }
    }

    /// The text of a JSON string; `None` for any other document.
    pub open spec fn text(self) -> Option<Seq<char>> {
        match self {
            JsonView::Text(text) => Some(text),
            _ => None,
        }
    }

    /// The elements of a JSON array; `None` for any other document.
    pub open spec fn items(self) -> Option<Seq<JsonView>> {
        match self {
            JsonView::Array(items) => Some(items),
            _ => None,
        }
    }
}

/// `member` on a document that may be absent.
pub open spec fn member_of(doc: Option<JsonView>, key: Seq<char>) -> Option<JsonView> {
    match doc {
        Some(doc) => doc.member(key),
        None => None,
    }
}

/// `element` on a document that may be absent.
pub open spec fn element_of(doc: Option<JsonView>, index: int) -> Option<JsonView> {
    match doc {
        Some(doc) => doc.element(index),
        None => None,
    }
}

/// `text` on a document that may be absent.
pub open spec fn text_of(doc: Option<JsonView>) -> Option<Seq<char>> {
    match doc {
        Some(doc) => doc.text(),
        None => None,
    }
}

/// `items` on a document that may be absent.
pub open spec fn items_of(doc: Option<JsonView>) -> Option<Seq<JsonView>> {
    match doc {
        Some(doc) => doc.items(),
        None => None,
    }
}

/// The values of a list of documents.
pub open spec fn views_of(items: Seq<Json>) -> Seq<JsonView> {
    Seq::new(items.len(), |i: int| items[i]@)
}

/// The keys and values of a list of members.
pub open spec fn member_views_of(members: Seq<Member>) -> Seq<(Seq<char>, JsonView)> {
    Seq::new(members.len(), |i: int| members[i]@)
}

impl View for Member {
    type V = (Seq<char>, JsonView);

    open spec fn view(&self) -> (Seq<char>, JsonView) {
        (self.key@, self.value@)
    }
}

/// The value of a document, by recursion over its structure.
pub open spec fn value_of(doc: Json) -> JsonView
    decreases doc,
{
    match doc {
        Json::Null => JsonView::Null,
        Json::Bool(b) => JsonView::Bool(b),
        Json::Integer(n) => JsonView::Integer(n as int),
        Json::Real(text) => JsonView::Real(text@),
        Json::Text(text) => JsonView::Text(text@),
        Json::Array(items) => JsonView::Array(
            Seq::new(
                items@.len(),
                |i: int|
                    if 0 <= i < items@.len() {
                        value_of(items@[i])
                    } else {
                        JsonView::Null
                    },
            ),
        ),
        Json::Object(members) => JsonView::Object(
            Seq::new(
                members@.len(),
                |i: int|
                    if 0 <= i < members@.len() {
                        (members@[i].key@, value_of(members@[i].value))
                    } else {
                        (Seq::empty(), JsonView::Null)
                    },
            ),
        ),
    }
}

impl View for Json {
    type V = JsonView;

    open spec fn view(&self) -> JsonView {
        value_of(*self)
    }
}

impl Json {
    /// An array's value is the list of its elements' values.
    pub proof fn array_view(items: Vec<Json>)
        ensures
            Json::Array(items)@ == JsonView::Array(views_of(items@)),
    {
        assert(Json::Array(items)@->Array_0 =~= views_of(items@));
    }

    /// An object's value is the list of its members' keys and values.
    pub proof fn object_view(members: Vec<Member>)
        ensures
            Json::Object(members)@ == JsonView::Object(member_views_of(members@)),
    {
        let doc = Json::Object(members);
        assert(doc@ is Object);
        let built = doc@->Object_0;
        assert(built.len() == members@.len());
        assert forall|i: int| 0 <= i < built.len() implies built[i] == member_views_of(
            members@,
        )[i] by {
            assert(built[i] == (members@[i].key@, members@[i].value@));
        }
        assert(built =~= member_views_of(members@));
    }

    /// The member `key` of an object: `None` where the document is no
    /// object or has no such member. Of several members with one key the
    /// first is found.
    pub fn get(&self, key: &str) -> (found: Option<&Json>)
        ensures
            match found {
                Some(value) => self@.member(key@) == Some(value@),
                None => self@.member(key@) is None,
            },
    {
        match self {
            Json::Object(members) => {
                proof {
                    Json::object_view(*members);
                }
                let ghost all = member_views_of(members@);
                assert(all.skip(0) =~= all);
                let mut i: usize = 0;
                while i < members.len()
                    invariant
                        i <= members.len(),
                        all == member_views_of(members@),
                        self@ == JsonView::Object(all),
                        first_with_key(all, key@) == first_with_key(all.skip(i as int), key@),
                    decreases members.len() - i,
                {
                    let ghost rest = all.skip(i as int);
                    assert(rest[0] == members@[i as int]@);
                    assert(rest.drop_first() =~= all.skip(i + 1));
                    if same_text(members[i].key.as_str(), key) {
                        return Some(&members[i].value);
                    }
                    i += 1;
                }
                None
            },
            _ => None,
        }
    }

    /// The element at `index` of an array: `None` where the document is no
    /// array or the array is too short.
    pub fn at(&self, index: usize) -> (found: Option<&Json>)
        ensures
            match found {
                Some(value) => self@.element(index as int) == Some(value@),
                None => self@.element(index as int) is None,
            },
    {
        match self {
            Json::Array(items) => {
                proof {
                    Json::array_view(*items);
                }
                if index < items.len() {
                    Some(&items[index])
                } else {
                    None
                }
            },
            _ => None,
        }
    }

    /// The text of a JSON string; `None` for any other document.
    pub fn as_str(&self) -> (found: Option<&str>)
        ensures
            match found {
                Some(text) => self@.text() == Some(text@),
                None => self@.text() is None,
            },
    {
        match self {
            Json::Text(text) => Some(text.as_str()),
            _ => None,
        }
    }

    /// The elements of a JSON array; `None` for any other document.
    pub fn as_array(&self) -> (found: Option<&Vec<Json>>)
        ensures
            match found {
                Some(items) => self@.items() == Some(views_of(items@)),
                None => self@.items() is None,
            },
    {
        match self {
            Json::Array(items) => {
                proof {
                    Json::array_view(*items);
                }
                Some(items)
            },
            _ => None,
        }
    }
}

} // verus!
