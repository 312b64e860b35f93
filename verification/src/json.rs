//! A JSON document tree with a mathematical view, read and printed by
//! `serde_json`.
use vstd::prelude::*;

verus! {

/// `serde_json::Number`, carried through as it is.
#[verifier::external_type_specification]
#[verifier::external_body]
pub struct ExNumber(serde_json::Number);

/// `serde_json::Value`, which only the conversions below handle.
#[verifier::external_type_specification]
#[verifier::external_body]
pub struct ExValue(serde_json::Value);

/// A JSON number. Integers are held as plain values; every other number is
/// carried as the parser produced it. A number is always finite: JSON cannot
/// write another, and `serde_json` holds no other.
#[derive(Debug, PartialEq)]
pub enum JsonNumber {
    PosInt(u64),
    NegInt(i64),
    Float(serde_json::Number),
}

/// A JSON document. The members of an object are kept in a sequence; a later
/// member shadows an earlier one of the same key.
#[derive(Debug, PartialEq)]
pub enum Json {
    Null,
    Bool(bool),
    Number(JsonNumber),
    String(String),
    Array(Vec<Json>),
    Object(Vec<(String, Json)>),
}

/// The mathematical value of a [`Json`] document.
pub enum JsonView {
    Null,
    Bool(bool),
    Number(JsonNumber),
    String(Seq<char>),
    Array(Seq<JsonView>),
    Object(Seq<(Seq<char>, JsonView)>),
}

impl Json {
    /// The mathematical value of this document.
    pub open spec fn model(self) -> JsonView
        decreases self,
    {
        match self {
            Json::Null => JsonView::Null,
            Json::Bool(b) => JsonView::Bool(b),
            Json::Number(n) => JsonView::Number(n),
            Json::String(s) => JsonView::String(s@),
            Json::Array(items) => JsonView::Array(
                Seq::new(
                    items@.len(),
                    |i: int|
                        if 0 <= i < items@.len() {
                            items@[i].model()
                        } else {
                            JsonView::Null
                        },
                ),
            ),
            Json::Object(members) => JsonView::Object(
                Seq::new(
                    members@.len(),
                    |i: int|
                        if 0 <= i < members@.len() {
                            (members@[i].0@, members@[i].1.model())
                        } else {
                            (Seq::empty(), JsonView::Null)
                        },
                ),
            ),
        }
    }
}

impl View for Json {
    type V = JsonView;

    open spec fn view(&self) -> JsonView {
        self.model()
    }
}

/// `Clone` for `serde_json::Number`, which holds plain data only: the copy
/// equals the number.
pub assume_specification[ <serde_json::Number as Clone>::clone ](
    n: &serde_json::Number,
) -> (copy: serde_json::Number)
    ensures
        copy == *n,
;

impl Clone for JsonNumber {
    fn clone(&self) -> (copy: Self)
        ensures
            copy == *self,
    {
        match self {
            JsonNumber::PosInt(n) => JsonNumber::PosInt(*n),
            JsonNumber::NegInt(n) => JsonNumber::NegInt(*n),
            JsonNumber::Float(n) => JsonNumber::Float(n.clone()),
        }
    }
}

impl Clone for Json {
    fn clone(&self) -> (copy: Self)
        ensures
            copy@ == self@,
        decreases self,
    {
        match self {
            Json::Null => Json::Null,
            Json::Bool(b) => Json::Bool(*b),
            Json::Number(n) => Json::Number(n.clone()),
            Json::String(s) => Json::String(s.clone()),
            Json::Array(items) => {
                let mut copies: Vec<Json> = Vec::new();
                let mut i: usize = 0;
                while i < items.len()
                    invariant
                        i <= items.len(),
                        copies@.len() == i,
                        *self == Json::Array(*items),
                        forall|k: int| 0 <= k < i ==> (#[trigger] copies@[k])@ == items@[k]@,
                    decreases items.len() - i,
                {
                    proof {
                        vstd::std_specs::vec::axiom_vec_index_decreases(*items, i as int);
                        assert(decreases_to!(*self => self->Array_0));
                    }
                    let copy = items[i].clone();
                    copies.push(copy);
                    i += 1;
                }
                let copy = Json::Array(copies);
                proof {
                    lemma_view_of_children(*self);
                    lemma_view_of_children(copy);
                    assert(item_views(copies@) =~= item_views(items@));
                }
                copy
            },
            Json::Object(members) => {
                let mut copies: Vec<(String, Json)> = Vec::new();
                let mut i: usize = 0;
                while i < members.len()
                    invariant
                        i <= members.len(),
                        copies@.len() == i,
                        *self == Json::Object(*members),
                        forall|k: int|
                            0 <= k < i ==> (#[trigger] copies@[k]).0@ == members@[k].0@
                                && copies@[k].1@ == members@[k].1@,
                    decreases members.len() - i,
                {
                    proof {
                        vstd::std_specs::vec::axiom_vec_index_decreases(*members, i as int);
                        assert(decreases_to!(*self => self->Object_0));
                        assert(decreases_to!(members[i as int] => members[i as int].1));
                    }
                    let key = members[i].0.clone();
                    let value = members[i].1.clone();
                    copies.push((key, value));
                    i += 1;
                }
                let copy = Json::Object(copies);
                proof {
                    lemma_view_of_children(*self);
                    lemma_view_of_children(copy);
                    assert(member_views(copies@) =~= member_views(members@));
                }
                copy
            },
        }
    }
}

/// The document that `serde_json::from_str` reads from `text`, or `None` where
/// it reports an error: where the text is no JSON, nests deeper than the
/// parser goes, or writes a number that is out of range.
pub uninterp spec fn json_parse(text: Seq<char>) -> Option<JsonView>;

/// The compact text that `serde_json` prints for the document `doc`.
pub uninterp spec fn json_text(doc: JsonView) -> Seq<char>;

/// Converts a value of `serde_json`, variant by variant: an integer that fits
/// `u64` or `i64` by its value, any other number as it is, and the members of
/// an object in the order in which `serde_json` keeps them. Nothing is
/// claimed of the result.
#[verifier::external_body]
fn json_of_outside(v: serde_json::Value) -> Json {
    match v {
        serde_json::Value::Null => Json::Null,
        serde_json::Value::Bool(b) => Json::Bool(b),
        serde_json::Value::Number(n) => Json::Number(match (n.as_u64(), n.as_i64()) {
            (Some(u), _) => JsonNumber::PosInt(u),
            (_, Some(i)) => JsonNumber::NegInt(i),
            _ => JsonNumber::Float(n),
        }),
        serde_json::Value::String(s) => Json::String(s),
        serde_json::Value::Array(a) => Json::Array(a.into_iter().map(json_of_outside).collect()),
        serde_json::Value::Object(m) => {
            Json::Object(m.into_iter().map(|(k, v)| (k, json_of_outside(v))).collect())
        },
    }
}

/// Converts a document to a value of `serde_json`, variant by variant; the
/// members of an object are inserted in their order, so that a later one
/// replaces an earlier one of the same key. Nothing is claimed of the result.
#[verifier::external_body]
fn outside_of_json(doc: &Json) -> serde_json::Value {
    match doc {
        Json::Null => serde_json::Value::Null,
        Json::Bool(b) => serde_json::Value::Bool(*b),
        Json::Number(JsonNumber::PosInt(u)) => serde_json::Value::from(*u),
        Json::Number(JsonNumber::NegInt(i)) => serde_json::Value::from(*i),
        Json::Number(JsonNumber::Float(n)) => serde_json::Value::Number(n.clone()),
        Json::String(s) => serde_json::Value::String(s.clone()),
        Json::Array(a) => serde_json::Value::Array(a.iter().map(outside_of_json).collect()),
        Json::Object(m) => serde_json::Value::Object(
            m.iter().map(|(k, v)| (k.clone(), outside_of_json(v))).collect(),
        ),
    }
}

/// `serde_json::from_str` on `text`, and its value converted. What it reads
/// depends on the text alone, so the result is named: [`json_parse`]. `None`
/// stands for the parser's error.
#[verifier::external_body]
fn parse_json(text: &str) -> (doc: Option<Json>)
    ensures
        match doc {
            Some(d) => json_parse(text@) == Some(d@),
            None => json_parse(text@) is None,
        },
{
    serde_json::from_str::<serde_json::Value>(text).ok().map(json_of_outside)
}

/// `serde_json::Value::to_string` on `doc` converted. What it prints depends
/// on the document alone, so the result is named: [`json_text`]. Printing a
/// value of `serde_json` does not fail.
#[verifier::external_body]
fn render_json(doc: &Json) -> (text: String)
    ensures
        text@ == json_text(doc@),
{
    outside_of_json(doc).to_string()
}

/// The views of the items of an array.
pub open spec fn item_views(items: Seq<Json>) -> Seq<JsonView> {
    Seq::new(items.len(), |i: int| items[i]@)
}

/// The views of the members of an object.
pub open spec fn member_views(members: Seq<(String, Json)>) -> Seq<(Seq<char>, JsonView)> {
    Seq::new(members.len(), |i: int| (members[i].0@, members[i].1@))
}

/// The view of an array is the array of its items' views, and the view of an
/// object the sequence of its members' keys and views.
pub proof fn lemma_view_of_children(doc: Json)
    ensures
        doc matches Json::Array(items) ==> doc@ == JsonView::Array(item_views(items@)),
        doc matches Json::Object(members) ==> doc@ == JsonView::Object(member_views(members@)),
{
    match doc {
        Json::Array(items) => {
            assert(doc@->Array_0 =~= item_views(items@));
        },
        Json::Object(members) => {
            assert(doc@->Object_0 =~= member_views(members@));
        },
        _ => {},
    }
}

impl JsonView {
    /// The value of the last member with the key `key`, where this is an
    /// object that has one.
    pub open spec fn member(self, key: Seq<char>) -> Option<JsonView> {
        match self {
            JsonView::Object(members) => find_member(members, key),
            _ => None,
        }
    }

    /// Whether this is an object with a member of the key `key`.
    pub open spec fn has_member(self, key: Seq<char>) -> bool {
        self.member(key) is Some
    }
}

/// The value of the last of `members` with the key `key`.
pub open spec fn find_member(members: Seq<(Seq<char>, JsonView)>, key: Seq<char>) -> Option<
    JsonView,
>
    decreases members.len(),
{
    if members.len() == 0 {
        None
    } else if members.last().0 == key {
        Some(members.last().1)
    } else {
        find_member(members.drop_last(), key)
    }
}

/// An object with no members yet; `push` adds one.
pub open spec fn no_members() -> Seq<(Seq<char>, JsonView)> {
    Seq::empty()
}

/// An array with no items yet; `push` adds one.
pub open spec fn no_items() -> Seq<JsonView> {
    Seq::empty()
}

/// The members of an object under construction.
pub struct Members {
    entries: Vec<(String, Json)>,
}

impl View for Members {
    type V = Seq<(Seq<char>, JsonView)>;

    closed spec fn view(&self) -> Seq<(Seq<char>, JsonView)> {
        member_views(self.entries@)
    }
}

impl Members {
    /// No members.
    pub fn new() -> (members: Members)
        ensures
            members@ == no_members(),
    {
        let members = Members { entries: Vec::new() };
        assert(members@ =~= no_members());
        members
    }

    /// These members and, after them, `value` under `key`.
    pub fn with(self, key: &str, value: Json) -> (members: Members)
        ensures
            members@ == self@.push((key@, value@)),
    {
        let mut entries = self.entries;
        entries.push((key.to_owned(), value));
        let members = Members { entries };
        assert(members@ =~= self@.push((key@, value@)));
        members
    }

    /// The object of these members.
    pub fn into_object(self) -> (doc: Json)
        ensures
            doc@ == JsonView::Object(self@),
    {
        Json::object(self.entries)
    }
}

/// The items of an array under construction.
pub struct Items {
    entries: Vec<Json>,
}

impl View for Items {
    type V = Seq<JsonView>;

    closed spec fn view(&self) -> Seq<JsonView> {
        item_views(self.entries@)
    }
}

impl Items {
    /// No items.
    pub fn new() -> (items: Items)
        ensures
            items@ == no_items(),
    {
        let items = Items { entries: Vec::new() };
        assert(items@ =~= no_items());
        items
    }

    /// These items and, after them, `value`.
    pub fn with(self, value: Json) -> (items: Items)
        ensures
            items@ == self@.push(value@),
    {
        let mut entries = self.entries;
        entries.push(value);
        let items = Items { entries };
        assert(items@ =~= self@.push(value@));
        items
    }

    /// The array of these items.
    pub fn into_array(self) -> (doc: Json)
        ensures
            doc@ == JsonView::Array(self@),
    {
        Json::array(self.entries)
    }
}

impl Json {
    /// Reads a document from JSON text; `None` where the text is no JSON.
    pub fn parse(text: &str) -> (doc: Option<Json>)
        ensures
            match doc {
                Some(d) => json_parse(text@) == Some(d@),
                None => json_parse(text@) is None,
            },
    {
        parse_json(text)
    }

    /// The compact JSON text of this document.
    pub fn to_text(&self) -> (text: String)
        ensures
            text@ == json_text(self@),
    {
        render_json(self)
    }

    /// The document `null`.
    pub fn null() -> (doc: Json)
        ensures
            doc@ == JsonView::Null,
    {
        Json::Null
    }

    /// The string `s` as a document.
    pub fn string(s: &str) -> (doc: Json)
        ensures
            doc@ == JsonView::String(s@),
    {
        Json::String(s.to_owned())
    }

    /// The truth value `b` as a document.
    pub fn boolean(b: bool) -> (doc: Json)
        ensures
            doc@ == JsonView::Bool(b),
    {
        Json::Bool(b)
    }

    /// The non-negative integer `n` as a document.
    pub fn unsigned(n: u64) -> (doc: Json)
        ensures
            doc@ == JsonView::Number(JsonNumber::PosInt(n)),
    {
        Json::Number(JsonNumber::PosInt(n))
    }

    /// The array of `items`.
    pub fn array(items: Vec<Json>) -> (doc: Json)
        ensures
            doc@ == JsonView::Array(item_views(items@)),
    {
        let doc = Json::Array(items);
        proof {
            lemma_view_of_children(doc);
        }
        doc
    }

    /// The object of `members`.
    pub fn object(members: Vec<(String, Json)>) -> (doc: Json)
        ensures
            doc@ == JsonView::Object(member_views(members@)),
    {
        let doc = Json::Object(members);
        proof {
            lemma_view_of_children(doc);
        }
        doc
    }

    /// The value of the last member with the key `key`, where this is an
    /// object that has one.
    pub fn get(&self, key: &str) -> (found: Option<&Json>)
        ensures
            match found {
                Some(value) => self@.member(key@) == Some(value@),
                None => self@.member(key@) is None,
            },
    {
        match self {
            Json::Object(members) => {
                proof {
                    lemma_view_of_children(*self);
                }
                let wanted = key.to_owned();
                let mut i: usize = members.len();
                assert(member_views(members@).take(i as int) == member_views(members@));
                while i > 0
                    invariant
                        i <= members.len(),
                        wanted@ == key@,
                        self@ == JsonView::Object(member_views(members@)),
                        find_member(member_views(members@), key@) == find_member(
                            member_views(members@).take(i as int),
                            key@,
                        ),
                    decreases i,
                {
                    assert(member_views(members@).take(i as int).drop_last() == member_views(
                        members@,
                    ).take(i - 1));
                    assert(member_views(members@).take(i as int).last() == (
                        members@[i - 1].0@,
                        members@[i - 1].1@,
                    ));
                    if members[i - 1].0 == wanted {
                        return Some(&members[i - 1].1);
                    }
                    i -= 1;
                }
                None
            },
            _ => None,
        }
    }

    /// The items, where this is an array.
    pub fn as_array(&self) -> (items: Option<&Vec<Json>>)
        ensures
            match items {
                Some(v) => self@ == JsonView::Array(item_views(v@)),
                None => !(self@ is Array),
            },
    {
        proof {
            lemma_view_of_children(*self);
        }
        match self {
            Json::Array(items) => Some(items),
            _ => None,
        }
    }

    /// The text, where this is a string.
    pub fn as_str(&self) -> (text: Option<&String>)
        ensures
            match text {
                Some(s) => self@ == JsonView::String(s@),
                None => !(self@ is String),
            },
    {
        match self {
            Json::String(s) => Some(s),
            _ => None,
        }
    }

    /// Whether this is a number.
    pub fn is_number(&self) -> (b: bool)
        ensures
            b == (self@ is Number),
    {
        match self {
            Json::Number(_) => true,
            _ => false,
        }
    }
}

} // verus!
