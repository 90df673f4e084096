//! The crate's own model of JSON documents.
//!
//! Upstream payloads arrive as JSON. The verified logic never touches a
//! foreign JSON type directly; callers convert into [`JsonValue`], whose
//! structure the verifier can see. Numbers are carried as their literal
//! decimal text: the extraction logic never interprets them, and this
//! keeps floating point outside the verified core. Objects are ordered
//! sequences of key/value entries, mirroring the order in which a caller
//! hands the entries over.

use vstd::prelude::*;
use crate::text::str_eq;

verus! {

/// The mathematical shape of a JSON document: what [`JsonValue`] looks
/// like to specifications.
#[verifier::ext_equal]
pub enum JsonView {
    Null,
    Bool(bool),
    Number(Seq<char>),
    Text(Seq<char>),
    Array(Seq<JsonView>),
    Object(Seq<(Seq<char>, JsonView)>),
}

/// A JSON document as executable data.
pub enum JsonValue {
    Null,
    Bool(bool),
    /// A JSON number, carried as its literal decimal text.
    Number(String),
    Text(String),
    Array(Vec<JsonValue>),
    Object(Vec<(String, JsonValue)>),
}

/// The views of a sequence of JSON values, element by element.
pub open spec fn views_of(items: Seq<JsonValue>) -> Seq<JsonView>
    decreases items,
{
    if items.len() == 0 {
        Seq::empty()
    } else {
        views_of(items.drop_last()).push(json_view(items.last()))
    }
}

/// The view of an object's entry list, entry by entry.
pub open spec fn entries_view(entries: Seq<(String, JsonValue)>) -> Seq<(Seq<char>, JsonView)>
    decreases entries,
{
    if entries.len() == 0 {
        Seq::empty()
    } else {
        entries_view(entries.drop_last()).push(
            (entries.last().0@, json_view(entries.last().1)),
        )
    }
}

/// The view of a [`JsonValue`].
pub open spec fn json_view(v: JsonValue) -> JsonView
    decreases v,
{
    match v {
        JsonValue::Null => JsonView::Null,
        JsonValue::Bool(b) => JsonView::Bool(b),
        JsonValue::Number(s) => JsonView::Number(s@),
        JsonValue::Text(s) => JsonView::Text(s@),
        JsonValue::Array(items) => JsonView::Array(views_of(items@)),
        JsonValue::Object(entries) => JsonView::Object(entries_view(entries@)),
    }
}

/// [`views_of`] maps the sequence element by element.
pub broadcast proof fn lemma_views_of(items: Seq<JsonValue>)
    ensures
        (#[trigger] views_of(items)).len() == items.len(),
        forall|i: int| 0 <= i < items.len() ==> views_of(items)[i] == json_view(items[i]),
    decreases items.len(),
{
    if items.len() > 0 {
        lemma_views_of(items.drop_last());
    }
}

/// [`entries_view`] maps the entry list entry by entry.
pub broadcast proof fn lemma_entries_view(entries: Seq<(String, JsonValue)>)
    ensures
        (#[trigger] entries_view(entries)).len() == entries.len(),
        forall|i: int| 0 <= i < entries.len() ==> entries_view(entries)[i] == (
            entries[i].0@,
            json_view(entries[i].1),
        ),
    decreases entries.len(),
{
    if entries.len() > 0 {
        lemma_entries_view(entries.drop_last());
    }
}

impl View for JsonValue {
    type V = JsonView;

    open spec fn view(&self) -> JsonView {
        json_view(*self)
    }
}

impl Clone for JsonValue {
    #[verifier::loop_isolation(false)]
    fn clone(&self) -> (res: Self)
        ensures
            res@ == self@,
        decreases *self,
    {
        match self {
            JsonValue::Null => JsonValue::Null,
            JsonValue::Bool(b) => JsonValue::Bool(*b),
            JsonValue::Number(s) => JsonValue::Number(s.clone()),
            JsonValue::Text(s) => JsonValue::Text(s.clone()),
            JsonValue::Array(items) => {
                let mut out: Vec<JsonValue> = Vec::new();
                let mut i: usize = 0;
                while i < items.len()
                    invariant
                        i <= items.len(),
                        out@.len() == i as nat,
                        forall|j: int| 0 <= j < i ==> out@[j]@ == items@[j]@,
                    decreases items.len() - i,
                {
                    proof {
                        assert(decreases_to!(items@ => items@[i as int]));
                        assert(decreases_to!(*items => items@));
                    }
                    out.push(items[i].clone());
                    i = i + 1;
                }
                proof {
                    broadcast use lemma_views_of;

                    assert(views_of(out@) =~= views_of(items@));
                }
                JsonValue::Array(out)
            },
            JsonValue::Object(entries) => {
                let mut out: Vec<(String, JsonValue)> = Vec::new();
                let mut i: usize = 0;
                while i < entries.len()
                    invariant
                        i <= entries.len(),
                        out@.len() == i as nat,
                        forall|j: int| 0 <= j < i ==> out@[j].0@ == entries@[j].0@
                            && out@[j].1@ == entries@[j].1@,
                    decreases entries.len() - i,
                {
                    proof {
                        assert(decreases_to!(entries@[i as int] => entries@[i as int].1));
                        assert(decreases_to!(entries@ => entries@[i as int]));
                        assert(decreases_to!(*entries => entries@));
                    }
                    let key = entries[i].0.clone();
                    let value = entries[i].1.clone();
                    out.push((key, value));
                    i = i + 1;
                }
                proof {
                    broadcast use lemma_entries_view;

                    assert(entries_view(out@) =~= entries_view(entries@));
                }
                JsonValue::Object(out)
            },
        }
    }
}

/// First entry of `entries` whose key is `key`, if any. JSON objects as
/// handed over by callers have unique keys, so "first" is "the" match.
pub open spec fn lookup_entry(entries: Seq<(Seq<char>, JsonView)>, key: Seq<char>) -> Option<
    JsonView,
>
    decreases entries.len(),
{
    if entries.len() == 0 {
        None
    } else if entries[0].0 == key {
        Some(entries[0].1)
    } else {
        lookup_entry(entries.drop_first(), key)
    }
}

/// Field `key` of the object `v`, if `v` is an object that has it.
pub open spec fn spec_field(v: JsonView, key: Seq<char>) -> Option<JsonView> {
    match v {
        JsonView::Object(entries) => lookup_entry(entries, key),
        _ => None,
    }
}

/// The character contents of `v`, if `v` is a JSON string.
pub open spec fn spec_text(v: JsonView) -> Option<Seq<char>> {
    match v {
        JsonView::Text(s) => Some(s),
        _ => None,
    }
}

impl JsonValue {
    /// Whether this value is an object.
    pub fn is_object(&self) -> (r: bool)
        ensures
            r == (self@ is Object),
    {
        match self {
            JsonValue::Object(_) => true,
            _ => false,
        }
    }

    /// Field `key` of this value, if it is an object carrying that key.
    pub fn field<'a>(&'a self, key: &str) -> (r: Option<&'a JsonValue>)
        ensures
            match r {
                Some(v) => spec_field(self@, key@) == Some(v@),
                None => spec_field(self@, key@) is None,
            },
    {
        match self {
            JsonValue::Object(entries) => lookup(entries, key),
            _ => None,
        }
    }

    /// The string contents of this value, if it is a JSON string.
    pub fn as_text<'a>(&'a self) -> (r: Option<&'a String>)
        ensures
            match r {
                Some(s) => spec_text(self@) == Some(s@),
                None => spec_text(self@) is None,
            },
    {
        match self {
            JsonValue::Text(s) => Some(s),
            _ => None,
        }
    }

    /// Field `key` of this value as a fresh string, if it is an object
    /// carrying that key with a string value.
    pub fn text_field(&self, key: &str) -> (r: Option<String>)
        ensures
            match r {
                Some(s) => spec_text_field(self@, key@) == Some(s@),
                None => spec_text_field(self@, key@) is None,
            },
    {
        match self.field(key) {
            Some(v) => match v.as_text() {
                Some(s) => Some(s.clone()),
                None => None,
            },
            None => None,
        }
    }
}

/// Field `key` of `v`, read as a string.
pub open spec fn spec_text_field(v: JsonView, key: Seq<char>) -> Option<Seq<char>> {
    match spec_field(v, key) {
        Some(f) => spec_text(f),
        None => None,
    }
}

/// Clone an object's entry list, contents preserved.
pub fn clone_entries(entries: &Vec<(String, JsonValue)>) -> (r: Vec<(String, JsonValue)>)
    ensures
        entries_view(r@) == entries_view(entries@),
{
    let mut out: Vec<(String, JsonValue)> = Vec::new();
    let mut i: usize = 0;
    while i < entries.len()
        invariant
            i <= entries.len(),
            out@.len() == i as nat,
            forall|j: int| 0 <= j < i ==> out@[j].0@ == entries@[j].0@ && out@[j].1@
                == entries@[j].1@,
        decreases entries.len() - i,
    {
        let key = entries[i].0.clone();
        let value = entries[i].1.clone();
        out.push((key, value));
        i = i + 1;
    }
    proof {
        broadcast use lemma_entries_view;

        assert(entries_view(out@) =~= entries_view(entries@));
    }
    out
}

/// First entry of `entries` whose key is `key`.
pub fn lookup<'a>(entries: &'a Vec<(String, JsonValue)>, key: &str) -> (r: Option<&'a JsonValue>)
    ensures
        match r {
            Some(v) => lookup_entry(entries_view(entries@), key@) == Some(v@),
            None => lookup_entry(entries_view(entries@), key@) is None,
        },
{
    proof {
        broadcast use lemma_entries_view;

    }
    let ghost all = entries_view(entries@);
    proof {
        assert(all.skip(0) =~= all);
    }
    let mut i: usize = 0;
    while i < entries.len()
        invariant
            i <= entries.len(),
            all == entries_view(entries@),
            all.len() == entries@.len(),
            lookup_entry(all, key@) == lookup_entry(all.skip(i as int), key@),
        decreases entries.len() - i,
    {
        proof {
            broadcast use lemma_entries_view;

            assert(all.skip(i as int)[0] == all[i as int]);
        }
        if str_eq(entries[i].0.as_str(), key) {
            return Some(&entries[i].1);
        }
        proof {
            assert(all.skip(i as int).drop_first() =~= all.skip(i as int + 1));
        }
        i = i + 1;
    }
    proof {
        assert(all.skip(entries@.len() as int).len() == 0);
    }
    None
}

} // verus!
