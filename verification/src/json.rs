//! A JSON value of the library's own, for the descriptive documents that the
//! server renders. Keys and strings are static text.

use vstd::prelude::*;

use crate::text::str_equal;

verus! {

/// A JSON value: a boolean, a string, an array, or an object whose entries
/// keep their order.
pub enum Json {
    Bool(bool),
    Str(&'static str),
    Array(Vec<Json>),
    Object(Vec<(&'static str, Json)>),
}

/// The mathematical form of a [`Json`] value.
#[verifier::ext_equal]
pub enum JsonView {
    Bool(bool),
    Str(Seq<char>),
    Array(Seq<JsonView>),
    Object(Seq<(Seq<char>, JsonView)>),
}

impl Json {
    /// The value with every string taken by its characters.
    pub open spec fn view_json(&self) -> JsonView
        decreases self,
    {
        match self {
            Json::Bool(b) => JsonView::Bool(*b),
            Json::Str(s) => JsonView::Str(s@),
            Json::Array(items) => JsonView::Array(
                Seq::new(
                    items@.len(),
                    |i: int|
                        if 0 <= i < items@.len() {
                            items@[i].view_json()
                        } else {
                            JsonView::Bool(false)
                        },
                ),
            ),
            Json::Object(entries) => JsonView::Object(
                Seq::new(
                    entries@.len(),
                    |i: int|
                        if 0 <= i < entries@.len() {
                            (entries@[i].0@, entries@[i].1.view_json())
                        } else {
                            (Seq::empty(), JsonView::Bool(false))
                        },
                ),
            ),
        }
    }
}

/// The value of the first entry named `key`, if there is one.
pub open spec fn entry_value(entries: Seq<(Seq<char>, JsonView)>, key: Seq<char>) -> Option<JsonView>
    decreases entries.len(),
{
    if entries.len() == 0 {
        None
    } else if entries[0].0 == key {
        Some(entries[0].1)
    } else {
        entry_value(entries.drop_first(), key)
    }
}

impl JsonView {
    /// The member named `key` of an object; nothing for other values.
    pub open spec fn member(self, key: Seq<char>) -> Option<JsonView> {
        match self {
            JsonView::Object(entries) => entry_value(entries, key),
            _ => None,
        }
    }
}

impl Json {
    /// The member named `key`, when this value is an object that has one.
    pub fn get(&self, key: &str) -> (r: Option<&Json>)
        ensures
            match r {
                Some(v) => self.view_json().member(key@) == Some(v.view_json()),
                None => self.view_json().member(key@) is None,
            },
    {
        match self {
            Json::Object(entries) => {
                let ghost es = self.view_json()->Object_0;
                let mut i: usize = 0;
                assert(es.skip(0) =~= es);
                assert(self.view_json() == JsonView::Object(es));
                while i < entries.len()
                    invariant
                        self.view_json() == JsonView::Object(es),
                        es.len() == entries@.len(),
                        i <= entries@.len(),
                        forall|k: int| 0 <= k < entries@.len() ==> #[trigger] es[k] == (entries@[k].0@, entries@[k].1.view_json()),
                        entry_value(es, key@) == entry_value(es.skip(i as int), key@),
                    decreases entries@.len() - i,
                {
                    let ghost rest = es.skip(i as int);
                    assert(rest[0] == es[i as int]);
                    if str_equal(entries[i].0, key) {
                        assert(entry_value(rest, key@) == Some(entries@[i as int].1.view_json()));
                        return Some(&entries[i].1);
                    }
                    assert(rest.drop_first() =~= es.skip(i + 1));
                    i = i + 1;
                }
                None
            },
            _ => None,
        }
    }
}

} // verus!
