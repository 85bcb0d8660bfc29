//! JSON values as plain data.
use vstd::prelude::*;

use crate::text::{opt_text, owned, same_text};

verus! {

/// A JSON value. Numbers are non-negative integers, negative integers, or, where a number is held
/// as a fraction, the text that JSON writes for it. The fields of an object keep their order, and no name occurs twice.
#[derive(Debug, PartialEq, Eq)]
pub enum Json {
    Null,
    Bool(bool),
    Unsigned(u64),
    Negative(i64),
    Fraction(String),
    Text(String),
    Array(Vec<Json>),
    Object(Vec<(String, Json)>),
}

/// The mathematical value of a [`Json`].
#[verifier::ext_equal]
pub enum JsonView {
    Null,
    Bool(bool),
    Unsigned(u64),
    Negative(i64),
    Fraction(Seq<char>),
    Text(Seq<char>),
    Array(Seq<JsonView>),
    Object(Seq<(Seq<char>, JsonView)>),
}

impl JsonView {
    /// The value of the first field called `name`, if this is an object that has one.
    pub open spec fn field(self, name: Seq<char>) -> Option<JsonView> {
        match self {
            JsonView::Object(fields) => field_of(fields, name),
            _ => None,
        }
    }

    /// The text of the field called `name`, if that field is a string.
    pub open spec fn text_field(self, name: Seq<char>) -> Option<Seq<char>> {
        match self.field(name) {
            Some(JsonView::Text(s)) => Some(s),
            _ => None,
        }
    }
}

/// The value of the first field called `name`.
pub open spec fn field_of(fields: Seq<(Seq<char>, JsonView)>, name: Seq<char>) -> Option<JsonView>
    decreases fields.len(),
{
    if fields.len() == 0 {
        None
    } else if fields[0].0 == name {
        Some(fields[0].1)
    } else {
        field_of(fields.drop_first(), name)
    }
}

/// The value of a field is smaller than the fields it belongs to.
pub proof fn lemma_field_is_smaller(fields: Seq<(Seq<char>, JsonView)>, name: Seq<char>)
    ensures
        match field_of(fields, name) {
            Some(v) => decreases_to!(fields => v),
            None => true,
        },
    decreases fields.len(),
{
    if fields.len() > 0 {
        if fields[0].0 == name {
            assert(decreases_to!(fields => fields[0]));
            assert(decreases_to!(fields[0] => fields[0].1));
        } else {
            lemma_field_is_smaller(fields.drop_first(), name);
            assert(decreases_to!(fields => fields.drop_first()));
        }
    }
}

impl Json {
    /// The mathematical value.
    pub open spec fn value(self) -> JsonView
        decreases self,
    {
        match self {
            Json::Null => JsonView::Null,
            Json::Bool(b) => JsonView::Bool(b),
            Json::Unsigned(n) => JsonView::Unsigned(n),
            Json::Negative(n) => JsonView::Negative(n),
            Json::Fraction(s) => JsonView::Fraction(s@),
            Json::Text(s) => JsonView::Text(s@),
            Json::Array(items) => JsonView::Array(
                Seq::new(
                    items@.len(),
                    |i: int|
                        if 0 <= i < items@.len() {
                            items@[i].value()
                        } else {
                            JsonView::Null
                        },
                ),
            ),
            Json::Object(fields) => JsonView::Object(
                Seq::new(
                    fields@.len(),
                    |i: int|
                        if 0 <= i < fields@.len() {
                            (fields@[i].0@, fields@[i].1.value())
                        } else {
                            (Seq::empty(), JsonView::Null)
                        },
                ),
            ),
        }
    }
}

impl View for Json {
    type V = JsonView;

    open spec fn view(&self) -> JsonView {
        self.value()
    }
}

impl DeepView for Json {
    type V = JsonView;

    open spec fn deep_view(&self) -> JsonView {
        self.value()
    }
}

/// The value of an optional JSON value.
pub open spec fn opt_json(o: Option<Json>) -> Option<JsonView> {
    match o {
        Some(j) => Some(j@),
        None => None,
    }
}

impl Json {
    /// Copies the value.
    fn duplicate(&self) -> (r: Self)
        ensures
            r.value() == self.value(),
        decreases self,
    {
        match self {
            Json::Null => Json::Null,
            Json::Bool(b) => Json::Bool(*b),
            Json::Unsigned(n) => Json::Unsigned(*n),
            Json::Negative(n) => Json::Negative(*n),
            Json::Fraction(s) => Json::Fraction(s.clone()),
            Json::Text(s) => Json::Text(s.clone()),
            Json::Array(items) => {
                let mut out: Vec<Json> = Vec::new();
                let mut i: usize = 0;
                while i < items.len()
                    invariant
                        i <= items@.len(),
                        out@.len() == i,
                        *self == Json::Array(*items),
                        forall|j: int| 0 <= j < i ==> (#[trigger] out@[j]).value() == items@[j].value(),
                    decreases items@.len() - i,
                {
                    assert(decreases_to!(*self => self->Array_0));
                    assert(decreases_to!(items@ => items@[i as int]));
                    let item = items[i].duplicate();
                    out.push(item);
                    i += 1;
                }
                let r = Json::Array(out);
                assert(r.value()->Array_0 =~= self.value()->Array_0);
                r
            },
            Json::Object(fields) => {
                let mut out: Vec<(String, Json)> = Vec::new();
                let mut i: usize = 0;
                while i < fields.len()
                    invariant
                        i <= fields@.len(),
                        out@.len() == i,
                        *self == Json::Object(*fields),
                        forall|j: int|
                            0 <= j < i ==> (#[trigger] out@[j]).0@ == fields@[j].0@ && out@[j].1.value()
                                == fields@[j].1.value(),
                    decreases fields@.len() - i,
                {
                    let name = fields[i].0.clone();
                    assert(decreases_to!(*self => self->Object_0));
                    assert(decreases_to!(fields@ => fields@[i as int]));
                    assert(decreases_to!(fields@[i as int] => fields@[i as int].1));
                    let value = fields[i].1.duplicate();
                    out.push((name, value));
                    i += 1;
                }
                let r = Json::Object(out);
                assert(r.value()->Object_0 =~= self.value()->Object_0);
                r
            },
        }
    }
}

impl Clone for Json {
    fn clone(&self) -> (r: Self)
        ensures
            r@ == self@,
    {
        self.duplicate()
    }
}

/// Copies an optional JSON value.
pub fn clone_opt_json(o: &Option<Json>) -> (r: Option<Json>)
    ensures
        opt_json(r) == opt_json(*o),
{
    match o {
        Some(j) => Some(j.clone()),
        None => None,
    }
}

/// The values of the fields of an object.
pub open spec fn field_views(fields: Seq<(String, Json)>) -> Seq<(Seq<char>, JsonView)> {
    fields.map_values(|f: (String, Json)| (f.0@, f.1@))
}

/// Adds a field behind those that are there.
pub fn put_field(fields: &mut Vec<(String, Json)>, name: &str, value: Json)
    ensures
        field_views(final(fields)@) == field_views(old(fields)@).push((name@, value@)),
{
    fields.push((owned(name), value));
    assert(field_views(fields@) =~= field_views(old(fields)@).push((name@, value@)));
}

/// The fields with the first one called `name` replaced, or with a new one behind them.
pub open spec fn inserted(
    fields: Seq<(Seq<char>, JsonView)>,
    name: Seq<char>,
    value: JsonView,
) -> Seq<(Seq<char>, JsonView)>
    decreases fields.len(),
{
    if fields.len() == 0 {
        seq![(name, value)]
    } else if fields[0].0 == name {
        seq![(name, value)] + fields.drop_first()
    } else {
        seq![fields[0]] + inserted(fields.drop_first(), name, value)
    }
}

/// Sets a field, in its place if it is there already.
pub fn insert_field(fields: &mut Vec<(String, Json)>, name: &str, value: Json)
    ensures
        field_views(final(fields)@) == inserted(field_views(old(fields)@), name@, value@),
{
    let ghost all = field_views(fields@);
    let mut i: usize = 0;
    assert(all.skip(0) =~= all);
    assert(all.take(0) + inserted(all, name@, value@) =~= inserted(all, name@, value@));
    while i < fields.len()
        invariant
            i <= fields@.len(),
            fields@ == old(fields)@,
            all == field_views(fields@),
            all.take(i as int) + inserted(all.skip(i as int), name@, value@) == inserted(
                all,
                name@,
                value@,
            ),
        decreases fields@.len() - i,
    {
        let ghost rest = all.skip(i as int);
        assert(rest[0] == (fields@[i as int].0@, fields@[i as int].1@));
        assert(rest.drop_first() =~= all.skip(i + 1));
        if same_text(fields[i].0.as_str(), name) {
            let ghost entry = (name@, value@);
            fields.set(i, (owned(name), value));
            assert(field_views(fields@) =~= all.take(i as int) + (seq![entry] + all.skip(i + 1)));
            return;
        }
        assert(all.take(i as int) + (seq![rest[0]] + inserted(all.skip(i + 1), name@, value@))
            =~= all.take(i + 1) + inserted(all.skip(i + 1), name@, value@));
        i += 1;
    }
    assert(all.skip(i as int) =~= Seq::empty());
    put_field(fields, name, value);
    assert(all.take(i as int) + seq![(name@, value@)] =~= all.push((name@, value@)));
}

/// A field that was set has the value that it was set to, and the others keep theirs.
pub proof fn set_field_is_read_back(
    fields: Seq<(Seq<char>, JsonView)>,
    name: Seq<char>,
    value: JsonView,
    other: Seq<char>,
)
    ensures
        field_of(inserted(fields, name, value), name) == Some(value),
        other != name ==> field_of(inserted(fields, name, value), other) == field_of(fields, other),
    decreases fields.len(),
{
    let after = inserted(fields, name, value);
    if fields.len() == 0 {
        assert(after.drop_first() =~= Seq::empty());
        assert(field_of(Seq::empty(), other) is None);
    } else if fields[0].0 == name {
        assert(after.drop_first() =~= fields.drop_first());
    } else {
        set_field_is_read_back(fields.drop_first(), name, value, other);
        assert(after.drop_first() =~= inserted(fields.drop_first(), name, value));
        assert(after[0] == fields[0]);
    }
}

/// An object with the given fields.
pub fn object(fields: Vec<(String, Json)>) -> (r: Json)
    ensures
        r@ == JsonView::Object(field_views(fields@)),
{
    let r = Json::Object(fields);
    assert(r@->Object_0 =~= field_views(fields@));
    r
}

/// A JSON string.
pub fn text_value(s: &str) -> (r: Json)
    ensures
        r@ == JsonView::Text(s@),
{
    Json::Text(owned(s))
}

/// A JSON string, or null if there is none.
pub open spec fn text_or_null(s: Option<Seq<char>>) -> JsonView {
    match s {
        Some(t) => JsonView::Text(t),
        None => JsonView::Null,
    }
}

/// A JSON string, or null if there is none.
pub fn opt_text_value(s: &Option<String>) -> (r: Json)
    ensures
        r@ == text_or_null(opt_text(*s)),
{
    match s {
        Some(t) => text_value(t.as_str()),
        None => Json::Null,
    }
}

impl Json {
    /// The value of the field called `name`, if this is an object that has one.
    pub fn get(&self, name: &str) -> (r: Option<&Json>)
        ensures
            match r {
                Some(j) => self@.field(name@) == Some(j@) && decreases_to!(*self => *j),
                None => self@.field(name@) is None,
            },
    {
        match self {
            Json::Object(fields) => {
                let ghost all = self@->Object_0;
                assert(all.skip(0) =~= all);
                let mut i: usize = 0;
                while i < fields.len()
                    invariant
                        i <= fields@.len(),
                        *self == Json::Object(*fields),
                        all == self@->Object_0,
                        all.len() == fields@.len(),
                        field_of(all.skip(i as int), name@) == field_of(all, name@),
                    decreases fields@.len() - i,
                {
                    let ghost rest = all.skip(i as int);
                    assert(rest[0] == (fields@[i as int].0@, fields@[i as int].1.value()));
                    assert(rest.drop_first() =~= all.skip(i + 1));
                    if same_text(fields[i].0.as_str(), name) {
                        assert(decreases_to!(*self => self->Object_0));
                        assert(decreases_to!(fields@ => fields@[i as int]));
                        assert(decreases_to!(fields@[i as int] => fields@[i as int].1));
                        return Some(&fields[i].1);
                    }
                    i += 1;
                }
                assert(all.skip(i as int).len() == 0);
                None
            },
            _ => None,
        }
    }
}

} // verus!
