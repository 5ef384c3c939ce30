//! The JSON value model.
//!
//! Captured JSON-RPC traffic is held as [`JsonValue`], a plain recursive
//! datatype. Numbers are carried in their textual form, which keeps the
//! numeric/string distinction that structural equality must respect without
//! committing the model to any numeric width. The mathematical shape of a
//! value is [`Jv`], reached through the view operator.

use vstd::prelude::*;

verus! {

broadcast use vstd::std_specs::vec::group_vec_axioms, vstd::seq::group_seq_axioms;

/// Mathematical shape of a JSON document.
#[verifier::ext_equal]
pub enum Jv {
    Null,
    Bool(bool),
    Number(Seq<char>),
    Text(Seq<char>),
    Array(Seq<Jv>),
    Object(Seq<(Seq<char>, Jv)>),
}

/// A JSON document held as plain data. Object fields keep their order of
/// arrival; numbers keep the text they were written with.
pub enum JsonValue {
    Null,
    Bool(bool),
    Number(String),
    Text(String),
    Array(Vec<JsonValue>),
    Object(Vec<(String, JsonValue)>),
}

/// The shape of a [`JsonValue`].
pub open spec fn jv_view(v: JsonValue) -> Jv
    decreases v,
{
    match v {
        JsonValue::Null => Jv::Null,
        JsonValue::Bool(b) => Jv::Bool(b),
        JsonValue::Number(s) => Jv::Number(s@),
        JsonValue::Text(s) => Jv::Text(s@),
        JsonValue::Array(items) => Jv::Array(jv_views(items@)),
        JsonValue::Object(fields) => Jv::Object(jv_field_views(fields@)),
    }
}

/// Shapes of the elements of an array, in order.
pub open spec fn jv_views(s: Seq<JsonValue>) -> Seq<Jv>
    decreases s,
{
    if s.len() == 0 {
        Seq::empty()
    } else {
        jv_views(s.drop_last()).push(jv_view(s.last()))
    }
}

/// Shapes of the fields of an object, in order.
pub open spec fn jv_field_views(s: Seq<(String, JsonValue)>) -> Seq<(Seq<char>, Jv)>
    decreases s,
{
    if s.len() == 0 {
        Seq::empty()
    } else {
        jv_field_views(s.drop_last()).push((s.last().0@, jv_view(s.last().1)))
    }
}

/// `jv_views` maps the element shapes one to one.
pub proof fn lemma_jv_views(s: Seq<JsonValue>)
    ensures
        jv_views(s).len() == s.len(),
        forall|i: int| 0 <= i < s.len() ==> #[trigger] jv_views(s)[i] == jv_view(s[i]),
    decreases s,
{
    if s.len() > 0 {
        lemma_jv_views(s.drop_last());
        assert(forall|i: int| 0 <= i < s.len() - 1 ==> s.drop_last()[i] == s[i]);
    }
}

/// `jv_field_views` maps the field shapes one to one.
pub proof fn lemma_jv_field_views(s: Seq<(String, JsonValue)>)
    ensures
        jv_field_views(s).len() == s.len(),
        forall|i: int| 0 <= i < s.len() ==> #[trigger] jv_field_views(s)[i] == (s[i].0@, jv_view(
            s[i].1,
        )),
    decreases s,
{
    if s.len() > 0 {
        lemma_jv_field_views(s.drop_last());
        assert(forall|i: int| 0 <= i < s.len() - 1 ==> s.drop_last()[i] == s[i]);
    }
}

impl View for JsonValue {
    type V = Jv;

    open spec fn view(&self) -> Jv {
        jv_view(*self)
    }
}

/// The value of the first field named `key` among `fs`.
pub open spec fn jv_fields_get(fs: Seq<(Seq<char>, Jv)>, key: Seq<char>) -> Option<Jv>
    decreases fs.len(),
{
    if fs.len() == 0 {
        Option::None
    } else if fs.first().0 == key {
        Option::Some(fs.first().1)
    } else {
        jv_fields_get(fs.drop_first(), key)
    }
}

/// The value under `key` when the document is an object holding that field.
pub open spec fn jv_get(v: Jv, key: Seq<char>) -> Option<Jv> {
    match v {
        Jv::Object(fs) => jv_fields_get(fs, key),
        _ => Option::None,
    }
}

impl JsonValue {
    /// Structural JSON equality: the relation that pairs responses with
    /// requests. It distinguishes numbers from strings and respects the
    /// order of array elements and object fields.
    #[verifier::loop_isolation(false)]
    pub fn structural_eq(&self, other: &JsonValue) -> (r: bool)
        ensures
            r == (self@ == other@),
        decreases *self,
    {
        match (self, other) {
            (JsonValue::Null, JsonValue::Null) => true,
            (JsonValue::Bool(a), JsonValue::Bool(b)) => *a == *b,
            (JsonValue::Number(a), JsonValue::Number(b)) => *a == *b,
            (JsonValue::Text(a), JsonValue::Text(b)) => *a == *b,
            (JsonValue::Array(xs), JsonValue::Array(ys)) => {
                proof {
                    lemma_jv_views(xs@);
                    lemma_jv_views(ys@);
                }
                if xs.len() != ys.len() {
                    return false;
                }
                let mut i: usize = 0;
                while i < xs.len()
                    invariant
                        0 <= i <= xs.len(),
                        xs.len() == ys.len(),
                        jv_views(xs@).len() == xs@.len(),
                        jv_views(ys@).len() == ys@.len(),
                        forall|j: int| 0 <= j < xs@.len() ==> #[trigger] jv_views(xs@)[j]
                            == jv_view(xs@[j]),
                        forall|j: int| 0 <= j < ys@.len() ==> #[trigger] jv_views(ys@)[j]
                            == jv_view(ys@[j]),
                        forall|j: int| 0 <= j < i ==> jv_view(xs@[j]) == jv_view(ys@[j]),
                    decreases xs.len() - i,
                {
                    proof {
                        vstd::std_specs::vec::axiom_vec_index_decreases(*xs, i as int);
                        assert(decreases_to!(*self => xs@[i as int]));
                        assert(jv_views(xs@)[i as int] == jv_view(xs@[i as int]));
                        assert(jv_views(ys@)[i as int] == jv_view(ys@[i as int]));
                    }
                    if !xs[i].structural_eq(&ys[i]) {
                        return false;
                    }
                    i += 1;
                }
                proof {
                    assert(jv_views(xs@) =~= jv_views(ys@));
                }
                true
            },
            (JsonValue::Object(xs), JsonValue::Object(ys)) => {
                proof {
                    lemma_jv_field_views(xs@);
                    lemma_jv_field_views(ys@);
                }
                if xs.len() != ys.len() {
                    return false;
                }
                let mut i: usize = 0;
                while i < xs.len()
                    invariant
                        0 <= i <= xs.len(),
                        xs.len() == ys.len(),
                        jv_field_views(xs@).len() == xs@.len(),
                        jv_field_views(ys@).len() == ys@.len(),
                        forall|j: int| 0 <= j < xs@.len() ==> #[trigger] jv_field_views(xs@)[j]
                            == (xs@[j].0@, jv_view(xs@[j].1)),
                        forall|j: int| 0 <= j < ys@.len() ==> #[trigger] jv_field_views(ys@)[j]
                            == (ys@[j].0@, jv_view(ys@[j].1)),
                        forall|j: int| 0 <= j < i ==> xs@[j].0@ == ys@[j].0@ && jv_view(xs@[j].1)
                            == jv_view(ys@[j].1),
                    decreases xs.len() - i,
                {
                    proof {
                        vstd::std_specs::vec::axiom_vec_index_decreases(*xs, i as int);
                        assert(decreases_to!(*self => xs@[i as int].1));
                        assert(jv_field_views(xs@)[i as int] == (xs@[i as int].0@, jv_view(xs@[i as int].1)));
                        assert(jv_field_views(ys@)[i as int] == (ys@[i as int].0@, jv_view(ys@[i as int].1)));
                    }
                    if !(xs[i].0 == ys[i].0) {
                        return false;
                    }
                    if !xs[i].1.structural_eq(&ys[i].1) {
                        return false;
                    }
                    i += 1;
                }
                proof {
                    assert(jv_field_views(xs@) =~= jv_field_views(ys@));
                }
                true
            },
            _ => false,
        }
    }

    /// The field of an object named `key`, per [`jv_get`].
    #[verifier::loop_isolation(false)]
    pub fn object_get(&self, key: &str) -> (r: Option<&JsonValue>)
        ensures
            match r {
                Option::Some(x) => jv_get(self@, key@) == Option::Some(x@),
                Option::None => jv_get(self@, key@) is None,
            },
    {
        match self {
            JsonValue::Object(fields) => {
                proof {
                    lemma_jv_field_views(fields@);
                    assert(jv_field_views(fields@).skip(0) =~= jv_field_views(fields@));
                }
                let ghost mapped = jv_field_views(fields@);
                let mut i: usize = 0;
                while i < fields.len()
                    invariant
                        0 <= i <= fields.len(),
                        jv_fields_get(mapped, key@) == jv_fields_get(mapped.skip(i as int), key@),
                    decreases fields.len() - i,
                {
                    proof {
                        assert(mapped.skip(i as int).first() == mapped[i as int]);
                        assert(mapped.skip(i as int).drop_first() =~= mapped.skip(i + 1));
                    }
                    if crate::text::eq_str(fields[i].0.as_str(), key) {
                        return Option::Some(&fields[i].1);
                    }
                    i += 1;
                }
                proof {
                    assert(mapped.skip(fields@.len() as int) =~= Seq::empty());
                }
                Option::None
            },
            _ => Option::None,
        }
    }

    /// A copy whose shape equals the original's.
    #[verifier::loop_isolation(false)]
    pub fn deep_copy(&self) -> (r: JsonValue)
        ensures
            r@ == self@,
        decreases *self,
    {
        match self {
            JsonValue::Null => JsonValue::Null,
            JsonValue::Bool(b) => JsonValue::Bool(*b),
            JsonValue::Number(s) => JsonValue::Number(s.clone()),
            JsonValue::Text(s) => JsonValue::Text(s.clone()),
            JsonValue::Array(xs) => {
                proof {
                    lemma_jv_views(xs@);
                }
                let mut out: Vec<JsonValue> = Vec::new();
                let mut i: usize = 0;
                while i < xs.len()
                    invariant
                        0 <= i <= xs.len(),
                        out.len() == i,
                        forall|j: int| 0 <= j < i ==> jv_view(out@[j]) == jv_view(xs@[j]),
                    decreases xs.len() - i,
                {
                    proof {
                        vstd::std_specs::vec::axiom_vec_index_decreases(*xs, i as int);
                        assert(decreases_to!(*self => xs@[i as int]));
                    }
                    out.push(xs[i].deep_copy());
                    i += 1;
                }
                proof {
                    lemma_jv_views(out@);
                    assert(jv_views(out@) =~= jv_views(xs@));
                }
                JsonValue::Array(out)
            },
            JsonValue::Object(xs) => {
                proof {
                    lemma_jv_field_views(xs@);
                }
                let mut out: Vec<(String, JsonValue)> = Vec::new();
                let mut i: usize = 0;
                while i < xs.len()
                    invariant
                        0 <= i <= xs.len(),
                        out.len() == i,
                        forall|j: int| 0 <= j < i ==> out@[j].0@ == xs@[j].0@ && jv_view(out@[j].1)
                            == jv_view(xs@[j].1),
                    decreases xs.len() - i,
                {
                    proof {
                        vstd::std_specs::vec::axiom_vec_index_decreases(*xs, i as int);
                        assert(decreases_to!(*self => xs@[i as int].1));
                    }
                    out.push((xs[i].0.clone(), xs[i].1.deep_copy()));
                    i += 1;
                }
                proof {
                    lemma_jv_field_views(out@);
                    assert(jv_field_views(out@) =~= jv_field_views(xs@));
                }
                JsonValue::Object(out)
            },
        }
    }
}

} // verus!
