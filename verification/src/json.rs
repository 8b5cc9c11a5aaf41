//! A generic structured value, the intermediate tree both passes of the codec
//! work on: the decoder first receives one of these, reads the discriminator,
//! and only then projects the tree into a typed variant.
//!
//! Numbers are restricted to signed 64-bit integers; the login wire format
//! only ever carries millisecond counts, which fit.

use vstd::prelude::*;

verus! {

/// An owned JSON-like tree. An object keeps its fields in order, as a
/// sequence of key/value pairs.
#[derive(Debug, PartialEq, Eq)]
pub enum Json {
    Null,
    Bool(bool),
    Int(i64),
    Str(String),
    Arr(Vec<Json>),
    Obj(Vec<(String, Json)>),
}

/// The mathematical model of a [`Json`] tree: strings become sequences of
/// characters, vectors become sequences.
#[verifier::ext_equal]
pub enum JsonV {
    Null,
    Bool(bool),
    Int(i64),
    Str(Seq<char>),
    Arr(Seq<JsonV>),
    Obj(Seq<(Seq<char>, JsonV)>),
}

/// The model of a [`Json`] tree.
pub open spec fn json_view(j: Json) -> JsonV
    decreases j,
{
    match j {
        Json::Null => JsonV::Null,
        Json::Bool(b) => JsonV::Bool(b),
        Json::Int(n) => JsonV::Int(n),
        Json::Str(s) => JsonV::Str(s@),
        Json::Arr(items) => JsonV::Arr(arr_view(items@)),
        Json::Obj(fields) => JsonV::Obj(fields_view(fields@)),
    }
}

/// The model of a sequence of array elements.
pub open spec fn arr_view(s: Seq<Json>) -> Seq<JsonV>
    decreases s,
{
    if s.len() == 0 {
        Seq::empty()
    } else {
        arr_view(s.drop_last()).push(json_view(s.last()))
    }
}

/// The model of an object's field list.
pub open spec fn fields_view(s: Seq<(String, Json)>) -> Seq<(Seq<char>, JsonV)>
    decreases s,
{
    if s.len() == 0 {
        Seq::empty()
    } else {
        fields_view(s.drop_last()).push((s.last().0@, json_view(s.last().1)))
    }
}

impl View for Json {
    type V = JsonV;

    open spec fn view(&self) -> JsonV {
        json_view(*self)
    }
}

/// `arr_view` maps the sequence element by element.
pub broadcast proof fn lemma_arr_view_index(s: Seq<Json>)
    ensures
        (#[trigger] arr_view(s)).len() == s.len(),
        forall|i: int| 0 <= i < s.len() ==> arr_view(s)[i] == json_view(s[i]),
    decreases s.len(),
{
    if s.len() > 0 {
        lemma_arr_view_index(s.drop_last());
    }
}

/// `fields_view` maps the field list pair by pair.
pub broadcast proof fn lemma_fields_view_index(s: Seq<(String, Json)>)
    ensures
        (#[trigger] fields_view(s)).len() == s.len(),
        forall|i: int|
            0 <= i < s.len() ==> fields_view(s)[i] == (s[i].0@, json_view(s[i].1)),
    decreases s.len(),
{
    if s.len() > 0 {
        lemma_fields_view_index(s.drop_last());
    }
}

/// The value under the first field named `key`, if any.
pub open spec fn obj_lookup(fields: Seq<(Seq<char>, JsonV)>, key: Seq<char>) -> Option<JsonV>
    decreases fields.len(),
{
    if fields.len() == 0 {
        None
    } else if fields[0].0 == key {
        Some(fields[0].1)
    } else {
        obj_lookup(fields.drop_first(), key)
    }
}

/// The field list with every field named `key` removed.
pub open spec fn obj_remove(fields: Seq<(Seq<char>, JsonV)>, key: Seq<char>) -> Seq<
    (Seq<char>, JsonV),
>
    decreases fields.len(),
{
    if fields.len() == 0 {
        Seq::empty()
    } else if fields.first().0 == key {
        obj_remove(fields.drop_first(), key)
    } else {
        seq![fields.first()] + obj_remove(fields.drop_first(), key)
    }
}

/// Removing a key from a list extended on the right removes it from the
/// prefix and keeps the last pair unless it carries that key.
pub proof fn lemma_obj_remove_push(s: Seq<(Seq<char>, JsonV)>, p: (Seq<char>, JsonV), key: Seq<char>)
    ensures
        obj_remove(s.push(p), key) == if p.0 == key {
            obj_remove(s, key)
        } else {
            obj_remove(s, key).push(p)
        },
    decreases s.len(),
{
    if s.len() == 0 {
        assert(s.push(p).drop_first() =~= Seq::<(Seq<char>, JsonV)>::empty());
        if p.0 != key {
            assert(seq![p] + obj_remove(Seq::empty(), key) =~= obj_remove(s, key).push(p));
        }
    } else {
        assert(s.push(p).drop_first() =~= s.drop_first().push(p));
        lemma_obj_remove_push(s.drop_first(), p, key);
        if s.first().0 != key && p.0 != key {
            assert(seq![s.first()] + obj_remove(s.drop_first(), key).push(p) =~= (seq![s.first()]
                + obj_remove(s.drop_first(), key)).push(p));
        }
    }
}

/// Removing an absent key leaves the list unchanged.
pub proof fn lemma_obj_remove_absent(s: Seq<(Seq<char>, JsonV)>, key: Seq<char>)
    requires
        forall|i: int| 0 <= i < s.len() ==> s[i].0 != key,
    ensures
        obj_remove(s, key) == s,
    decreases s.len(),
{
    if s.len() > 0 {
        lemma_obj_remove_absent(s.drop_first(), key);
        assert(seq![s.first()] + s.drop_first() =~= s);
    }
}

/// With distinct keys, putting a looked-up pair back in front of the list
/// with that key removed is a permutation of the original list.
pub proof fn lemma_obj_remove_permutes(s: Seq<(Seq<char>, JsonV)>, key: Seq<char>, v: JsonV)
    requires
        keys_distinct(s),
        obj_lookup(s, key) == Some(v),
    ensures
        (seq![(key, v)] + obj_remove(s, key)).to_multiset() == s.to_multiset(),
    decreases s.len(),
{
    broadcast use vstd::seq_lib::lemma_multiset_commutative;

    if s.first().0 == key {
        assert(forall|i: int|
            0 <= i < s.drop_first().len() ==> s.drop_first()[i] == s[i + 1] && s.drop_first()[i].0
                != key);
        lemma_obj_remove_absent(s.drop_first(), key);
        assert(seq![(key, v)] + s.drop_first() =~= s);
    } else {
        assert(keys_distinct(s.drop_first())) by {
            assert(forall|i: int|
                0 <= i < s.drop_first().len() ==> s.drop_first()[i] == s[i + 1]);
        }
        lemma_obj_remove_permutes(s.drop_first(), key, v);
        let rest = obj_remove(s.drop_first(), key);
        assert((seq![(key, v)] + (seq![s.first()] + rest)).to_multiset() =~= (seq![s.first()] + (
        seq![(key, v)] + rest)).to_multiset()) by {
            assert((seq![(key, v)] + (seq![s.first()] + rest)) =~= (seq![(key, v)] + seq![
                s.first()
            ]) + rest);
            assert((seq![s.first()] + (seq![(key, v)] + rest)) =~= (seq![s.first()] + seq![
                (key, v)
            ]) + rest);
            assert((seq![(key, v)] + seq![s.first()]).to_multiset() =~= (seq![s.first()] + seq![
                (key, v)
            ]).to_multiset()) by {
                assert(seq![(key, v)] + seq![s.first()] =~= Seq::empty().push((key, v)).push(
                    s.first(),
                ));
                assert(seq![s.first()] + seq![(key, v)] =~= Seq::empty().push(s.first()).push(
                    (key, v),
                ));
                broadcast use vstd::seq_lib::to_multiset_build;

            }
        }
        assert(seq![s.first()] + s.drop_first() =~= s);
    }
}

/// No two fields share a name: what a JSON parser hands over.
pub open spec fn keys_distinct(fields: Seq<(Seq<char>, JsonV)>) -> bool {
    forall|i: int, j: int| 0 <= i < j < fields.len() ==> fields[i].0 != fields[j].0
}

/// `obj_lookup` returns the value at the first index whose key matches.
proof fn lemma_obj_lookup_at(s: Seq<(Seq<char>, JsonV)>, key: Seq<char>, i: int)
    requires
        0 <= i < s.len(),
        s[i].0 == key,
        forall|k: int| 0 <= k < i ==> s[k].0 != key,
    ensures
        obj_lookup(s, key) == Some(s[i].1),
    decreases i,
{
    if i > 0 {
        lemma_obj_lookup_at(s.drop_first(), key, i - 1);
    }
}

/// `obj_lookup` fails when no key matches.
pub proof fn lemma_obj_lookup_none(s: Seq<(Seq<char>, JsonV)>, key: Seq<char>)
    requires
        forall|k: int| 0 <= k < s.len() ==> s[k].0 != key,
    ensures
        obj_lookup(s, key) is None,
    decreases s.len(),
{
    if s.len() > 0 {
        lemma_obj_lookup_none(s.drop_first(), key);
    }
}

impl Json {
    /// A verified deep copy: the copy has the same model as the original.
    #[verifier::loop_isolation(false)]
    pub fn deep_clone(&self) -> (r: Json)
        ensures
            r@ == self@,
        decreases self,
    {
        match self {
            Json::Null => Json::Null,
            Json::Bool(b) => Json::Bool(*b),
            Json::Int(n) => Json::Int(*n),
            Json::Str(s) => Json::Str(s.clone()),
            Json::Arr(items) => {
                let mut out: Vec<Json> = Vec::new();
                let mut i: usize = 0;
                while i < items.len()
                    invariant
                        i <= items.len(),
                        out@.len() == i,
                        forall|k: int| 0 <= k < i ==> out@[k]@ == items@[k]@,
                    decreases items.len() - i,
                {
                    proof {
                        assert(decreases_to!(*self => self->Arr_0));
                        assert(self->Arr_0 == *items);
                        assert(decreases_to!(*items => items@));
                        assert(decreases_to!(items@ => items@[i as int]));
                    }
                    let c = items[i].deep_clone();
                    out.push(c);
                    i += 1;
                }
                proof {
                    broadcast use lemma_arr_view_index;

                    assert(arr_view(out@) =~= arr_view(items@));
                }
                Json::Arr(out)
            },
            Json::Obj(fields) => {
                let mut out: Vec<(String, Json)> = Vec::new();
                let mut i: usize = 0;
                while i < fields.len()
                    invariant
                        i <= fields.len(),
                        out@.len() == i,
                        forall|k: int|
                            0 <= k < i ==> out@[k].0@ == fields@[k].0@ && out@[k].1@
                                == fields@[k].1@,
                    decreases fields.len() - i,
                {
                    let name = fields[i].0.clone();
                    proof {
                        assert(decreases_to!(*self => self->Obj_0));
                        assert(self->Obj_0 == *fields);
                        assert(decreases_to!(*fields => fields@));
                        assert(decreases_to!(fields@ => fields@[i as int]));
                        assert(decreases_to!(fields@[i as int] => fields@[i as int].1));
                    }
                    let value = fields[i].1.deep_clone();
                    out.push((name, value));
                    i += 1;
                }
                proof {
                    broadcast use lemma_fields_view_index;

                    assert(fields_view(out@) =~= fields_view(fields@));
                }
                Json::Obj(out)
            },
        }
    }
}

impl Clone for Json {
    /// A clone is a deep copy: it has the same model as the original.
    fn clone(&self) -> (res: Self)
        ensures
            res@ == self@,
    {
        self.deep_clone()
    }
}

/// A reference to the value under the first field named `key`, if any.
pub fn obj_get<'a>(fields: &'a Vec<(String, Json)>, key: &str) -> (r: Option<&'a Json>)
    ensures
        match r {
            Some(v) => obj_lookup(fields_view(fields@), key@) == Some(v@),
            None => obj_lookup(fields_view(fields@), key@) is None,
        },
{
    proof {
        broadcast use lemma_fields_view_index;

    }
    let mut i: usize = 0;
    while i < fields.len()
        invariant
            i <= fields.len(),
            forall|k: int| 0 <= k < i ==> fields_view(fields@)[k].0 != key@,
        decreases fields.len() - i,
    {
        proof {
            broadcast use lemma_fields_view_index;

        }
        if str_eq(fields[i].0.as_str(), key) {
            proof {
                lemma_obj_lookup_at(fields_view(fields@), key@, i as int);
            }
            return Some(&fields[i].1);
        }
        i += 1;
    }
    proof {
        lemma_obj_lookup_none(fields_view(fields@), key@);
    }
    None
}

/// A copy of the field list with every field named `key` dropped.
pub fn obj_remove_fields(fields: &Vec<(String, Json)>, key: &str) -> (r: Vec<(String, Json)>)
    ensures
        fields_view(r@) == obj_remove(fields_view(fields@), key@),
{
    proof {
        broadcast use lemma_fields_view_index;

    }
    let mut out: Vec<(String, Json)> = Vec::new();
    let mut i: usize = 0;
    while i < fields.len()
        invariant
            i <= fields.len(),
            fields_view(out@) == obj_remove(fields_view(fields@.take(i as int)), key@),
        decreases fields.len() - i,
    {
        let ghost pair = (fields@[i as int].0@, fields@[i as int].1@);
        proof {
            broadcast use lemma_fields_view_index;

            assert(fields@.take(i as int + 1) =~= fields@.take(i as int).push(fields@[i as int]));
            assert(fields_view(fields@.take(i as int + 1)) =~= fields_view(
                fields@.take(i as int),
            ).push(pair));
            lemma_obj_remove_push(fields_view(fields@.take(i as int)), pair, key@);
        }
        if !str_eq(fields[i].0.as_str(), key) {
            let name = fields[i].0.clone();
            let value = fields[i].1.deep_clone();
            out.push((name, value));
            proof {
                broadcast use lemma_fields_view_index;

                assert(fields_view(out@) =~= fields_view(out@.drop_last()).push(pair));
            }
        }
        i += 1;
    }
    proof {
        assert(fields@.take(fields@.len() as int) =~= fields@);
    }
    out
}

/// Equality of two string slices, decided by their character sequences.
pub fn str_eq(a: &str, b: &str) -> (r: bool)
    ensures
        r == (a@ == b@),
{
    let x: String = a.to_owned();
    let y: String = b.to_owned();
    x == y
}

} // verus!
