//! The dynamic value model: a JSON-shaped tagged union, together with its
//! mathematical model (`DynModel`) used by every contract in this crate.
//!
//! Numbers are IEEE-754 double-precision values carried by their 64-bit
//! pattern, so that the codec and the store can be stated and proved without
//! floating-point arithmetic; converting to and from an actual `f64` is the
//! caller's concern.

use vstd::prelude::*;

verus! {

/// Mathematical model of a dynamic value. Object fields are a sequence of
/// (name, value) pairs in insertion order; arrays are ordered sequences.
#[verifier::ext_equal]
pub enum DynModel {
    Null,
    /// IEEE-754 bit pattern of a double-precision number.
    Number(u64),
    Str(Seq<char>),
    Bool(bool),
    Object(Seq<(Seq<char>, DynModel)>),
    Array(Seq<DynModel>),
}

/// A JSON-shaped dynamic value: null, double-precision number (by bit
/// pattern), string, boolean, object (ordered field list), or array.
#[derive(Debug, PartialEq, Eq)]
pub enum DynValue {
    Null,
    /// IEEE-754 bit pattern of a double-precision number.
    Number(u64),
    Str(String),
    Bool(bool),
    Object(Vec<(String, DynValue)>),
    Array(Vec<DynValue>),
}

/// Model of a dynamic value: variant for variant, strings as character
/// sequences.
pub open spec fn dyn_model(v: DynValue) -> DynModel
    decreases v,
{
    match v {
        DynValue::Null => DynModel::Null,
        DynValue::Number(bits) => DynModel::Number(bits),
        DynValue::Str(s) => DynModel::Str(s@),
        DynValue::Bool(b) => DynModel::Bool(b),
        DynValue::Object(fields) => DynModel::Object(dyn_field_models(fields)),
        DynValue::Array(items) => DynModel::Array(dyn_item_models(items)),
    }
}

/// Models of an object's fields, in order.
pub open spec fn dyn_field_models(fields: Vec<(String, DynValue)>) -> Seq<(Seq<char>, DynModel)>
    decreases fields,
{
    Seq::new(
        fields@.len(),
        |i: int|
            if 0 <= i < fields@.len() {
                dyn_field_model(fields@[i])
            } else {
                (Seq::empty(), DynModel::Null)
            },
    )
}

/// Model of one object field.
pub open spec fn dyn_field_model(field: (String, DynValue)) -> (Seq<char>, DynModel)
    decreases field,
{
    (field.0@, dyn_model(field.1))
}

/// Models of an array's items, in order.
pub open spec fn dyn_item_models(items: Vec<DynValue>) -> Seq<DynModel>
    decreases items,
{
    Seq::new(
        items@.len(),
        |i: int| if 0 <= i < items@.len() { dyn_model(items@[i]) } else { DynModel::Null },
    )
}

impl View for DynValue {
    type V = DynModel;

    open spec fn view(&self) -> DynModel {
        dyn_model(*self)
    }
}

impl DynValue {
    /// Deep copy. The store hands values in and out by copy, never by
    /// exposing its internal references.
    #[verifier::loop_isolation(false)]
    pub fn duplicate(&self) -> (r: DynValue)
        ensures
            r@ == self@,
        decreases self,
    {
        match self {
            DynValue::Null => DynValue::Null,
            DynValue::Number(bits) => DynValue::Number(*bits),
            DynValue::Str(s) => DynValue::Str(s.clone()),
            DynValue::Bool(b) => DynValue::Bool(*b),
            DynValue::Object(fields) => {
                let mut out: Vec<(String, DynValue)> = Vec::new();
                let n = fields.len();
                for i in 0..n
                    invariant
                        n == fields@.len(),
                        out@.len() == i,
                        forall|j: int| #![auto] 0 <= j < i ==>
                            out@[j].0@ == fields@[j].0@ && out@[j].1@ == fields@[j].1@,
                    decreases n - i,
                {
                    let (k, v) = &fields[i];
                    proof {
                        assert(decreases_to!(*self => *fields));
                        assert(decreases_to!(*fields => fields@[i as int]));
                        assert(decreases_to!(fields@[i as int] => fields@[i as int].1));
                    }
                    out.push((k.clone(), v.duplicate()));
                }
                let r = DynValue::Object(out);
                proof {
                    assert(dyn_field_models(out) =~= dyn_field_models(*fields));
                }
                r
            }
            DynValue::Array(items) => {
                let mut out: Vec<DynValue> = Vec::new();
                let n = items.len();
                for i in 0..n
                    invariant
                        n == items@.len(),
                        out@.len() == i,
                        forall|j: int| #![auto] 0 <= j < i ==> out@[j]@ == items@[j]@,
                    decreases n - i,
                {
                    proof {
                        assert(decreases_to!(*self => *items));
                        assert(decreases_to!(*items => items@[i as int]));
                    }
                    out.push(items[i].duplicate());
                }
                let r = DynValue::Array(out);
                proof {
                    assert(dyn_item_models(out) =~= dyn_item_models(*items));
                }
                r
            }
        }
    }
}

} // verus!
