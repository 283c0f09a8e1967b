//! The value codec: a lossless bidirectional mapping between dynamic values
//! and typed wire values. Both directions are total: every dynamic value
//! encodes, and every wire value decodes — a wire value carrying no kind
//! decodes to null by definition.

use vstd::prelude::*;

use crate::value::{dyn_model, DynModel, DynValue};
use crate::wire::{
    wire_field_models, wire_item_models, wire_model, WireKind, WireKindModel, WireModel, WireValue,
};

verus! {

/// What encoding means: variant to variant, fields and items elementwise,
/// order preserved. The result always carries a kind.
pub open spec fn encode_model(v: DynModel) -> WireModel
    decreases v,
{
    match v {
        DynModel::Null => WireModel { kind: Some(WireKindModel::Null) },
        DynModel::Number(bits) => WireModel { kind: Some(WireKindModel::Number(bits)) },
        DynModel::Str(s) => WireModel { kind: Some(WireKindModel::Str(s)) },
        DynModel::Bool(b) => WireModel { kind: Some(WireKindModel::Bool(b)) },
        DynModel::Object(fields) => WireModel {
            kind: Some(WireKindModel::Struct(encode_field_models(fields))),
        },
        DynModel::Array(items) => WireModel {
            kind: Some(WireKindModel::List(encode_item_models(items))),
        },
    }
}

/// Encoded object fields, in order.
pub open spec fn encode_field_models(fields: Seq<(Seq<char>, DynModel)>) -> Seq<
    (Seq<char>, WireModel),
>
    decreases fields,
{
    Seq::new(
        fields.len(),
        |i: int|
            if 0 <= i < fields.len() {
                encode_field_model(fields[i])
            } else {
                (Seq::empty(), WireModel { kind: None })
            },
    )
}

/// One encoded object field: the name is kept, the value is encoded.
pub open spec fn encode_field_model(field: (Seq<char>, DynModel)) -> (Seq<char>, WireModel)
    decreases field,
{
    (field.0, encode_model(field.1))
}

/// Encoded array items, in order.
pub open spec fn encode_item_models(items: Seq<DynModel>) -> Seq<WireModel>
    decreases items,
{
    Seq::new(
        items.len(),
        |i: int| if 0 <= i < items.len() { encode_model(items[i]) } else {
            WireModel { kind: None }
        },
    )
}

/// What decoding means: variant to variant; an absent kind decodes to null.
pub open spec fn decode_model(w: WireModel) -> DynModel
    decreases w,
{
    match w.kind {
        None => DynModel::Null,
        Some(k) => decode_kind_model(k),
    }
}

/// Decoding of a present kind.
pub open spec fn decode_kind_model(k: WireKindModel) -> DynModel
    decreases k,
{
    match k {
        WireKindModel::Null => DynModel::Null,
        WireKindModel::Number(bits) => DynModel::Number(bits),
        WireKindModel::Str(s) => DynModel::Str(s),
        WireKindModel::Bool(b) => DynModel::Bool(b),
        WireKindModel::Struct(fields) => DynModel::Object(decode_field_models(fields)),
        WireKindModel::List(items) => DynModel::Array(decode_item_models(items)),
    }
}

/// Decoded struct fields, in order.
pub open spec fn decode_field_models(fields: Seq<(Seq<char>, WireModel)>) -> Seq<
    (Seq<char>, DynModel),
>
    decreases fields,
{
    Seq::new(
        fields.len(),
        |i: int|
            if 0 <= i < fields.len() {
                decode_field_model(fields[i])
            } else {
                (Seq::empty(), DynModel::Null)
            },
    )
}

/// One decoded struct field.
pub open spec fn decode_field_model(field: (Seq<char>, WireModel)) -> (Seq<char>, DynModel)
    decreases field,
{
    (field.0, decode_model(field.1))
}

/// Decoded list items, in order.
pub open spec fn decode_item_models(items: Seq<WireModel>) -> Seq<DynModel>
    decreases items,
{
    Seq::new(
        items.len(),
        |i: int| if 0 <= i < items.len() { decode_model(items[i]) } else { DynModel::Null },
    )
}

/// A wire value is well formed when it carries a kind at every level. Decoding
/// is total regardless; well-formedness is what the reverse round trip needs,
/// since a kindless wire value decodes to null and re-encodes to a null kind.
pub open spec fn wire_wf(w: WireModel) -> bool
    decreases w,
{
    match w.kind {
        None => false,
        Some(k) => wire_kind_wf(k),
    }
}

/// Well-formedness of a present kind: every nested value carries a kind.
pub open spec fn wire_kind_wf(k: WireKindModel) -> bool
    decreases k,
{
    match k {
        WireKindModel::Null => true,
        WireKindModel::Number(_) => true,
        WireKindModel::Str(_) => true,
        WireKindModel::Bool(_) => true,
        WireKindModel::Struct(fields) => forall|i: int|
            0 <= i < fields.len() ==> wire_wf((#[trigger] fields[i]).1),
        WireKindModel::List(items) => forall|i: int|
            0 <= i < items.len() ==> wire_wf(#[trigger] items[i]),
    }
}

/// Encodes a dynamic value into its typed wire form.
#[verifier::loop_isolation(false)]
pub fn encode(v: &DynValue) -> (w: WireValue)
    ensures
        w@ == encode_model(v@),
    decreases v,
{
    match v {
        DynValue::Null => WireValue { kind: Some(WireKind::Null) },
        DynValue::Number(bits) => WireValue { kind: Some(WireKind::Number(*bits)) },
        DynValue::Str(s) => WireValue { kind: Some(WireKind::Str(s.clone())) },
        DynValue::Bool(b) => WireValue { kind: Some(WireKind::Bool(*b)) },
        DynValue::Object(fields) => {
            let mut out: Vec<(String, WireValue)> = Vec::new();
            let n = fields.len();
            for i in 0..n
                invariant
                    n == fields@.len(),
                    out@.len() == i,
                    forall|j: int| #![auto] 0 <= j < i ==>
                        out@[j].0@ == fields@[j].0@
                        && wire_model(out@[j].1) == encode_model(dyn_model(fields@[j].1)),
                decreases n - i,
            {
                let (k, fv) = &fields[i];
                proof {
                    assert(decreases_to!(*v => *fields));
                    assert(decreases_to!(*fields => fields@[i as int]));
                    assert(decreases_to!(fields@[i as int] => fields@[i as int].1));
                }
                out.push((k.clone(), encode(fv)));
            }
            let w = WireValue { kind: Some(WireKind::Struct(out)) };
            proof {
                assert(wire_field_models(out) =~= encode_field_models(
                    crate::value::dyn_field_models(*fields),
                ));
            }
            w
        }
        DynValue::Array(items) => {
            let mut out: Vec<WireValue> = Vec::new();
            let n = items.len();
            for i in 0..n
                invariant
                    n == items@.len(),
                    out@.len() == i,
                    forall|j: int| #![auto] 0 <= j < i ==>
                        wire_model(out@[j]) == encode_model(dyn_model(items@[j])),
                decreases n - i,
            {
                proof {
                    assert(decreases_to!(*v => *items));
                    assert(decreases_to!(*items => items@[i as int]));
                }
                out.push(encode(&items[i]));
            }
            let w = WireValue { kind: Some(WireKind::List(out)) };
            proof {
                assert(wire_item_models(out) =~= encode_item_models(
                    crate::value::dyn_item_models(*items),
                ));
            }
            w
        }
    }
}

/// Decodes a typed wire value into a dynamic value. Total: a wire value
/// without a kind decodes to null.
#[verifier::loop_isolation(false)]
pub fn decode(w: &WireValue) -> (v: DynValue)
    ensures
        v@ == decode_model(w@),
    decreases w,
{
    match &w.kind {
        None => DynValue::Null,
        Some(WireKind::Null) => DynValue::Null,
        Some(WireKind::Number(bits)) => DynValue::Number(*bits),
        Some(WireKind::Str(s)) => DynValue::Str(s.clone()),
        Some(WireKind::Bool(b)) => DynValue::Bool(*b),
        Some(WireKind::Struct(fields)) => {
            let mut out: Vec<(String, DynValue)> = Vec::new();
            let n = fields.len();
            for i in 0..n
                invariant
                    n == fields@.len(),
                    out@.len() == i,
                    forall|j: int| #![auto] 0 <= j < i ==>
                        out@[j].0@ == fields@[j].0@
                        && dyn_model(out@[j].1) == decode_model(wire_model(fields@[j].1)),
                decreases n - i,
            {
                let (k, fv) = &fields[i];
                proof {
                    assert(decreases_to!(*w => w.kind));
                    assert(decreases_to!(w.kind => w.kind->Some_0));
                    assert(decreases_to!(w.kind->Some_0 => *fields));
                    assert(decreases_to!(*fields => fields@[i as int]));
                    assert(decreases_to!(fields@[i as int] => fields@[i as int].1));
                }
                out.push((k.clone(), decode(fv)));
            }
            let r = DynValue::Object(out);
            proof {
                assert(crate::value::dyn_field_models(out) =~= decode_field_models(
                    wire_field_models(*fields),
                ));
            }
            r
        }
        Some(WireKind::List(items)) => {
            let mut out: Vec<DynValue> = Vec::new();
            let n = items.len();
            for i in 0..n
                invariant
                    n == items@.len(),
                    out@.len() == i,
                    forall|j: int| #![auto] 0 <= j < i ==>
                        dyn_model(out@[j]) == decode_model(wire_model(items@[j])),
                decreases n - i,
            {
                proof {
                    assert(decreases_to!(*w => w.kind));
                    assert(decreases_to!(w.kind => w.kind->Some_0));
                    assert(decreases_to!(w.kind->Some_0 => *items));
                    assert(decreases_to!(*items => items@[i as int]));
                }
                out.push(decode(&items[i]));
            }
            let r = DynValue::Array(out);
            proof {
                assert(crate::value::dyn_item_models(out) =~= decode_item_models(
                    wire_item_models(*items),
                ));
            }
            r
        }
    }
}

/// Round trip: decoding an encoded dynamic value gives the value back,
/// for every dynamic value.
pub proof fn lemma_decode_encode(v: DynModel)
    ensures
        decode_model(encode_model(v)) == v,
    decreases v,
{
    match v {
        DynModel::Object(fields) => {
            assert forall|i: int| 0 <= i < fields.len() implies decode_field_models(
                encode_field_models(fields),
            )[i] == fields[i] by {
                assert(decreases_to!(v => fields));
                assert(decreases_to!(fields => fields[i]));
                assert(decreases_to!(fields[i] => fields[i].1));
                lemma_decode_encode(fields[i].1);
            }
            assert(decode_field_models(encode_field_models(fields)) =~= fields);
        }
        DynModel::Array(items) => {
            assert forall|i: int| 0 <= i < items.len() implies decode_item_models(
                encode_item_models(items),
            )[i] == items[i] by {
                assert(decreases_to!(v => items));
                assert(decreases_to!(items => items[i]));
                lemma_decode_encode(items[i]);
            }
            assert(decode_item_models(encode_item_models(items)) =~= items);
        }
        _ => {}
    }
}

/// Encoding always yields a well-formed wire value: a kind at every level.
pub proof fn lemma_encode_wf(v: DynModel)
    ensures
        wire_wf(encode_model(v)),
    decreases v,
{
    match v {
        DynModel::Object(fields) => {
            let efields = encode_field_models(fields);
            assert forall|i: int| 0 <= i < efields.len() implies wire_wf(
                (#[trigger] efields[i]).1,
            ) by {
                assert(decreases_to!(v => fields));
                assert(decreases_to!(fields => fields[i]));
                assert(decreases_to!(fields[i] => fields[i].1));
                lemma_encode_wf(fields[i].1);
            }
            assert(wire_kind_wf(WireKindModel::Struct(efields)));
        }
        DynModel::Array(items) => {
            let eitems = encode_item_models(items);
            assert forall|i: int| 0 <= i < eitems.len() implies wire_wf(
                #[trigger] eitems[i],
            ) by {
                assert(decreases_to!(v => items));
                assert(decreases_to!(items => items[i]));
                lemma_encode_wf(items[i]);
            }
            assert(wire_kind_wf(WireKindModel::List(eitems)));
        }
        _ => {}
    }
}

/// Reverse round trip: encoding a decoded wire value gives the wire value
/// back, for every well-formed wire value.
pub proof fn lemma_encode_decode(w: WireModel)
    requires
        wire_wf(w),
    ensures
        encode_model(decode_model(w)) == w,
    decreases w,
{
    let k = w.kind->Some_0;
    match k {
        WireKindModel::Struct(fields) => {
            assert forall|i: int| 0 <= i < fields.len() implies encode_field_models(
                decode_field_models(fields),
            )[i] == fields[i] by {
                assert(decreases_to!(w => w.kind));
                assert(decreases_to!(w.kind => k));
                assert(decreases_to!(k => fields));
                assert(decreases_to!(fields => fields[i]));
                assert(decreases_to!(fields[i] => fields[i].1));
                lemma_encode_decode(fields[i].1);
            }
            assert(encode_field_models(decode_field_models(fields)) =~= fields);
            assert(encode_model(decode_model(w)) =~= w);
        }
        WireKindModel::List(items) => {
            assert forall|i: int| 0 <= i < items.len() implies encode_item_models(
                decode_item_models(items),
            )[i] == items[i] by {
                assert(decreases_to!(w => w.kind));
                assert(decreases_to!(w.kind => k));
                assert(decreases_to!(k => items));
                assert(decreases_to!(items => items[i]));
                lemma_encode_decode(items[i]);
            }
            assert(encode_item_models(decode_item_models(items)) =~= items);
            assert(encode_model(decode_model(w)) =~= w);
        }
        _ => {
            assert(encode_model(decode_model(w)) =~= w);
        }
    }
}

} // verus!
