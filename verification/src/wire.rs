//! The typed wire counterpart of the dynamic value: the shape a value takes
//! when it crosses the RPC boundary. A wire value carries an optional `kind`;
//! a wire value with no kind at all is a real possibility on the wire and is
//! defined to stand for null.

use vstd::prelude::*;

verus! {

/// Mathematical model of a wire value's kind.
#[verifier::ext_equal]
pub enum WireKindModel {
    Null,
    /// IEEE-754 bit pattern of a double-precision number.
    Number(u64),
    Str(Seq<char>),
    Bool(bool),
    Struct(Seq<(Seq<char>, WireModel)>),
    List(Seq<WireModel>),
}

/// Mathematical model of a wire value: an optional kind.
#[verifier::ext_equal]
pub struct WireModel {
    pub kind: Option<WireKindModel>,
}

/// The kind carried by a wire value.
#[derive(Debug, PartialEq, Eq)]
pub enum WireKind {
    Null,
    /// IEEE-754 bit pattern of a double-precision number.
    Number(u64),
    Str(String),
    Bool(bool),
    Struct(Vec<(String, WireValue)>),
    List(Vec<WireValue>),
}

/// A typed wire value. `kind` may be absent ("unset"), which decodes to null.
#[derive(Debug, PartialEq, Eq)]
pub struct WireValue {
    pub kind: Option<WireKind>,
}

/// Model of a wire value.
pub open spec fn wire_model(w: WireValue) -> WireModel
    decreases w,
{
    match w.kind {
        None => WireModel { kind: None },
        Some(k) => WireModel { kind: Some(wire_kind_model(k)) },
    }
}

/// Model of a wire kind, variant for variant.
pub open spec fn wire_kind_model(k: WireKind) -> WireKindModel
    decreases k,
{
    match k {
        WireKind::Null => WireKindModel::Null,
        WireKind::Number(bits) => WireKindModel::Number(bits),
        WireKind::Str(s) => WireKindModel::Str(s@),
        WireKind::Bool(b) => WireKindModel::Bool(b),
        WireKind::Struct(fields) => WireKindModel::Struct(wire_field_models(fields)),
        WireKind::List(items) => WireKindModel::List(wire_item_models(items)),
    }
}

/// Models of a wire struct's fields, in order.
pub open spec fn wire_field_models(fields: Vec<(String, WireValue)>) -> Seq<(Seq<char>, WireModel)>
    decreases fields,
{
    Seq::new(
        fields@.len(),
        |i: int|
            if 0 <= i < fields@.len() {
                wire_field_model(fields@[i])
            } else {
                (Seq::empty(), WireModel { kind: None })
            },
    )
}

/// Model of one wire struct field.
pub open spec fn wire_field_model(field: (String, WireValue)) -> (Seq<char>, WireModel)
    decreases field,
{
    (field.0@, wire_model(field.1))
}

/// Models of a wire list's items, in order.
pub open spec fn wire_item_models(items: Vec<WireValue>) -> Seq<WireModel>
    decreases items,
{
    Seq::new(
        items@.len(),
        |i: int|
            if 0 <= i < items@.len() {
                wire_model(items@[i])
            } else {
                WireModel { kind: None }
            },
    )
}

impl View for WireValue {
    type V = WireModel;

    open spec fn view(&self) -> WireModel {
        wire_model(*self)
    }
}

} // verus!
