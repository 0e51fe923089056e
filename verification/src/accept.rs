//! Whether a visitor takes the kind of value it is offered: a visitor that
//! expects one kind of value refuses every other kind, while encoding or
//! decoding.

use vstd::prelude::*;

verus! {

/// The kinds of value a visitor can be offered.
#[derive(Clone, Copy, Debug, PartialEq, Eq, Structural)]
pub enum ValueKind {
    Primitive,
    Optional,
    Sequence,
    Tuple,
    Mapping,
    NewTypeStruct,
    TupleStruct,
    NamedStruct,
    Enumeration,
}

/// The direction of a traversal.
#[derive(Clone, Copy, Debug, PartialEq, Eq, Structural)]
pub enum Traversal {
    Encoding,
    Decoding,
}

/// A visitor was offered a kind of value it does not take.
#[derive(Clone, Copy, Debug, PartialEq, Eq, Structural)]
pub struct KindMismatch {
    /// The kind offered.
    pub offered: ValueKind,
    /// Whether the value was being encoded or decoded.
    pub during: Traversal,
}

/// How a kind of value is named in messages.
pub open spec fn kind_label(k: ValueKind) -> Seq<char> {
    match k {
        ValueKind::Primitive => "primitive"@,
        ValueKind::Optional => "option"@,
        ValueKind::Sequence => "sequence"@,
        ValueKind::Tuple => "tuple"@,
        ValueKind::Mapping => "map"@,
        ValueKind::NewTypeStruct => "newtype struct"@,
        ValueKind::TupleStruct => "tuple struct"@,
        ValueKind::NamedStruct => "named struct"@,
        ValueKind::Enumeration => "enum"@,
    }
}

/// How a traversal is named in messages.
pub open spec fn traversal_label(t: Traversal) -> Seq<char> {
    match t {
        Traversal::Encoding => "encoding"@,
        Traversal::Decoding => "decoding"@,
    }
}

/// The description of a kind mismatch.
pub open spec fn kind_mismatch_text(m: KindMismatch) -> Seq<char> {
    "unexpected "@ + kind_label(m.offered) + " during "@ + traversal_label(m.during)
}

/// Offer a value of kind `offered` to a visitor that takes `expected`,
/// while encoding or decoding: it is taken when the kinds agree and refused
/// otherwise.
pub fn accept_kind(expected: ValueKind, offered: ValueKind, during: Traversal) -> (r: Result<
    (),
    KindMismatch,
>)
    ensures
        r is Ok <==> expected == offered,
        r is Err ==> r == Err::<(), KindMismatch>(KindMismatch { offered, during }),
{
    if expected == offered {
        Ok(())
    } else {
        Err(KindMismatch { offered, during })
    }
}

/// The name of a kind of value in messages.
fn kind_name(k: ValueKind) -> (r: &'static str)
    ensures
        r@ == kind_label(k),
{
    let r = match k {
        ValueKind::Primitive => "primitive",
        ValueKind::Optional => "option",
        ValueKind::Sequence => "sequence",
        ValueKind::Tuple => "tuple",
        ValueKind::Mapping => "map",
        ValueKind::NewTypeStruct => "newtype struct",
        ValueKind::TupleStruct => "tuple struct",
        ValueKind::NamedStruct => "named struct",
        ValueKind::Enumeration => "enum",
    };
    proof {
        reveal_strlit("primitive");
        reveal_strlit("option");
        reveal_strlit("sequence");
        reveal_strlit("tuple");
        reveal_strlit("map");
        reveal_strlit("newtype struct");
        reveal_strlit("tuple struct");
        reveal_strlit("named struct");
        reveal_strlit("enum");
    }
    r
}

impl KindMismatch {
    /// Describe the mismatch in words.
    pub fn message(&self) -> (r: String)
        ensures
            r@ == kind_mismatch_text(*self),
    {
        let mut text = String::from_str("unexpected ");
        text.append(kind_name(self.offered));
        text.append(" during ");
        match self.during {
            Traversal::Encoding => text.append("encoding"),
            Traversal::Decoding => text.append("decoding"),
        }
        text
    }
}

} // verus!
