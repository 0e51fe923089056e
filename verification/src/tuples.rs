//! The schemas of tuples: a tuple of up to 32 elements is described by the
//! schemas of its elements, in order.

use crate::schema::Schema;
use crate::typeshape::TypeShape;
use vstd::prelude::*;

verus! {

impl<T0: TypeShape> TypeShape for (T0,) {
    open spec fn is_shape(s: Schema) -> bool {
        &&& s matches Schema::Tuple(elems)
        &&& elems@.len() == 1
        &&& T0::is_shape(elems@[0])
    }

    fn schema() -> (r: Schema) {
        Schema::Tuple(vec![T0::schema()])
    }
}

impl<T0: TypeShape, T1: TypeShape> TypeShape for (T0, T1) {
    open spec fn is_shape(s: Schema) -> bool {
        &&& s matches Schema::Tuple(elems)
        &&& elems@.len() == 2
        &&& T0::is_shape(elems@[0])
        &&& T1::is_shape(elems@[1])
    }

    fn schema() -> (r: Schema) {
        Schema::Tuple(vec![T0::schema(), T1::schema()])
    }
}

impl<T0: TypeShape, T1: TypeShape, T2: TypeShape> TypeShape for (T0, T1, T2) {
    open spec fn is_shape(s: Schema) -> bool {
        &&& s matches Schema::Tuple(elems)
        &&& elems@.len() == 3
        &&& T0::is_shape(elems@[0])
        &&& T1::is_shape(elems@[1])
        &&& T2::is_shape(elems@[2])
    }

    fn schema() -> (r: Schema) {
        Schema::Tuple(vec![T0::schema(), T1::schema(), T2::schema()])
    }
}

impl<T0: TypeShape, T1: TypeShape, T2: TypeShape, T3: TypeShape> TypeShape for (T0, T1, T2, T3) {
    open spec fn is_shape(s: Schema) -> bool {
        &&& s matches Schema::Tuple(elems)
        &&& elems@.len() == 4
        &&& T0::is_shape(elems@[0])
        &&& T1::is_shape(elems@[1])
        &&& T2::is_shape(elems@[2])
        &&& T3::is_shape(elems@[3])
    }

    fn schema() -> (r: Schema) {
        Schema::Tuple(
            vec![
                T0::schema(), T1::schema(), T2::schema(), T3::schema(),
            ],
        )
    }
}

impl<
    T0: TypeShape, T1: TypeShape, T2: TypeShape, T3: TypeShape, T4: TypeShape,
> TypeShape for (T0, T1, T2, T3, T4) {
    open spec fn is_shape(s: Schema) -> bool {
        &&& s matches Schema::Tuple(elems)
        &&& elems@.len() == 5
        &&& T0::is_shape(elems@[0])
        &&& T1::is_shape(elems@[1])
        &&& T2::is_shape(elems@[2])
        &&& T3::is_shape(elems@[3])
        &&& T4::is_shape(elems@[4])
    }

    fn schema() -> (r: Schema) {
        Schema::Tuple(
            vec![
                T0::schema(), T1::schema(), T2::schema(), T3::schema(),
                T4::schema(),
            ],
        )
    }
}

impl<
    T0: TypeShape, T1: TypeShape, T2: TypeShape, T3: TypeShape, T4: TypeShape, T5: TypeShape,
> TypeShape for (T0, T1, T2, T3, T4, T5) {
    open spec fn is_shape(s: Schema) -> bool {
        &&& s matches Schema::Tuple(elems)
        &&& elems@.len() == 6
        &&& T0::is_shape(elems@[0])
        &&& T1::is_shape(elems@[1])
        &&& T2::is_shape(elems@[2])
        &&& T3::is_shape(elems@[3])
        &&& T4::is_shape(elems@[4])
        &&& T5::is_shape(elems@[5])
    }

    fn schema() -> (r: Schema) {
        Schema::Tuple(
            vec![
                T0::schema(), T1::schema(), T2::schema(), T3::schema(),
                T4::schema(), T5::schema(),
            ],
        )
    }
}

impl<
    T0: TypeShape, T1: TypeShape, T2: TypeShape, T3: TypeShape, T4: TypeShape, T5: TypeShape,
    T6: TypeShape,
> TypeShape for (T0, T1, T2, T3, T4, T5, T6) {
    open spec fn is_shape(s: Schema) -> bool {
        &&& s matches Schema::Tuple(elems)
        &&& elems@.len() == 7
        &&& T0::is_shape(elems@[0])
        &&& T1::is_shape(elems@[1])
        &&& T2::is_shape(elems@[2])
        &&& T3::is_shape(elems@[3])
        &&& T4::is_shape(elems@[4])
        &&& T5::is_shape(elems@[5])
        &&& T6::is_shape(elems@[6])
    }

    fn schema() -> (r: Schema) {
        Schema::Tuple(
            vec![
                T0::schema(), T1::schema(), T2::schema(), T3::schema(),
                T4::schema(), T5::schema(), T6::schema(),
            ],
        )
    }
}

impl<
    T0: TypeShape, T1: TypeShape, T2: TypeShape, T3: TypeShape, T4: TypeShape, T5: TypeShape,
    T6: TypeShape, T7: TypeShape,
> TypeShape for (T0, T1, T2, T3, T4, T5, T6, T7) {
    open spec fn is_shape(s: Schema) -> bool {
        &&& s matches Schema::Tuple(elems)
        &&& elems@.len() == 8
        &&& T0::is_shape(elems@[0])
        &&& T1::is_shape(elems@[1])
        &&& T2::is_shape(elems@[2])
        &&& T3::is_shape(elems@[3])
        &&& T4::is_shape(elems@[4])
        &&& T5::is_shape(elems@[5])
        &&& T6::is_shape(elems@[6])
        &&& T7::is_shape(elems@[7])
    }

    fn schema() -> (r: Schema) {
        Schema::Tuple(
            vec![
                T0::schema(), T1::schema(), T2::schema(), T3::schema(),
                T4::schema(), T5::schema(), T6::schema(), T7::schema(),
            ],
        )
    }
}

impl<
    T0: TypeShape, T1: TypeShape, T2: TypeShape, T3: TypeShape, T4: TypeShape, T5: TypeShape,
    T6: TypeShape, T7: TypeShape, T8: TypeShape,
> TypeShape for (T0, T1, T2, T3, T4, T5, T6, T7, T8) {
    open spec fn is_shape(s: Schema) -> bool {
        &&& s matches Schema::Tuple(elems)
        &&& elems@.len() == 9
        &&& T0::is_shape(elems@[0])
        &&& T1::is_shape(elems@[1])
        &&& T2::is_shape(elems@[2])
        &&& T3::is_shape(elems@[3])
        &&& T4::is_shape(elems@[4])
        &&& T5::is_shape(elems@[5])
        &&& T6::is_shape(elems@[6])
        &&& T7::is_shape(elems@[7])
        &&& T8::is_shape(elems@[8])
    }

    fn schema() -> (r: Schema) {
        Schema::Tuple(
            vec![
                T0::schema(), T1::schema(), T2::schema(), T3::schema(),
                T4::schema(), T5::schema(), T6::schema(), T7::schema(),
                T8::schema(),
            ],
        )
    }
}

impl<
    T0: TypeShape, T1: TypeShape, T2: TypeShape, T3: TypeShape, T4: TypeShape, T5: TypeShape,
    T6: TypeShape, T7: TypeShape, T8: TypeShape, T9: TypeShape,
> TypeShape for (T0, T1, T2, T3, T4, T5, T6, T7, T8, T9) {
    open spec fn is_shape(s: Schema) -> bool {
        &&& s matches Schema::Tuple(elems)
        &&& elems@.len() == 10
        &&& T0::is_shape(elems@[0])
        &&& T1::is_shape(elems@[1])
        &&& T2::is_shape(elems@[2])
        &&& T3::is_shape(elems@[3])
        &&& T4::is_shape(elems@[4])
        &&& T5::is_shape(elems@[5])
        &&& T6::is_shape(elems@[6])
        &&& T7::is_shape(elems@[7])
        &&& T8::is_shape(elems@[8])
        &&& T9::is_shape(elems@[9])
    }

    fn schema() -> (r: Schema) {
        Schema::Tuple(
            vec![
                T0::schema(), T1::schema(), T2::schema(), T3::schema(),
                T4::schema(), T5::schema(), T6::schema(), T7::schema(),
                T8::schema(), T9::schema(),
            ],
        )
    }
}

impl<
    T0: TypeShape, T1: TypeShape, T2: TypeShape, T3: TypeShape, T4: TypeShape, T5: TypeShape,
    T6: TypeShape, T7: TypeShape, T8: TypeShape, T9: TypeShape, T10: TypeShape,
> TypeShape for (
    T0, T1, T2, T3, T4, T5, T6, T7, T8, T9, T10,
) {
    open spec fn is_shape(s: Schema) -> bool {
        &&& s matches Schema::Tuple(elems)
        &&& elems@.len() == 11
        &&& T0::is_shape(elems@[0])
        &&& T1::is_shape(elems@[1])
        &&& T2::is_shape(elems@[2])
        &&& T3::is_shape(elems@[3])
        &&& T4::is_shape(elems@[4])
        &&& T5::is_shape(elems@[5])
        &&& T6::is_shape(elems@[6])
        &&& T7::is_shape(elems@[7])
        &&& T8::is_shape(elems@[8])
        &&& T9::is_shape(elems@[9])
        &&& T10::is_shape(elems@[10])
    }

    fn schema() -> (r: Schema) {
        Schema::Tuple(
            vec![
                T0::schema(), T1::schema(), T2::schema(), T3::schema(),
                T4::schema(), T5::schema(), T6::schema(), T7::schema(),
                T8::schema(), T9::schema(), T10::schema(),
            ],
        )
    }
}

impl<
    T0: TypeShape, T1: TypeShape, T2: TypeShape, T3: TypeShape, T4: TypeShape, T5: TypeShape,
    T6: TypeShape, T7: TypeShape, T8: TypeShape, T9: TypeShape, T10: TypeShape, T11: TypeShape,
> TypeShape for (
    T0, T1, T2, T3, T4, T5, T6, T7, T8, T9, T10, T11,
) {
    open spec fn is_shape(s: Schema) -> bool {
        &&& s matches Schema::Tuple(elems)
        &&& elems@.len() == 12
        &&& T0::is_shape(elems@[0])
        &&& T1::is_shape(elems@[1])
        &&& T2::is_shape(elems@[2])
        &&& T3::is_shape(elems@[3])
        &&& T4::is_shape(elems@[4])
        &&& T5::is_shape(elems@[5])
        &&& T6::is_shape(elems@[6])
        &&& T7::is_shape(elems@[7])
        &&& T8::is_shape(elems@[8])
        &&& T9::is_shape(elems@[9])
        &&& T10::is_shape(elems@[10])
        &&& T11::is_shape(elems@[11])
    }

    fn schema() -> (r: Schema) {
        Schema::Tuple(
            vec![
                T0::schema(), T1::schema(), T2::schema(), T3::schema(),
                T4::schema(), T5::schema(), T6::schema(), T7::schema(),
                T8::schema(), T9::schema(), T10::schema(), T11::schema(),
            ],
        )
    }
}

impl<
    T0: TypeShape, T1: TypeShape, T2: TypeShape, T3: TypeShape, T4: TypeShape, T5: TypeShape,
    T6: TypeShape, T7: TypeShape, T8: TypeShape, T9: TypeShape, T10: TypeShape, T11: TypeShape,
    T12: TypeShape,
> TypeShape for (
    T0, T1, T2, T3, T4, T5, T6, T7, T8, T9, T10, T11, T12,
) {
    open spec fn is_shape(s: Schema) -> bool {
        &&& s matches Schema::Tuple(elems)
        &&& elems@.len() == 13
        &&& T0::is_shape(elems@[0])
        &&& T1::is_shape(elems@[1])
        &&& T2::is_shape(elems@[2])
        &&& T3::is_shape(elems@[3])
        &&& T4::is_shape(elems@[4])
        &&& T5::is_shape(elems@[5])
        &&& T6::is_shape(elems@[6])
        &&& T7::is_shape(elems@[7])
        &&& T8::is_shape(elems@[8])
        &&& T9::is_shape(elems@[9])
        &&& T10::is_shape(elems@[10])
        &&& T11::is_shape(elems@[11])
        &&& T12::is_shape(elems@[12])
    }

    fn schema() -> (r: Schema) {
        Schema::Tuple(
            vec![
                T0::schema(), T1::schema(), T2::schema(), T3::schema(),
                T4::schema(), T5::schema(), T6::schema(), T7::schema(),
                T8::schema(), T9::schema(), T10::schema(), T11::schema(),
                T12::schema(),
            ],
        )
    }
}

impl<
    T0: TypeShape, T1: TypeShape, T2: TypeShape, T3: TypeShape, T4: TypeShape, T5: TypeShape,
    T6: TypeShape, T7: TypeShape, T8: TypeShape, T9: TypeShape, T10: TypeShape, T11: TypeShape,
    T12: TypeShape, T13: TypeShape,
> TypeShape for (
    T0, T1, T2, T3, T4, T5, T6, T7, T8, T9, T10, T11, T12, T13,
) {
    open spec fn is_shape(s: Schema) -> bool {
        &&& s matches Schema::Tuple(elems)
        &&& elems@.len() == 14
        &&& T0::is_shape(elems@[0])
        &&& T1::is_shape(elems@[1])
        &&& T2::is_shape(elems@[2])
        &&& T3::is_shape(elems@[3])
        &&& T4::is_shape(elems@[4])
        &&& T5::is_shape(elems@[5])
        &&& T6::is_shape(elems@[6])
        &&& T7::is_shape(elems@[7])
        &&& T8::is_shape(elems@[8])
        &&& T9::is_shape(elems@[9])
        &&& T10::is_shape(elems@[10])
        &&& T11::is_shape(elems@[11])
        &&& T12::is_shape(elems@[12])
        &&& T13::is_shape(elems@[13])
    }

    fn schema() -> (r: Schema) {
        Schema::Tuple(
            vec![
                T0::schema(), T1::schema(), T2::schema(), T3::schema(),
                T4::schema(), T5::schema(), T6::schema(), T7::schema(),
                T8::schema(), T9::schema(), T10::schema(), T11::schema(),
                T12::schema(), T13::schema(),
            ],
        )
    }
}

impl<
    T0: TypeShape, T1: TypeShape, T2: TypeShape, T3: TypeShape, T4: TypeShape, T5: TypeShape,
    T6: TypeShape, T7: TypeShape, T8: TypeShape, T9: TypeShape, T10: TypeShape, T11: TypeShape,
    T12: TypeShape, T13: TypeShape, T14: TypeShape,
> TypeShape for (
    T0, T1, T2, T3, T4, T5, T6, T7, T8, T9, T10, T11, T12, T13, T14,
) {
    open spec fn is_shape(s: Schema) -> bool {
        &&& s matches Schema::Tuple(elems)
        &&& elems@.len() == 15
        &&& T0::is_shape(elems@[0])
        &&& T1::is_shape(elems@[1])
        &&& T2::is_shape(elems@[2])
        &&& T3::is_shape(elems@[3])
        &&& T4::is_shape(elems@[4])
        &&& T5::is_shape(elems@[5])
        &&& T6::is_shape(elems@[6])
        &&& T7::is_shape(elems@[7])
        &&& T8::is_shape(elems@[8])
        &&& T9::is_shape(elems@[9])
        &&& T10::is_shape(elems@[10])
        &&& T11::is_shape(elems@[11])
        &&& T12::is_shape(elems@[12])
        &&& T13::is_shape(elems@[13])
        &&& T14::is_shape(elems@[14])
    }

    fn schema() -> (r: Schema) {
        Schema::Tuple(
            vec![
                T0::schema(), T1::schema(), T2::schema(), T3::schema(),
                T4::schema(), T5::schema(), T6::schema(), T7::schema(),
                T8::schema(), T9::schema(), T10::schema(), T11::schema(),
                T12::schema(), T13::schema(), T14::schema(),
            ],
        )
    }
}

impl<
    T0: TypeShape, T1: TypeShape, T2: TypeShape, T3: TypeShape, T4: TypeShape, T5: TypeShape,
    T6: TypeShape, T7: TypeShape, T8: TypeShape, T9: TypeShape, T10: TypeShape, T11: TypeShape,
    T12: TypeShape, T13: TypeShape, T14: TypeShape, T15: TypeShape,
> TypeShape for (
    T0, T1, T2, T3, T4, T5, T6, T7, T8, T9, T10, T11, T12, T13, T14, T15,
) {
    open spec fn is_shape(s: Schema) -> bool {
        &&& s matches Schema::Tuple(elems)
        &&& elems@.len() == 16
        &&& T0::is_shape(elems@[0])
        &&& T1::is_shape(elems@[1])
        &&& T2::is_shape(elems@[2])
        &&& T3::is_shape(elems@[3])
        &&& T4::is_shape(elems@[4])
        &&& T5::is_shape(elems@[5])
        &&& T6::is_shape(elems@[6])
        &&& T7::is_shape(elems@[7])
        &&& T8::is_shape(elems@[8])
        &&& T9::is_shape(elems@[9])
        &&& T10::is_shape(elems@[10])
        &&& T11::is_shape(elems@[11])
        &&& T12::is_shape(elems@[12])
        &&& T13::is_shape(elems@[13])
        &&& T14::is_shape(elems@[14])
        &&& T15::is_shape(elems@[15])
    }

    fn schema() -> (r: Schema) {
        Schema::Tuple(
            vec![
                T0::schema(), T1::schema(), T2::schema(), T3::schema(),
                T4::schema(), T5::schema(), T6::schema(), T7::schema(),
                T8::schema(), T9::schema(), T10::schema(), T11::schema(),
                T12::schema(), T13::schema(), T14::schema(), T15::schema(),
            ],
        )
    }
}

impl<
    T0: TypeShape, T1: TypeShape, T2: TypeShape, T3: TypeShape, T4: TypeShape, T5: TypeShape,
    T6: TypeShape, T7: TypeShape, T8: TypeShape, T9: TypeShape, T10: TypeShape, T11: TypeShape,
    T12: TypeShape, T13: TypeShape, T14: TypeShape, T15: TypeShape, T16: TypeShape,
> TypeShape for (
    T0, T1, T2, T3, T4, T5, T6, T7, T8, T9, T10, T11, T12, T13, T14, T15,
    T16,
) {
    open spec fn is_shape(s: Schema) -> bool {
        &&& s matches Schema::Tuple(elems)
        &&& elems@.len() == 17
        &&& T0::is_shape(elems@[0])
        &&& T1::is_shape(elems@[1])
        &&& T2::is_shape(elems@[2])
        &&& T3::is_shape(elems@[3])
        &&& T4::is_shape(elems@[4])
        &&& T5::is_shape(elems@[5])
        &&& T6::is_shape(elems@[6])
        &&& T7::is_shape(elems@[7])
        &&& T8::is_shape(elems@[8])
        &&& T9::is_shape(elems@[9])
        &&& T10::is_shape(elems@[10])
        &&& T11::is_shape(elems@[11])
        &&& T12::is_shape(elems@[12])
        &&& T13::is_shape(elems@[13])
        &&& T14::is_shape(elems@[14])
        &&& T15::is_shape(elems@[15])
        &&& T16::is_shape(elems@[16])
    }

    fn schema() -> (r: Schema) {
        Schema::Tuple(
            vec![
                T0::schema(), T1::schema(), T2::schema(), T3::schema(),
                T4::schema(), T5::schema(), T6::schema(), T7::schema(),
                T8::schema(), T9::schema(), T10::schema(), T11::schema(),
                T12::schema(), T13::schema(), T14::schema(), T15::schema(),
                T16::schema(),
            ],
        )
    }
}

impl<
    T0: TypeShape, T1: TypeShape, T2: TypeShape, T3: TypeShape, T4: TypeShape, T5: TypeShape,
    T6: TypeShape, T7: TypeShape, T8: TypeShape, T9: TypeShape, T10: TypeShape, T11: TypeShape,
    T12: TypeShape, T13: TypeShape, T14: TypeShape, T15: TypeShape, T16: TypeShape, T17: TypeShape,
> TypeShape for (
    T0, T1, T2, T3, T4, T5, T6, T7, T8, T9, T10, T11, T12, T13, T14, T15,
    T16, T17,
) {
    open spec fn is_shape(s: Schema) -> bool {
        &&& s matches Schema::Tuple(elems)
        &&& elems@.len() == 18
        &&& T0::is_shape(elems@[0])
        &&& T1::is_shape(elems@[1])
        &&& T2::is_shape(elems@[2])
        &&& T3::is_shape(elems@[3])
        &&& T4::is_shape(elems@[4])
        &&& T5::is_shape(elems@[5])
        &&& T6::is_shape(elems@[6])
        &&& T7::is_shape(elems@[7])
        &&& T8::is_shape(elems@[8])
        &&& T9::is_shape(elems@[9])
        &&& T10::is_shape(elems@[10])
        &&& T11::is_shape(elems@[11])
        &&& T12::is_shape(elems@[12])
        &&& T13::is_shape(elems@[13])
        &&& T14::is_shape(elems@[14])
        &&& T15::is_shape(elems@[15])
        &&& T16::is_shape(elems@[16])
        &&& T17::is_shape(elems@[17])
    }

    fn schema() -> (r: Schema) {
        Schema::Tuple(
            vec![
                T0::schema(), T1::schema(), T2::schema(), T3::schema(),
                T4::schema(), T5::schema(), T6::schema(), T7::schema(),
                T8::schema(), T9::schema(), T10::schema(), T11::schema(),
                T12::schema(), T13::schema(), T14::schema(), T15::schema(),
                T16::schema(), T17::schema(),
            ],
        )
    }
}

impl<
    T0: TypeShape, T1: TypeShape, T2: TypeShape, T3: TypeShape, T4: TypeShape, T5: TypeShape,
    T6: TypeShape, T7: TypeShape, T8: TypeShape, T9: TypeShape, T10: TypeShape, T11: TypeShape,
    T12: TypeShape, T13: TypeShape, T14: TypeShape, T15: TypeShape, T16: TypeShape, T17: TypeShape,
    T18: TypeShape,
> TypeShape for (
    T0, T1, T2, T3, T4, T5, T6, T7, T8, T9, T10, T11, T12, T13, T14, T15,
    T16, T17, T18,
) {
    open spec fn is_shape(s: Schema) -> bool {
        &&& s matches Schema::Tuple(elems)
        &&& elems@.len() == 19
        &&& T0::is_shape(elems@[0])
        &&& T1::is_shape(elems@[1])
        &&& T2::is_shape(elems@[2])
        &&& T3::is_shape(elems@[3])
        &&& T4::is_shape(elems@[4])
        &&& T5::is_shape(elems@[5])
        &&& T6::is_shape(elems@[6])
        &&& T7::is_shape(elems@[7])
        &&& T8::is_shape(elems@[8])
        &&& T9::is_shape(elems@[9])
        &&& T10::is_shape(elems@[10])
        &&& T11::is_shape(elems@[11])
        &&& T12::is_shape(elems@[12])
        &&& T13::is_shape(elems@[13])
        &&& T14::is_shape(elems@[14])
        &&& T15::is_shape(elems@[15])
        &&& T16::is_shape(elems@[16])
        &&& T17::is_shape(elems@[17])
        &&& T18::is_shape(elems@[18])
    }

    fn schema() -> (r: Schema) {
        Schema::Tuple(
            vec![
                T0::schema(), T1::schema(), T2::schema(), T3::schema(),
                T4::schema(), T5::schema(), T6::schema(), T7::schema(),
                T8::schema(), T9::schema(), T10::schema(), T11::schema(),
                T12::schema(), T13::schema(), T14::schema(), T15::schema(),
                T16::schema(), T17::schema(), T18::schema(),
            ],
        )
    }
}

impl<
    T0: TypeShape, T1: TypeShape, T2: TypeShape, T3: TypeShape, T4: TypeShape, T5: TypeShape,
    T6: TypeShape, T7: TypeShape, T8: TypeShape, T9: TypeShape, T10: TypeShape, T11: TypeShape,
    T12: TypeShape, T13: TypeShape, T14: TypeShape, T15: TypeShape, T16: TypeShape, T17: TypeShape,
    T18: TypeShape, T19: TypeShape,
> TypeShape for (
    T0, T1, T2, T3, T4, T5, T6, T7, T8, T9, T10, T11, T12, T13, T14, T15,
    T16, T17, T18, T19,
) {
    open spec fn is_shape(s: Schema) -> bool {
        &&& s matches Schema::Tuple(elems)
        &&& elems@.len() == 20
        &&& T0::is_shape(elems@[0])
        &&& T1::is_shape(elems@[1])
        &&& T2::is_shape(elems@[2])
        &&& T3::is_shape(elems@[3])
        &&& T4::is_shape(elems@[4])
        &&& T5::is_shape(elems@[5])
        &&& T6::is_shape(elems@[6])
        &&& T7::is_shape(elems@[7])
        &&& T8::is_shape(elems@[8])
        &&& T9::is_shape(elems@[9])
        &&& T10::is_shape(elems@[10])
        &&& T11::is_shape(elems@[11])
        &&& T12::is_shape(elems@[12])
        &&& T13::is_shape(elems@[13])
        &&& T14::is_shape(elems@[14])
        &&& T15::is_shape(elems@[15])
        &&& T16::is_shape(elems@[16])
        &&& T17::is_shape(elems@[17])
        &&& T18::is_shape(elems@[18])
        &&& T19::is_shape(elems@[19])
    }

    fn schema() -> (r: Schema) {
        Schema::Tuple(
            vec![
                T0::schema(), T1::schema(), T2::schema(), T3::schema(),
                T4::schema(), T5::schema(), T6::schema(), T7::schema(),
                T8::schema(), T9::schema(), T10::schema(), T11::schema(),
                T12::schema(), T13::schema(), T14::schema(), T15::schema(),
                T16::schema(), T17::schema(), T18::schema(), T19::schema(),
            ],
        )
    }
}

impl<
    T0: TypeShape, T1: TypeShape, T2: TypeShape, T3: TypeShape, T4: TypeShape, T5: TypeShape,
    T6: TypeShape, T7: TypeShape, T8: TypeShape, T9: TypeShape, T10: TypeShape, T11: TypeShape,
    T12: TypeShape, T13: TypeShape, T14: TypeShape, T15: TypeShape, T16: TypeShape, T17: TypeShape,
    T18: TypeShape, T19: TypeShape, T20: TypeShape,
> TypeShape for (
    T0, T1, T2, T3, T4, T5, T6, T7, T8, T9, T10, T11, T12, T13, T14, T15,
    T16, T17, T18, T19, T20,
) {
    open spec fn is_shape(s: Schema) -> bool {
        &&& s matches Schema::Tuple(elems)
        &&& elems@.len() == 21
        &&& T0::is_shape(elems@[0])
        &&& T1::is_shape(elems@[1])
        &&& T2::is_shape(elems@[2])
        &&& T3::is_shape(elems@[3])
        &&& T4::is_shape(elems@[4])
        &&& T5::is_shape(elems@[5])
        &&& T6::is_shape(elems@[6])
        &&& T7::is_shape(elems@[7])
        &&& T8::is_shape(elems@[8])
        &&& T9::is_shape(elems@[9])
        &&& T10::is_shape(elems@[10])
        &&& T11::is_shape(elems@[11])
        &&& T12::is_shape(elems@[12])
        &&& T13::is_shape(elems@[13])
        &&& T14::is_shape(elems@[14])
        &&& T15::is_shape(elems@[15])
        &&& T16::is_shape(elems@[16])
        &&& T17::is_shape(elems@[17])
        &&& T18::is_shape(elems@[18])
        &&& T19::is_shape(elems@[19])
        &&& T20::is_shape(elems@[20])
    }

    fn schema() -> (r: Schema) {
        Schema::Tuple(
            vec![
                T0::schema(), T1::schema(), T2::schema(), T3::schema(),
                T4::schema(), T5::schema(), T6::schema(), T7::schema(),
                T8::schema(), T9::schema(), T10::schema(), T11::schema(),
                T12::schema(), T13::schema(), T14::schema(), T15::schema(),
                T16::schema(), T17::schema(), T18::schema(), T19::schema(),
                T20::schema(),
            ],
        )
    }
}

impl<
    T0: TypeShape, T1: TypeShape, T2: TypeShape, T3: TypeShape, T4: TypeShape, T5: TypeShape,
    T6: TypeShape, T7: TypeShape, T8: TypeShape, T9: TypeShape, T10: TypeShape, T11: TypeShape,
    T12: TypeShape, T13: TypeShape, T14: TypeShape, T15: TypeShape, T16: TypeShape, T17: TypeShape,
    T18: TypeShape, T19: TypeShape, T20: TypeShape, T21: TypeShape,
> TypeShape for (
    T0, T1, T2, T3, T4, T5, T6, T7, T8, T9, T10, T11, T12, T13, T14, T15,
    T16, T17, T18, T19, T20, T21,
) {
    open spec fn is_shape(s: Schema) -> bool {
        &&& s matches Schema::Tuple(elems)
        &&& elems@.len() == 22
        &&& T0::is_shape(elems@[0])
        &&& T1::is_shape(elems@[1])
        &&& T2::is_shape(elems@[2])
        &&& T3::is_shape(elems@[3])
        &&& T4::is_shape(elems@[4])
        &&& T5::is_shape(elems@[5])
        &&& T6::is_shape(elems@[6])
        &&& T7::is_shape(elems@[7])
        &&& T8::is_shape(elems@[8])
        &&& T9::is_shape(elems@[9])
        &&& T10::is_shape(elems@[10])
        &&& T11::is_shape(elems@[11])
        &&& T12::is_shape(elems@[12])
        &&& T13::is_shape(elems@[13])
        &&& T14::is_shape(elems@[14])
        &&& T15::is_shape(elems@[15])
        &&& T16::is_shape(elems@[16])
        &&& T17::is_shape(elems@[17])
        &&& T18::is_shape(elems@[18])
        &&& T19::is_shape(elems@[19])
        &&& T20::is_shape(elems@[20])
        &&& T21::is_shape(elems@[21])
    }

    fn schema() -> (r: Schema) {
        Schema::Tuple(
            vec![
                T0::schema(), T1::schema(), T2::schema(), T3::schema(),
                T4::schema(), T5::schema(), T6::schema(), T7::schema(),
                T8::schema(), T9::schema(), T10::schema(), T11::schema(),
                T12::schema(), T13::schema(), T14::schema(), T15::schema(),
                T16::schema(), T17::schema(), T18::schema(), T19::schema(),
                T20::schema(), T21::schema(),
            ],
        )
    }
}

impl<
    T0: TypeShape, T1: TypeShape, T2: TypeShape, T3: TypeShape, T4: TypeShape, T5: TypeShape,
    T6: TypeShape, T7: TypeShape, T8: TypeShape, T9: TypeShape, T10: TypeShape, T11: TypeShape,
    T12: TypeShape, T13: TypeShape, T14: TypeShape, T15: TypeShape, T16: TypeShape, T17: TypeShape,
    T18: TypeShape, T19: TypeShape, T20: TypeShape, T21: TypeShape, T22: TypeShape,
> TypeShape for (
    T0, T1, T2, T3, T4, T5, T6, T7, T8, T9, T10, T11, T12, T13, T14, T15,
    T16, T17, T18, T19, T20, T21, T22,
) {
    open spec fn is_shape(s: Schema) -> bool {
        &&& s matches Schema::Tuple(elems)
        &&& elems@.len() == 23
        &&& T0::is_shape(elems@[0])
        &&& T1::is_shape(elems@[1])
        &&& T2::is_shape(elems@[2])
        &&& T3::is_shape(elems@[3])
        &&& T4::is_shape(elems@[4])
        &&& T5::is_shape(elems@[5])
        &&& T6::is_shape(elems@[6])
        &&& T7::is_shape(elems@[7])
        &&& T8::is_shape(elems@[8])
        &&& T9::is_shape(elems@[9])
        &&& T10::is_shape(elems@[10])
        &&& T11::is_shape(elems@[11])
        &&& T12::is_shape(elems@[12])
        &&& T13::is_shape(elems@[13])
        &&& T14::is_shape(elems@[14])
        &&& T15::is_shape(elems@[15])
        &&& T16::is_shape(elems@[16])
        &&& T17::is_shape(elems@[17])
        &&& T18::is_shape(elems@[18])
        &&& T19::is_shape(elems@[19])
        &&& T20::is_shape(elems@[20])
        &&& T21::is_shape(elems@[21])
        &&& T22::is_shape(elems@[22])
    }

    fn schema() -> (r: Schema) {
        Schema::Tuple(
            vec![
                T0::schema(), T1::schema(), T2::schema(), T3::schema(),
                T4::schema(), T5::schema(), T6::schema(), T7::schema(),
                T8::schema(), T9::schema(), T10::schema(), T11::schema(),
                T12::schema(), T13::schema(), T14::schema(), T15::schema(),
                T16::schema(), T17::schema(), T18::schema(), T19::schema(),
                T20::schema(), T21::schema(), T22::schema(),
            ],
        )
    }
}

impl<
    T0: TypeShape, T1: TypeShape, T2: TypeShape, T3: TypeShape, T4: TypeShape, T5: TypeShape,
    T6: TypeShape, T7: TypeShape, T8: TypeShape, T9: TypeShape, T10: TypeShape, T11: TypeShape,
    T12: TypeShape, T13: TypeShape, T14: TypeShape, T15: TypeShape, T16: TypeShape, T17: TypeShape,
    T18: TypeShape, T19: TypeShape, T20: TypeShape, T21: TypeShape, T22: TypeShape, T23: TypeShape,
> TypeShape for (
    T0, T1, T2, T3, T4, T5, T6, T7, T8, T9, T10, T11, T12, T13, T14, T15,
    T16, T17, T18, T19, T20, T21, T22, T23,
) {
    open spec fn is_shape(s: Schema) -> bool {
        &&& s matches Schema::Tuple(elems)
        &&& elems@.len() == 24
        &&& T0::is_shape(elems@[0])
        &&& T1::is_shape(elems@[1])
        &&& T2::is_shape(elems@[2])
        &&& T3::is_shape(elems@[3])
        &&& T4::is_shape(elems@[4])
        &&& T5::is_shape(elems@[5])
        &&& T6::is_shape(elems@[6])
        &&& T7::is_shape(elems@[7])
        &&& T8::is_shape(elems@[8])
        &&& T9::is_shape(elems@[9])
        &&& T10::is_shape(elems@[10])
        &&& T11::is_shape(elems@[11])
        &&& T12::is_shape(elems@[12])
        &&& T13::is_shape(elems@[13])
        &&& T14::is_shape(elems@[14])
        &&& T15::is_shape(elems@[15])
        &&& T16::is_shape(elems@[16])
        &&& T17::is_shape(elems@[17])
        &&& T18::is_shape(elems@[18])
        &&& T19::is_shape(elems@[19])
        &&& T20::is_shape(elems@[20])
        &&& T21::is_shape(elems@[21])
        &&& T22::is_shape(elems@[22])
        &&& T23::is_shape(elems@[23])
    }

    fn schema() -> (r: Schema) {
        Schema::Tuple(
            vec![
                T0::schema(), T1::schema(), T2::schema(), T3::schema(),
                T4::schema(), T5::schema(), T6::schema(), T7::schema(),
                T8::schema(), T9::schema(), T10::schema(), T11::schema(),
                T12::schema(), T13::schema(), T14::schema(), T15::schema(),
                T16::schema(), T17::schema(), T18::schema(), T19::schema(),
                T20::schema(), T21::schema(), T22::schema(), T23::schema(),
            ],
        )
    }
}

impl<
    T0: TypeShape, T1: TypeShape, T2: TypeShape, T3: TypeShape, T4: TypeShape, T5: TypeShape,
    T6: TypeShape, T7: TypeShape, T8: TypeShape, T9: TypeShape, T10: TypeShape, T11: TypeShape,
    T12: TypeShape, T13: TypeShape, T14: TypeShape, T15: TypeShape, T16: TypeShape, T17: TypeShape,
    T18: TypeShape, T19: TypeShape, T20: TypeShape, T21: TypeShape, T22: TypeShape, T23: TypeShape,
    T24: TypeShape,
> TypeShape for (
    T0, T1, T2, T3, T4, T5, T6, T7, T8, T9, T10, T11, T12, T13, T14, T15,
    T16, T17, T18, T19, T20, T21, T22, T23, T24,
) {
    open spec fn is_shape(s: Schema) -> bool {
        &&& s matches Schema::Tuple(elems)
        &&& elems@.len() == 25
        &&& T0::is_shape(elems@[0])
        &&& T1::is_shape(elems@[1])
        &&& T2::is_shape(elems@[2])
        &&& T3::is_shape(elems@[3])
        &&& T4::is_shape(elems@[4])
        &&& T5::is_shape(elems@[5])
        &&& T6::is_shape(elems@[6])
        &&& T7::is_shape(elems@[7])
        &&& T8::is_shape(elems@[8])
        &&& T9::is_shape(elems@[9])
        &&& T10::is_shape(elems@[10])
        &&& T11::is_shape(elems@[11])
        &&& T12::is_shape(elems@[12])
        &&& T13::is_shape(elems@[13])
        &&& T14::is_shape(elems@[14])
        &&& T15::is_shape(elems@[15])
        &&& T16::is_shape(elems@[16])
        &&& T17::is_shape(elems@[17])
        &&& T18::is_shape(elems@[18])
        &&& T19::is_shape(elems@[19])
        &&& T20::is_shape(elems@[20])
        &&& T21::is_shape(elems@[21])
        &&& T22::is_shape(elems@[22])
        &&& T23::is_shape(elems@[23])
        &&& T24::is_shape(elems@[24])
    }

    fn schema() -> (r: Schema) {
        Schema::Tuple(
            vec![
                T0::schema(), T1::schema(), T2::schema(), T3::schema(),
                T4::schema(), T5::schema(), T6::schema(), T7::schema(),
                T8::schema(), T9::schema(), T10::schema(), T11::schema(),
                T12::schema(), T13::schema(), T14::schema(), T15::schema(),
                T16::schema(), T17::schema(), T18::schema(), T19::schema(),
                T20::schema(), T21::schema(), T22::schema(), T23::schema(),
                T24::schema(),
            ],
        )
    }
}

impl<
    T0: TypeShape, T1: TypeShape, T2: TypeShape, T3: TypeShape, T4: TypeShape, T5: TypeShape,
    T6: TypeShape, T7: TypeShape, T8: TypeShape, T9: TypeShape, T10: TypeShape, T11: TypeShape,
    T12: TypeShape, T13: TypeShape, T14: TypeShape, T15: TypeShape, T16: TypeShape, T17: TypeShape,
    T18: TypeShape, T19: TypeShape, T20: TypeShape, T21: TypeShape, T22: TypeShape, T23: TypeShape,
    T24: TypeShape, T25: TypeShape,
> TypeShape for (
    T0, T1, T2, T3, T4, T5, T6, T7, T8, T9, T10, T11, T12, T13, T14, T15,
    T16, T17, T18, T19, T20, T21, T22, T23, T24, T25,
) {
    open spec fn is_shape(s: Schema) -> bool {
        &&& s matches Schema::Tuple(elems)
        &&& elems@.len() == 26
        &&& T0::is_shape(elems@[0])
        &&& T1::is_shape(elems@[1])
        &&& T2::is_shape(elems@[2])
        &&& T3::is_shape(elems@[3])
        &&& T4::is_shape(elems@[4])
        &&& T5::is_shape(elems@[5])
        &&& T6::is_shape(elems@[6])
        &&& T7::is_shape(elems@[7])
        &&& T8::is_shape(elems@[8])
        &&& T9::is_shape(elems@[9])
        &&& T10::is_shape(elems@[10])
        &&& T11::is_shape(elems@[11])
        &&& T12::is_shape(elems@[12])
        &&& T13::is_shape(elems@[13])
        &&& T14::is_shape(elems@[14])
        &&& T15::is_shape(elems@[15])
        &&& T16::is_shape(elems@[16])
        &&& T17::is_shape(elems@[17])
        &&& T18::is_shape(elems@[18])
        &&& T19::is_shape(elems@[19])
        &&& T20::is_shape(elems@[20])
        &&& T21::is_shape(elems@[21])
        &&& T22::is_shape(elems@[22])
        &&& T23::is_shape(elems@[23])
        &&& T24::is_shape(elems@[24])
        &&& T25::is_shape(elems@[25])
    }

    fn schema() -> (r: Schema) {
        Schema::Tuple(
            vec![
                T0::schema(), T1::schema(), T2::schema(), T3::schema(),
                T4::schema(), T5::schema(), T6::schema(), T7::schema(),
                T8::schema(), T9::schema(), T10::schema(), T11::schema(),
                T12::schema(), T13::schema(), T14::schema(), T15::schema(),
                T16::schema(), T17::schema(), T18::schema(), T19::schema(),
                T20::schema(), T21::schema(), T22::schema(), T23::schema(),
                T24::schema(), T25::schema(),
            ],
        )
    }
}

impl<
    T0: TypeShape, T1: TypeShape, T2: TypeShape, T3: TypeShape, T4: TypeShape, T5: TypeShape,
    T6: TypeShape, T7: TypeShape, T8: TypeShape, T9: TypeShape, T10: TypeShape, T11: TypeShape,
    T12: TypeShape, T13: TypeShape, T14: TypeShape, T15: TypeShape, T16: TypeShape, T17: TypeShape,
    T18: TypeShape, T19: TypeShape, T20: TypeShape, T21: TypeShape, T22: TypeShape, T23: TypeShape,
    T24: TypeShape, T25: TypeShape, T26: TypeShape,
> TypeShape for (
    T0, T1, T2, T3, T4, T5, T6, T7, T8, T9, T10, T11, T12, T13, T14, T15,
    T16, T17, T18, T19, T20, T21, T22, T23, T24, T25, T26,
) {
    open spec fn is_shape(s: Schema) -> bool {
        &&& s matches Schema::Tuple(elems)
        &&& elems@.len() == 27
        &&& T0::is_shape(elems@[0])
        &&& T1::is_shape(elems@[1])
        &&& T2::is_shape(elems@[2])
        &&& T3::is_shape(elems@[3])
        &&& T4::is_shape(elems@[4])
        &&& T5::is_shape(elems@[5])
        &&& T6::is_shape(elems@[6])
        &&& T7::is_shape(elems@[7])
        &&& T8::is_shape(elems@[8])
        &&& T9::is_shape(elems@[9])
        &&& T10::is_shape(elems@[10])
        &&& T11::is_shape(elems@[11])
        &&& T12::is_shape(elems@[12])
        &&& T13::is_shape(elems@[13])
        &&& T14::is_shape(elems@[14])
        &&& T15::is_shape(elems@[15])
        &&& T16::is_shape(elems@[16])
        &&& T17::is_shape(elems@[17])
        &&& T18::is_shape(elems@[18])
        &&& T19::is_shape(elems@[19])
        &&& T20::is_shape(elems@[20])
        &&& T21::is_shape(elems@[21])
        &&& T22::is_shape(elems@[22])
        &&& T23::is_shape(elems@[23])
        &&& T24::is_shape(elems@[24])
        &&& T25::is_shape(elems@[25])
        &&& T26::is_shape(elems@[26])
    }

    fn schema() -> (r: Schema) {
        Schema::Tuple(
            vec![
                T0::schema(), T1::schema(), T2::schema(), T3::schema(),
                T4::schema(), T5::schema(), T6::schema(), T7::schema(),
                T8::schema(), T9::schema(), T10::schema(), T11::schema(),
                T12::schema(), T13::schema(), T14::schema(), T15::schema(),
                T16::schema(), T17::schema(), T18::schema(), T19::schema(),
                T20::schema(), T21::schema(), T22::schema(), T23::schema(),
                T24::schema(), T25::schema(), T26::schema(),
            ],
        )
    }
}

impl<
    T0: TypeShape, T1: TypeShape, T2: TypeShape, T3: TypeShape, T4: TypeShape, T5: TypeShape,
    T6: TypeShape, T7: TypeShape, T8: TypeShape, T9: TypeShape, T10: TypeShape, T11: TypeShape,
    T12: TypeShape, T13: TypeShape, T14: TypeShape, T15: TypeShape, T16: TypeShape, T17: TypeShape,
    T18: TypeShape, T19: TypeShape, T20: TypeShape, T21: TypeShape, T22: TypeShape, T23: TypeShape,
    T24: TypeShape, T25: TypeShape, T26: TypeShape, T27: TypeShape,
> TypeShape for (
    T0, T1, T2, T3, T4, T5, T6, T7, T8, T9, T10, T11, T12, T13, T14, T15,
    T16, T17, T18, T19, T20, T21, T22, T23, T24, T25, T26, T27,
) {
    open spec fn is_shape(s: Schema) -> bool {
        &&& s matches Schema::Tuple(elems)
        &&& elems@.len() == 28
        &&& T0::is_shape(elems@[0])
        &&& T1::is_shape(elems@[1])
        &&& T2::is_shape(elems@[2])
        &&& T3::is_shape(elems@[3])
        &&& T4::is_shape(elems@[4])
        &&& T5::is_shape(elems@[5])
        &&& T6::is_shape(elems@[6])
        &&& T7::is_shape(elems@[7])
        &&& T8::is_shape(elems@[8])
        &&& T9::is_shape(elems@[9])
        &&& T10::is_shape(elems@[10])
        &&& T11::is_shape(elems@[11])
        &&& T12::is_shape(elems@[12])
        &&& T13::is_shape(elems@[13])
        &&& T14::is_shape(elems@[14])
        &&& T15::is_shape(elems@[15])
        &&& T16::is_shape(elems@[16])
        &&& T17::is_shape(elems@[17])
        &&& T18::is_shape(elems@[18])
        &&& T19::is_shape(elems@[19])
        &&& T20::is_shape(elems@[20])
        &&& T21::is_shape(elems@[21])
        &&& T22::is_shape(elems@[22])
        &&& T23::is_shape(elems@[23])
        &&& T24::is_shape(elems@[24])
        &&& T25::is_shape(elems@[25])
        &&& T26::is_shape(elems@[26])
        &&& T27::is_shape(elems@[27])
    }

    fn schema() -> (r: Schema) {
        Schema::Tuple(
            vec![
                T0::schema(), T1::schema(), T2::schema(), T3::schema(),
                T4::schema(), T5::schema(), T6::schema(), T7::schema(),
                T8::schema(), T9::schema(), T10::schema(), T11::schema(),
                T12::schema(), T13::schema(), T14::schema(), T15::schema(),
                T16::schema(), T17::schema(), T18::schema(), T19::schema(),
                T20::schema(), T21::schema(), T22::schema(), T23::schema(),
                T24::schema(), T25::schema(), T26::schema(), T27::schema(),
            ],
        )
    }
}

impl<
    T0: TypeShape, T1: TypeShape, T2: TypeShape, T3: TypeShape, T4: TypeShape, T5: TypeShape,
    T6: TypeShape, T7: TypeShape, T8: TypeShape, T9: TypeShape, T10: TypeShape, T11: TypeShape,
    T12: TypeShape, T13: TypeShape, T14: TypeShape, T15: TypeShape, T16: TypeShape, T17: TypeShape,
    T18: TypeShape, T19: TypeShape, T20: TypeShape, T21: TypeShape, T22: TypeShape, T23: TypeShape,
    T24: TypeShape, T25: TypeShape, T26: TypeShape, T27: TypeShape, T28: TypeShape,
> TypeShape for (
    T0, T1, T2, T3, T4, T5, T6, T7, T8, T9, T10, T11, T12, T13, T14, T15,
    T16, T17, T18, T19, T20, T21, T22, T23, T24, T25, T26, T27, T28,
) {
    open spec fn is_shape(s: Schema) -> bool {
        &&& s matches Schema::Tuple(elems)
        &&& elems@.len() == 29
        &&& T0::is_shape(elems@[0])
        &&& T1::is_shape(elems@[1])
        &&& T2::is_shape(elems@[2])
        &&& T3::is_shape(elems@[3])
        &&& T4::is_shape(elems@[4])
        &&& T5::is_shape(elems@[5])
        &&& T6::is_shape(elems@[6])
        &&& T7::is_shape(elems@[7])
        &&& T8::is_shape(elems@[8])
        &&& T9::is_shape(elems@[9])
        &&& T10::is_shape(elems@[10])
        &&& T11::is_shape(elems@[11])
        &&& T12::is_shape(elems@[12])
        &&& T13::is_shape(elems@[13])
        &&& T14::is_shape(elems@[14])
        &&& T15::is_shape(elems@[15])
        &&& T16::is_shape(elems@[16])
        &&& T17::is_shape(elems@[17])
        &&& T18::is_shape(elems@[18])
        &&& T19::is_shape(elems@[19])
        &&& T20::is_shape(elems@[20])
        &&& T21::is_shape(elems@[21])
        &&& T22::is_shape(elems@[22])
        &&& T23::is_shape(elems@[23])
        &&& T24::is_shape(elems@[24])
        &&& T25::is_shape(elems@[25])
        &&& T26::is_shape(elems@[26])
        &&& T27::is_shape(elems@[27])
        &&& T28::is_shape(elems@[28])
    }

    fn schema() -> (r: Schema) {
        Schema::Tuple(
            vec![
                T0::schema(), T1::schema(), T2::schema(), T3::schema(),
                T4::schema(), T5::schema(), T6::schema(), T7::schema(),
                T8::schema(), T9::schema(), T10::schema(), T11::schema(),
                T12::schema(), T13::schema(), T14::schema(), T15::schema(),
                T16::schema(), T17::schema(), T18::schema(), T19::schema(),
                T20::schema(), T21::schema(), T22::schema(), T23::schema(),
                T24::schema(), T25::schema(), T26::schema(), T27::schema(),
                T28::schema(),
            ],
        )
    }
}

impl<
    T0: TypeShape, T1: TypeShape, T2: TypeShape, T3: TypeShape, T4: TypeShape, T5: TypeShape,
    T6: TypeShape, T7: TypeShape, T8: TypeShape, T9: TypeShape, T10: TypeShape, T11: TypeShape,
    T12: TypeShape, T13: TypeShape, T14: TypeShape, T15: TypeShape, T16: TypeShape, T17: TypeShape,
    T18: TypeShape, T19: TypeShape, T20: TypeShape, T21: TypeShape, T22: TypeShape, T23: TypeShape,
    T24: TypeShape, T25: TypeShape, T26: TypeShape, T27: TypeShape, T28: TypeShape, T29: TypeShape,
> TypeShape for (
    T0, T1, T2, T3, T4, T5, T6, T7, T8, T9, T10, T11, T12, T13, T14, T15,
    T16, T17, T18, T19, T20, T21, T22, T23, T24, T25, T26, T27, T28, T29,
) {
    open spec fn is_shape(s: Schema) -> bool {
        &&& s matches Schema::Tuple(elems)
        &&& elems@.len() == 30
        &&& T0::is_shape(elems@[0])
        &&& T1::is_shape(elems@[1])
        &&& T2::is_shape(elems@[2])
        &&& T3::is_shape(elems@[3])
        &&& T4::is_shape(elems@[4])
        &&& T5::is_shape(elems@[5])
        &&& T6::is_shape(elems@[6])
        &&& T7::is_shape(elems@[7])
        &&& T8::is_shape(elems@[8])
        &&& T9::is_shape(elems@[9])
        &&& T10::is_shape(elems@[10])
        &&& T11::is_shape(elems@[11])
        &&& T12::is_shape(elems@[12])
        &&& T13::is_shape(elems@[13])
        &&& T14::is_shape(elems@[14])
        &&& T15::is_shape(elems@[15])
        &&& T16::is_shape(elems@[16])
        &&& T17::is_shape(elems@[17])
        &&& T18::is_shape(elems@[18])
        &&& T19::is_shape(elems@[19])
        &&& T20::is_shape(elems@[20])
        &&& T21::is_shape(elems@[21])
        &&& T22::is_shape(elems@[22])
        &&& T23::is_shape(elems@[23])
        &&& T24::is_shape(elems@[24])
        &&& T25::is_shape(elems@[25])
        &&& T26::is_shape(elems@[26])
        &&& T27::is_shape(elems@[27])
        &&& T28::is_shape(elems@[28])
        &&& T29::is_shape(elems@[29])
    }

    fn schema() -> (r: Schema) {
        Schema::Tuple(
            vec![
                T0::schema(), T1::schema(), T2::schema(), T3::schema(),
                T4::schema(), T5::schema(), T6::schema(), T7::schema(),
                T8::schema(), T9::schema(), T10::schema(), T11::schema(),
                T12::schema(), T13::schema(), T14::schema(), T15::schema(),
                T16::schema(), T17::schema(), T18::schema(), T19::schema(),
                T20::schema(), T21::schema(), T22::schema(), T23::schema(),
                T24::schema(), T25::schema(), T26::schema(), T27::schema(),
                T28::schema(), T29::schema(),
            ],
        )
    }
}

impl<
    T0: TypeShape, T1: TypeShape, T2: TypeShape, T3: TypeShape, T4: TypeShape, T5: TypeShape,
    T6: TypeShape, T7: TypeShape, T8: TypeShape, T9: TypeShape, T10: TypeShape, T11: TypeShape,
    T12: TypeShape, T13: TypeShape, T14: TypeShape, T15: TypeShape, T16: TypeShape, T17: TypeShape,
    T18: TypeShape, T19: TypeShape, T20: TypeShape, T21: TypeShape, T22: TypeShape, T23: TypeShape,
    T24: TypeShape, T25: TypeShape, T26: TypeShape, T27: TypeShape, T28: TypeShape, T29: TypeShape,
    T30: TypeShape,
> TypeShape for (
    T0, T1, T2, T3, T4, T5, T6, T7, T8, T9, T10, T11, T12, T13, T14, T15,
    T16, T17, T18, T19, T20, T21, T22, T23, T24, T25, T26, T27, T28, T29, T30,
) {
    open spec fn is_shape(s: Schema) -> bool {
        &&& s matches Schema::Tuple(elems)
        &&& elems@.len() == 31
        &&& T0::is_shape(elems@[0])
        &&& T1::is_shape(elems@[1])
        &&& T2::is_shape(elems@[2])
        &&& T3::is_shape(elems@[3])
        &&& T4::is_shape(elems@[4])
        &&& T5::is_shape(elems@[5])
        &&& T6::is_shape(elems@[6])
        &&& T7::is_shape(elems@[7])
        &&& T8::is_shape(elems@[8])
        &&& T9::is_shape(elems@[9])
        &&& T10::is_shape(elems@[10])
        &&& T11::is_shape(elems@[11])
        &&& T12::is_shape(elems@[12])
        &&& T13::is_shape(elems@[13])
        &&& T14::is_shape(elems@[14])
        &&& T15::is_shape(elems@[15])
        &&& T16::is_shape(elems@[16])
        &&& T17::is_shape(elems@[17])
        &&& T18::is_shape(elems@[18])
        &&& T19::is_shape(elems@[19])
        &&& T20::is_shape(elems@[20])
        &&& T21::is_shape(elems@[21])
        &&& T22::is_shape(elems@[22])
        &&& T23::is_shape(elems@[23])
        &&& T24::is_shape(elems@[24])
        &&& T25::is_shape(elems@[25])
        &&& T26::is_shape(elems@[26])
        &&& T27::is_shape(elems@[27])
        &&& T28::is_shape(elems@[28])
        &&& T29::is_shape(elems@[29])
        &&& T30::is_shape(elems@[30])
    }

    fn schema() -> (r: Schema) {
        Schema::Tuple(
            vec![
                T0::schema(), T1::schema(), T2::schema(), T3::schema(),
                T4::schema(), T5::schema(), T6::schema(), T7::schema(),
                T8::schema(), T9::schema(), T10::schema(), T11::schema(),
                T12::schema(), T13::schema(), T14::schema(), T15::schema(),
                T16::schema(), T17::schema(), T18::schema(), T19::schema(),
                T20::schema(), T21::schema(), T22::schema(), T23::schema(),
                T24::schema(), T25::schema(), T26::schema(), T27::schema(),
                T28::schema(), T29::schema(), T30::schema(),
            ],
        )
    }
}

impl<
    T0: TypeShape, T1: TypeShape, T2: TypeShape, T3: TypeShape, T4: TypeShape, T5: TypeShape,
    T6: TypeShape, T7: TypeShape, T8: TypeShape, T9: TypeShape, T10: TypeShape, T11: TypeShape,
    T12: TypeShape, T13: TypeShape, T14: TypeShape, T15: TypeShape, T16: TypeShape, T17: TypeShape,
    T18: TypeShape, T19: TypeShape, T20: TypeShape, T21: TypeShape, T22: TypeShape, T23: TypeShape,
    T24: TypeShape, T25: TypeShape, T26: TypeShape, T27: TypeShape, T28: TypeShape, T29: TypeShape,
    T30: TypeShape, T31: TypeShape,
> TypeShape for (
    T0, T1, T2, T3, T4, T5, T6, T7, T8, T9, T10, T11, T12, T13, T14, T15,
    T16, T17, T18, T19, T20, T21, T22, T23, T24, T25, T26, T27, T28, T29, T30, T31,
) {
    open spec fn is_shape(s: Schema) -> bool {
        &&& s matches Schema::Tuple(elems)
        &&& elems@.len() == 32
        &&& T0::is_shape(elems@[0])
        &&& T1::is_shape(elems@[1])
        &&& T2::is_shape(elems@[2])
        &&& T3::is_shape(elems@[3])
        &&& T4::is_shape(elems@[4])
        &&& T5::is_shape(elems@[5])
        &&& T6::is_shape(elems@[6])
        &&& T7::is_shape(elems@[7])
        &&& T8::is_shape(elems@[8])
        &&& T9::is_shape(elems@[9])
        &&& T10::is_shape(elems@[10])
        &&& T11::is_shape(elems@[11])
        &&& T12::is_shape(elems@[12])
        &&& T13::is_shape(elems@[13])
        &&& T14::is_shape(elems@[14])
        &&& T15::is_shape(elems@[15])
        &&& T16::is_shape(elems@[16])
        &&& T17::is_shape(elems@[17])
        &&& T18::is_shape(elems@[18])
        &&& T19::is_shape(elems@[19])
        &&& T20::is_shape(elems@[20])
        &&& T21::is_shape(elems@[21])
        &&& T22::is_shape(elems@[22])
        &&& T23::is_shape(elems@[23])
        &&& T24::is_shape(elems@[24])
        &&& T25::is_shape(elems@[25])
        &&& T26::is_shape(elems@[26])
        &&& T27::is_shape(elems@[27])
        &&& T28::is_shape(elems@[28])
        &&& T29::is_shape(elems@[29])
        &&& T30::is_shape(elems@[30])
        &&& T31::is_shape(elems@[31])
    }

    fn schema() -> (r: Schema) {
        Schema::Tuple(
            vec![
                T0::schema(), T1::schema(), T2::schema(), T3::schema(),
                T4::schema(), T5::schema(), T6::schema(), T7::schema(),
                T8::schema(), T9::schema(), T10::schema(), T11::schema(),
                T12::schema(), T13::schema(), T14::schema(), T15::schema(),
                T16::schema(), T17::schema(), T18::schema(), T19::schema(),
                T20::schema(), T21::schema(), T22::schema(), T23::schema(),
                T24::schema(), T25::schema(), T26::schema(), T27::schema(),
                T28::schema(), T29::schema(), T30::schema(), T31::schema(),
            ],
        )
    }
}

} // verus!
