use num_bigint::BigUint;
use uint_expr::bigint::{at_most, big_to_decimal, to_u128};
use uint_expr::coerce::Prospect;
use uint_expr::expr::{
    ArrayExpression, BooleanExpression, FieldElementExpression, IntExpression, StructExpression,
    TypedExpression, UExpression, UExpressionInner, UMetadata,
};
use uint_expr::types::{Identifier, UBitwidth};

fn untyped(v: u128) -> IntExpression {
    IntExpression::Value(BigUint::from(v))
}

fn unsigned(v: u128, bitwidth: UBitwidth) -> UExpression {
    UExpressionInner::Value(v).annotate(bitwidth)
}

fn variable(name: &str) -> Identifier {
    Identifier { name: name.to_string() }
}

fn two_to_the(n: usize) -> BigUint {
    BigUint::from(1u32) << n
}

#[test]
fn sum_of_literals_becomes_unsigned_sum() {
    let sum = IntExpression::Add(Box::new(untyped(3)), Box::new(untyped(4)));
    let coerced = UExpression::try_from_int(sum, UBitwidth::B8).unwrap();
    assert_eq!(coerced.bitwidth, UBitwidth::B8);
    assert_eq!(coerced.metadata, None);
    assert_eq!(
        coerced.inner,
        UExpressionInner::Add(
            Box::new(unsigned(3, UBitwidth::B8)),
            Box::new(unsigned(4, UBitwidth::B8))
        )
    );
    assert_eq!(coerced.to_string(), "(3u8 + 4u8)");
}

#[test]
fn literal_over_the_bound_comes_back() {
    let r = UExpression::try_from_int(untyped(200), UBitwidth::B8);
    assert_eq!(r, Err(untyped(200)));
}

#[test]
fn typed_literal_over_the_bound_comes_back() {
    let r = UExpression::try_from_typed(TypedExpression::Int(untyped(200)), UBitwidth::B8);
    assert_eq!(r, Err(TypedExpression::Int(untyped(200))));
}

#[test]
fn bound_is_half_the_range_of_each_width() {
    let bounds = [
        (UBitwidth::B8, 1u128 << 7),
        (UBitwidth::B16, 1u128 << 15),
        (UBitwidth::B32, 1u128 << 31),
        (UBitwidth::B64, 1u128 << 63),
    ];
    for (bitwidth, bound) in bounds {
        assert_eq!(
            UExpression::try_from_int(untyped(bound), bitwidth),
            Ok(unsigned(bound, bitwidth))
        );
        assert_eq!(
            UExpression::try_from_int(untyped(bound - 1), bitwidth),
            Ok(unsigned(bound - 1, bitwidth))
        );
        assert_eq!(
            UExpression::try_from_int(untyped(bound + 1), bitwidth),
            Err(untyped(bound + 1))
        );
    }
}

#[test]
fn zero_is_coerced_to_every_width() {
    for bitwidth in [UBitwidth::B8, UBitwidth::B16, UBitwidth::B32, UBitwidth::B64] {
        assert_eq!(
            UExpression::try_from_int(untyped(0), bitwidth),
            Ok(unsigned(0, bitwidth))
        );
    }
}

#[test]
fn literal_keeps_its_value_exactly() {
    let r = UExpression::try_from_int(untyped(0xabcdef), UBitwidth::B32).unwrap();
    assert_eq!(r.inner, UExpressionInner::Value(11259375));
    let r = UExpression::try_from_int(untyped(0x7fff_ffff_ffff_ff0a), UBitwidth::B64).unwrap();
    assert_eq!(r.inner, UExpressionInner::Value(9223372036854775562));
    let r = UExpression::try_from_int(untyped(16), UBitwidth::B8).unwrap();
    assert_eq!(r.inner, UExpressionInner::Value(16));
}

#[test]
fn literal_beyond_128_bits_is_refused() {
    let huge = IntExpression::Value(two_to_the(200));
    assert_eq!(huge.prospect(UBitwidth::B64), Prospect::Refused);
    assert_eq!(
        UExpression::try_from_int(huge, UBitwidth::B64),
        Err(IntExpression::Value(two_to_the(200)))
    );
}

#[test]
fn every_shared_operator_is_coerced_to_its_counterpart() {
    let w = UBitwidth::B16;
    let l = || Box::new(untyped(5));
    let r = || Box::new(untyped(6));
    let ul = || Box::new(unsigned(5, w));
    let ur = || Box::new(unsigned(6, w));
    let cases = vec![
        (IntExpression::Add(l(), r()), UExpressionInner::Add(ul(), ur())),
        (IntExpression::Sub(l(), r()), UExpressionInner::Sub(ul(), ur())),
        (IntExpression::Mult(l(), r()), UExpressionInner::Mult(ul(), ur())),
        (IntExpression::And(l(), r()), UExpressionInner::And(ul(), ur())),
        (IntExpression::Or(l(), r()), UExpressionInner::Or(ul(), ur())),
        (IntExpression::Xor(l(), r()), UExpressionInner::Xor(ul(), ur())),
    ];
    for (from, to) in cases {
        assert_eq!(UExpression::try_from_int(from, w), Ok(to.annotate(w)));
    }
}

#[test]
fn shift_amount_passes_through_unchanged() {
    let by = || {
        Box::new(FieldElementExpression::Add(
            Box::new(FieldElementExpression::Identifier(variable("n"))),
            Box::new(FieldElementExpression::Number(two_to_the(130))),
        ))
    };
    let left = IntExpression::LeftShift(Box::new(untyped(1)), by());
    assert_eq!(
        UExpression::try_from_int(left, UBitwidth::B32),
        Ok(UExpressionInner::LeftShift(Box::new(unsigned(1, UBitwidth::B32)), by())
            .annotate(UBitwidth::B32))
    );
    let right = IntExpression::RightShift(Box::new(untyped(1)), by());
    assert_eq!(
        UExpression::try_from_int(right, UBitwidth::B32),
        Ok(UExpressionInner::RightShift(Box::new(unsigned(1, UBitwidth::B32)), by())
            .annotate(UBitwidth::B32))
    );
}

#[test]
fn condition_of_a_choice_passes_through_unchanged() {
    let condition = || Box::new(BooleanExpression::Identifier(variable("c")));
    let choice = IntExpression::IfElse(condition(), Box::new(untyped(1)), Box::new(untyped(2)));
    assert_eq!(
        UExpression::try_from_int(choice, UBitwidth::B8),
        Ok(UExpressionInner::IfElse(
            condition(),
            Box::new(unsigned(1, UBitwidth::B8)),
            Box::new(unsigned(2, UBitwidth::B8))
        )
        .annotate(UBitwidth::B8))
    );
}

#[test]
fn nested_tree_keeps_its_shape() {
    let tree = || {
        IntExpression::Mult(
            Box::new(IntExpression::Add(Box::new(untyped(1)), Box::new(untyped(2)))),
            Box::new(IntExpression::Xor(Box::new(untyped(3)), Box::new(untyped(128)))),
        )
    };
    let w = UBitwidth::B8;
    let expected = UExpressionInner::Mult(
        Box::new(
            UExpressionInner::Add(Box::new(unsigned(1, w)), Box::new(unsigned(2, w))).annotate(w),
        ),
        Box::new(
            UExpressionInner::Xor(Box::new(unsigned(3, w)), Box::new(unsigned(128, w)))
                .annotate(w),
        ),
    )
    .annotate(w);
    assert_eq!(tree().prospect(w), Prospect::Coercible);
    assert_eq!(UExpression::try_from_int(tree(), w), Ok(expected));
}

#[test]
fn one_unfit_literal_fails_the_whole_tree() {
    let tree = || {
        IntExpression::Mult(
            Box::new(IntExpression::Add(Box::new(untyped(1)), Box::new(untyped(2)))),
            Box::new(IntExpression::LeftShift(
                Box::new(IntExpression::Sub(Box::new(untyped(3)), Box::new(untyped(129)))),
                Box::new(FieldElementExpression::Identifier(variable("n"))),
            )),
        )
    };
    assert_eq!(tree().prospect(UBitwidth::B8), Prospect::Refused);
    assert_eq!(UExpression::try_from_int(tree(), UBitwidth::B8), Err(tree()));
    assert!(UExpression::try_from_int(tree(), UBitwidth::B16).is_ok());
}

#[test]
fn unfit_literal_in_the_first_operand_fails_the_whole_tree() {
    let tree = || IntExpression::Add(Box::new(untyped(1000)), Box::new(untyped(2)));
    assert_eq!(UExpression::try_from_int(tree(), UBitwidth::B8), Err(tree()));
}

#[test]
fn operators_without_a_counterpart_are_refused() {
    let div = || IntExpression::Div(Box::new(untyped(4)), Box::new(untyped(2)));
    let pow = || IntExpression::Pow(Box::new(untyped(4)), Box::new(untyped(2)));
    assert_eq!(div().prospect(UBitwidth::B8), Prospect::Refused);
    assert_eq!(UExpression::try_from_int(div(), UBitwidth::B8), Err(div()));
    assert_eq!(UExpression::try_from_int(pow(), UBitwidth::B8), Err(pow()));
    let inside = || IntExpression::Add(Box::new(untyped(1)), Box::new(div()));
    assert_eq!(UExpression::try_from_int(inside(), UBitwidth::B8), Err(inside()));
}

#[test]
fn prospect_tells_a_selection_apart() {
    let selection = || {
        IntExpression::Select(
            Box::new(ArrayExpression::Identifier(variable("a"))),
            Box::new(FieldElementExpression::Number(BigUint::from(0u32))),
        )
    };
    assert_eq!(selection().prospect(UBitwidth::B8), Prospect::Selection);
    let after_fit = IntExpression::Add(Box::new(untyped(1)), Box::new(selection()));
    assert_eq!(after_fit.prospect(UBitwidth::B8), Prospect::Selection);
    let before = IntExpression::Add(Box::new(selection()), Box::new(untyped(1000)));
    assert_eq!(before.prospect(UBitwidth::B8), Prospect::Selection);
    let under_shift = IntExpression::LeftShift(
        Box::new(selection()),
        Box::new(FieldElementExpression::Identifier(variable("n"))),
    );
    assert_eq!(under_shift.prospect(UBitwidth::B8), Prospect::Selection);
}

#[test]
fn selection_behind_a_failure_is_never_reached() {
    let selection = || {
        IntExpression::Select(
            Box::new(ArrayExpression::Identifier(variable("a"))),
            Box::new(FieldElementExpression::Number(BigUint::from(0u32))),
        )
    };
    let tree = || IntExpression::Add(Box::new(untyped(1000)), Box::new(selection()));
    assert_eq!(tree().prospect(UBitwidth::B8), Prospect::Refused);
    assert_eq!(UExpression::try_from_int(tree(), UBitwidth::B8), Err(tree()));
}

#[test]
fn unsigned_of_the_width_is_returned_as_it_is() {
    let metadata = UMetadata { bitwidth: Some(9), should_reduce: Some(true) };
    let e = || unsigned(255, UBitwidth::B8).metadata(metadata.clone());
    assert_eq!(
        UExpression::try_from_typed(TypedExpression::Uint(e()), UBitwidth::B8),
        Ok(e())
    );
}

#[test]
fn unsigned_of_another_width_is_given_back() {
    let e = || TypedExpression::Uint(unsigned(3, UBitwidth::B8));
    assert_eq!(UExpression::try_from_typed(e(), UBitwidth::B16), Err(e()));
}

#[test]
fn typed_integer_is_coerced() {
    let e = TypedExpression::Int(IntExpression::Sub(Box::new(untyped(9)), Box::new(untyped(1))));
    assert_eq!(
        UExpression::try_from_typed(e, UBitwidth::B64),
        Ok(UExpressionInner::Sub(
            Box::new(unsigned(9, UBitwidth::B64)),
            Box::new(unsigned(1, UBitwidth::B64))
        )
        .annotate(UBitwidth::B64))
    );
}

#[test]
fn other_kinds_are_given_back() {
    let cases: Vec<fn() -> TypedExpression> = vec![
        || TypedExpression::Boolean(BooleanExpression::Value(true)),
        || TypedExpression::FieldElement(FieldElementExpression::Number(BigUint::from(3u32))),
        || TypedExpression::Array(ArrayExpression::Value(vec![])),
        || {
            TypedExpression::Struct(StructExpression::Identifier(Identifier {
                name: "s".to_string(),
            }))
        },
    ];
    for make in cases {
        assert_eq!(UExpression::try_from_typed(make(), UBitwidth::B8), Err(make()));
    }
}

#[test]
fn at_most_compares_the_numbers() {
    assert!(at_most(&BigUint::from(128u32), 128));
    assert!(at_most(&BigUint::from(0u32), 0));
    assert!(!at_most(&BigUint::from(129u32), 128));
    assert!(!at_most(&two_to_the(128), u128::MAX));
    assert!(at_most(&(two_to_the(128) - 1u32), u128::MAX));
}

#[test]
fn to_u128_gives_the_number_when_it_fits() {
    assert_eq!(to_u128(&BigUint::from(0u32)), Some(0));
    assert_eq!(to_u128(&BigUint::from(255u32)), Some(255));
    assert_eq!(to_u128(&BigUint::from(0xdead_beefu32)), Some(3735928559));
    assert_eq!(to_u128(&(two_to_the(128) - 1u32)), Some(u128::MAX));
    assert_eq!(to_u128(&two_to_the(128)), None);
    assert_eq!(to_u128(&two_to_the(300)), None);
}

#[test]
fn big_numbers_are_written_in_decimal() {
    assert_eq!(big_to_decimal(&BigUint::from(0u32)), "0");
    assert_eq!(big_to_decimal(&BigUint::from(255u32)), "255");
    assert_eq!(big_to_decimal(&BigUint::from(1000000007u32)), "1000000007");
    assert_eq!(
        big_to_decimal(&two_to_the(128)),
        "340282366920938463463374607431768211456"
    );
}
