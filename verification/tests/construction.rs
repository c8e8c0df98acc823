use num_bigint::BigUint;
use uint_expr::expr::{
    BooleanExpression, FieldElementExpression, UExpression, UExpressionInner, UMetadata,
};
use uint_expr::types::{Identifier, UBitwidth};
use uint_expr::uint::bitwidth;

const WIDTHS: [UBitwidth; 4] = [UBitwidth::B8, UBitwidth::B16, UBitwidth::B32, UBitwidth::B64];

fn value(v: u128, w: UBitwidth) -> UExpression {
    UExpressionInner::Value(v).annotate(w)
}

fn amount() -> FieldElementExpression {
    FieldElementExpression::Number(BigUint::from(2u32))
}

#[test]
fn annotate_tags_the_width_and_leaves_metadata_empty() {
    for w in WIDTHS {
        let e = UExpressionInner::Value(7).annotate(w);
        assert_eq!(e.bitwidth, w);
        assert_eq!(e.metadata, None);
        assert_eq!(e.inner, UExpressionInner::Value(7));
    }
}

#[test]
fn binary_operators_keep_the_shared_width() {
    for w in WIDTHS {
        let a = || value(1, w);
        let b = || value(2, w);
        let boxed = || (Box::new(a()), Box::new(b()));
        let (l, r) = boxed();
        assert_eq!(a().add(b()), UExpressionInner::Add(l, r).annotate(w));
        let (l, r) = boxed();
        assert_eq!(a().sub(b()), UExpressionInner::Sub(l, r).annotate(w));
        let (l, r) = boxed();
        assert_eq!(a().mult(b()), UExpressionInner::Mult(l, r).annotate(w));
        let (l, r) = boxed();
        assert_eq!(a().xor(b()), UExpressionInner::Xor(l, r).annotate(w));
        let (l, r) = boxed();
        assert_eq!(a().or(b()), UExpressionInner::Or(l, r).annotate(w));
        let (l, r) = boxed();
        assert_eq!(a().and(b()), UExpressionInner::And(l, r).annotate(w));
        assert_eq!(a().add(b()).bitwidth(), w);
        assert_eq!(a().sub(b()).bitwidth(), w);
        assert_eq!(a().mult(b()).bitwidth(), w);
        assert_eq!(a().xor(b()).bitwidth(), w);
        assert_eq!(a().or(b()).bitwidth(), w);
        assert_eq!(a().and(b()).bitwidth(), w);
    }
}

#[test]
fn operand_order_is_kept() {
    let e = value(1, UBitwidth::B8).sub(value(2, UBitwidth::B8));
    match e.into_inner() {
        UExpressionInner::Sub(l, r) => {
            assert_eq!(l.inner, UExpressionInner::Value(1));
            assert_eq!(r.inner, UExpressionInner::Value(2));
        }
        other => panic!("not a difference: {:?}", other),
    }
}

#[test]
fn not_keeps_the_width() {
    for w in WIDTHS {
        assert_eq!(value(1, w).not(), UExpressionInner::Not(Box::new(value(1, w))).annotate(w));
    }
}

#[test]
fn shifts_take_the_width_of_the_shifted_operand() {
    for w in WIDTHS {
        assert_eq!(
            value(1, w).left_shift(amount()),
            UExpressionInner::LeftShift(Box::new(value(1, w)), Box::new(amount())).annotate(w)
        );
        assert_eq!(
            value(1, w).right_shift(amount()),
            UExpressionInner::RightShift(Box::new(value(1, w)), Box::new(amount())).annotate(w)
        );
    }
}

#[test]
fn choice_takes_the_width_of_its_first_branch() {
    let e = UExpression::if_else(
        BooleanExpression::Value(true),
        value(1, UBitwidth::B16),
        value(2, UBitwidth::B16),
    );
    assert_eq!(e.bitwidth, UBitwidth::B16);
    assert_eq!(e.metadata, None);
    assert_eq!(
        e.inner,
        UExpressionInner::IfElse(
            Box::new(BooleanExpression::Value(true)),
            Box::new(value(1, UBitwidth::B16)),
            Box::new(value(2, UBitwidth::B16))
        )
    );
}

#[test]
fn built_nodes_start_without_metadata() {
    let known = UMetadata { bitwidth: Some(3), should_reduce: Some(false) };
    let a = value(1, UBitwidth::B8).metadata(known.clone());
    let b = value(2, UBitwidth::B8).metadata(known);
    assert_eq!(a.add(b).metadata, None);
}

#[test]
fn metadata_replaces_only_the_metadata() {
    let first = UMetadata { bitwidth: Some(3), should_reduce: None };
    let second = UMetadata { bitwidth: None, should_reduce: Some(true) };
    let e = value(5, UBitwidth::B32).metadata(first.clone());
    assert_eq!(e.metadata, Some(first));
    assert_eq!(e.bitwidth, UBitwidth::B32);
    assert_eq!(e.inner, UExpressionInner::Value(5));
    let e = e.metadata(second.clone());
    assert_eq!(e.metadata, Some(second));
    assert_eq!(e.bitwidth, UBitwidth::B32);
    assert_eq!(e.inner, UExpressionInner::Value(5));
}

#[test]
fn accessors_return_the_parts() {
    let e = value(5, UBitwidth::B64);
    assert_eq!(e.bitwidth(), UBitwidth::B64);
    assert_eq!(e.as_inner(), &UExpressionInner::Value(5));
    assert_eq!(e.into_inner(), UExpressionInner::Value(5));
}

#[test]
fn widths_have_their_number_of_bits() {
    assert_eq!(UBitwidth::B8.to_usize(), 8);
    assert_eq!(UBitwidth::B16.to_usize(), 16);
    assert_eq!(UBitwidth::B32.to_usize(), 32);
    assert_eq!(UBitwidth::B64.to_usize(), 64);
    assert!(UBitwidth::B8 < UBitwidth::B16);
    assert!(UBitwidth::B16 < UBitwidth::B32);
    assert!(UBitwidth::B32 < UBitwidth::B64);
}

#[test]
fn conversions_build_leaves() {
    assert_eq!(UExpressionInner::from(42u128), UExpressionInner::Value(42));
    assert_eq!(
        UExpressionInner::from("x"),
        UExpressionInner::Identifier(Identifier { name: "x".to_string() })
    );
    assert_eq!(UExpression::from(7u32), value(7, UBitwidth::B32));
    assert_eq!(UExpression::from(u32::MAX), value(4294967295, UBitwidth::B32));
}

#[test]
fn bitwidth_is_the_least_width_that_holds_the_value() {
    assert_eq!(bitwidth(0), 0);
    assert_eq!(bitwidth(1), 1);
    assert_eq!(bitwidth(2), 2);
    assert_eq!(bitwidth(3), 2);
    assert_eq!(bitwidth(4), 3);
    assert_eq!(bitwidth(255), 8);
    assert_eq!(bitwidth(256), 9);
    assert_eq!(bitwidth(u64::MAX as u128), 64);
    assert_eq!(bitwidth(1u128 << 64), 65);
    assert_eq!(bitwidth(u128::MAX), 128);
    for k in 0..128 {
        assert_eq!(bitwidth(1u128 << k), k + 1);
    }
}
