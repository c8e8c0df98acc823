//! What holds of coercion whatever the tree.

use crate::bigint::magnitude;
use crate::coerce::{coerced_int, fit_bound, fits};
use crate::expr::{IntExpression, UExpression, UExpressionInner, UMetadata};
use crate::types::UBitwidth;
use crate::uint::annotated;
use num_bigint::BigUint;
use vstd::arithmetic::power2::{lemma2_to64, lemma2_to64_rest, pow2};
use vstd::prelude::*;

verus! {

/// The unsigned tree has the operators of the untyped tree in the same
/// places: each literal has become a literal of the width with the same
/// value, each shift amount and each condition is the one that was there,
/// and every node has the width and no metadata.
pub open spec fn mirrors(u: UExpression, i: IntExpression, bitwidth: UBitwidth) -> bool
    decreases i,
{
    &&& u.bitwidth == bitwidth
    &&& u.metadata is None
    &&& match (i, u.inner) {
        (IntExpression::Value(v), UExpressionInner::Value(m)) => m == magnitude(v),
        (IntExpression::Add(l, r), UExpressionInner::Add(ul, ur))
        | (IntExpression::Sub(l, r), UExpressionInner::Sub(ul, ur))
        | (IntExpression::Mult(l, r), UExpressionInner::Mult(ul, ur))
        | (IntExpression::And(l, r), UExpressionInner::And(ul, ur))
        | (IntExpression::Or(l, r), UExpressionInner::Or(ul, ur))
        | (IntExpression::Xor(l, r), UExpressionInner::Xor(ul, ur)) => mirrors(
            *ul,
            *l,
            bitwidth,
        ) && mirrors(*ur, *r, bitwidth),
        (IntExpression::LeftShift(e, by), UExpressionInner::LeftShift(ue, uby))
        | (IntExpression::RightShift(e, by), UExpressionInner::RightShift(ue, uby)) => mirrors(
            *ue,
            *e,
            bitwidth,
        ) && uby == by,
        (IntExpression::IfElse(c, l, r), UExpressionInner::IfElse(uc, ul, ur)) => uc == c
            && mirrors(*ul, *l, bitwidth) && mirrors(*ur, *r, bitwidth),
        _ => false,
    }
}

/// A literal somewhere among the operands that coercion goes through is too
/// large for the width.
pub open spec fn has_unfit_literal(i: IntExpression, bitwidth: UBitwidth) -> bool
    decreases i,
{
    match i {
        IntExpression::Value(v) => !fits(magnitude(v), bitwidth),
        IntExpression::Add(l, r)
        | IntExpression::Sub(l, r)
        | IntExpression::Mult(l, r)
        | IntExpression::And(l, r)
        | IntExpression::Or(l, r)
        | IntExpression::Xor(l, r)
        | IntExpression::IfElse(_, l, r) => has_unfit_literal(*l, bitwidth) || has_unfit_literal(
            *r,
            bitwidth,
        ),
        IntExpression::LeftShift(e, _) | IntExpression::RightShift(e, _) => has_unfit_literal(
            *e,
            bitwidth,
        ),
        IntExpression::Div(_, _) | IntExpression::Pow(_, _) | IntExpression::Select(_, _) => false,
    }
}

/// The bound of each width in figures: half of what the width can count.
pub proof fn lemma_fit_bounds()
    ensures
        fit_bound(UBitwidth::B8) == 128,
        fit_bound(UBitwidth::B16) == 32768,
        fit_bound(UBitwidth::B32) == 2147483648,
        fit_bound(UBitwidth::B64) == 9223372036854775808,
{
    lemma2_to64();
    lemma2_to64_rest();
}

/// A literal is coerced exactly when it is at most `2^(W-1)`, and then it
/// becomes the literal of the width with the same value: nothing is cut off.
pub proof fn law_literal(v: BigUint, bitwidth: UBitwidth)
    ensures
        coerced_int(IntExpression::Value(v), bitwidth) is Ok <==> magnitude(v) <= pow2(
            (bitwidth.bits() - 1) as nat,
        ),
        coerced_int(IntExpression::Value(v), bitwidth) matches Ok(u) ==> u == annotated(
            UExpressionInner::Value(magnitude(v) as u128),
            bitwidth,
        ) && magnitude(v) as u128 == magnitude(v),
{
    lemma_fit_bounds();
}

/// Coercion keeps the shape: where it succeeds, the result mirrors the tree
/// it was made from.
pub proof fn law_shape_is_kept(i: IntExpression, bitwidth: UBitwidth)
    ensures
        coerced_int(i, bitwidth) matches Ok(u) ==> mirrors(u, i, bitwidth),
    decreases i,
{
    match i {
        IntExpression::Value(v) => {
            law_literal(v, bitwidth);
        },
        IntExpression::Add(l, r)
        | IntExpression::Sub(l, r)
        | IntExpression::Mult(l, r)
        | IntExpression::And(l, r)
        | IntExpression::Or(l, r)
        | IntExpression::Xor(l, r)
        | IntExpression::IfElse(_, l, r) => {
            law_shape_is_kept(*l, bitwidth);
            law_shape_is_kept(*r, bitwidth);
        },
        IntExpression::LeftShift(e, _) | IntExpression::RightShift(e, _) => {
            law_shape_is_kept(*e, bitwidth);
        },
        IntExpression::Div(_, _) | IntExpression::Pow(_, _) | IntExpression::Select(_, _) => {},
    }
}

/// What coercion builds has one width throughout: every operator in it
/// combines operands of the width of its result.
pub proof fn law_coerced_widths_agree(i: IntExpression, bitwidth: UBitwidth)
    ensures
        coerced_int(i, bitwidth) matches Ok(u) ==> u.bitwidth == bitwidth && u.widths_agree(),
    decreases i,
{
    match i {
        IntExpression::Add(l, r)
        | IntExpression::Sub(l, r)
        | IntExpression::Mult(l, r)
        | IntExpression::And(l, r)
        | IntExpression::Or(l, r)
        | IntExpression::Xor(l, r)
        | IntExpression::IfElse(_, l, r) => {
            law_coerced_widths_agree(*l, bitwidth);
            law_coerced_widths_agree(*r, bitwidth);
        },
        IntExpression::LeftShift(e, _) | IntExpression::RightShift(e, _) => {
            law_coerced_widths_agree(*e, bitwidth);
        },
        _ => {},
    }
}

/// One literal that does not fit is enough for the whole coercion to fail,
/// and what comes back is the whole tree as it was.
pub proof fn law_failure_spreads(i: IntExpression, bitwidth: UBitwidth)
    requires
        has_unfit_literal(i, bitwidth),
    ensures
        coerced_int(i, bitwidth) == Err::<UExpression, IntExpression>(i),
    decreases i,
{
    match i {
        IntExpression::Add(l, r)
        | IntExpression::Sub(l, r)
        | IntExpression::Mult(l, r)
        | IntExpression::And(l, r)
        | IntExpression::Or(l, r)
        | IntExpression::Xor(l, r)
        | IntExpression::IfElse(_, l, r) => {
            if has_unfit_literal(*l, bitwidth) {
                law_failure_spreads(*l, bitwidth);
            } else {
                law_failure_spreads(*r, bitwidth);
            }
        },
        IntExpression::LeftShift(e, _) | IntExpression::RightShift(e, _) => {
            law_failure_spreads(*e, bitwidth);
        },
        _ => {},
    }
}

/// What an analysis has noted about an expression is no part of how the
/// expression is written: attaching metadata leaves the text as it was.
pub proof fn law_metadata_is_not_shown(e: UExpression, metadata: UMetadata)
    ensures
        (UExpression { metadata: Some(metadata), ..e }).shown() == e.shown(),
{
}

} // verus!
