//! Committing an untyped integer expression to a width.
//!
//! A literal, or arithmetic over literals, has no width until something
//! asks for one. Coercion rebuilds such a tree node by node as an unsigned
//! expression of the width asked for, and gives the tree back untouched when
//! it cannot.
//!
//! A literal is accepted for a width of `W` bits when it is at most
//! `2^(W-1)`. This is narrower than what `W` bits can hold; it is the bound
//! that circuits compiled so far were built with, and it is kept as it is.

use crate::bigint::{at_most, magnitude, to_u128};
use crate::expr::{IntExpression, TypedExpression, UExpression, UExpressionInner};
use crate::types::UBitwidth;
use crate::uint::annotated;
use vstd::arithmetic::power2::{lemma2_to64, lemma2_to64_rest, pow2};
use vstd::pervasive::unreached;
use vstd::prelude::*;

verus! {

/// The largest literal accepted for a width: `2^(W-1)`.
pub open spec fn fit_bound(bitwidth: UBitwidth) -> nat {
    pow2((bitwidth.bits() - 1) as nat)
}

/// Whether a literal is accepted for a width.
pub open spec fn fits(value: nat, bitwidth: UBitwidth) -> bool {
    value <= fit_bound(bitwidth)
}

/// Whether coercion to the width succeeds: the tree is built from literals
/// that fit, by operators that unsigned expressions have too. What a shift
/// shifts by and what a choice chooses on play no part.
pub open spec fn coercible(i: IntExpression, bitwidth: UBitwidth) -> bool
    decreases i,
{
    match i {
        IntExpression::Value(v) => fits(magnitude(v), bitwidth),
        IntExpression::Add(l, r)
        | IntExpression::Sub(l, r)
        | IntExpression::Mult(l, r)
        | IntExpression::And(l, r)
        | IntExpression::Or(l, r)
        | IntExpression::Xor(l, r) => coercible(*l, bitwidth) && coercible(*r, bitwidth),
        IntExpression::LeftShift(e, _) | IntExpression::RightShift(e, _) => coercible(
            *e,
            bitwidth,
        ),
        IntExpression::IfElse(_, l, r) => coercible(*l, bitwidth) && coercible(*r, bitwidth),
        IntExpression::Div(_, _) | IntExpression::Pow(_, _) | IntExpression::Select(_, _) => false,
    }
}

/// Whether coercion, going through the operands from left to right and
/// stopping at the first that cannot be coerced, comes upon an element
/// selected from an array. The type checker never hands such a tree over.
pub open spec fn meets_selection(i: IntExpression, bitwidth: UBitwidth) -> bool
    decreases i,
{
    match i {
        IntExpression::Select(_, _) => true,
        IntExpression::Add(l, r)
        | IntExpression::Sub(l, r)
        | IntExpression::Mult(l, r)
        | IntExpression::And(l, r)
        | IntExpression::Or(l, r)
        | IntExpression::Xor(l, r)
        | IntExpression::IfElse(_, l, r) => meets_selection(*l, bitwidth) || (coercible(
            *l,
            bitwidth,
        ) && meets_selection(*r, bitwidth)),
        IntExpression::LeftShift(e, _) | IntExpression::RightShift(e, _) => meets_selection(
            *e,
            bitwidth,
        ),
        IntExpression::Value(_) | IntExpression::Div(_, _) | IntExpression::Pow(_, _) => false,
    }
}

/// The unsigned expression that a coercible tree becomes: the same operators
/// in the same places, every literal a literal of the width with the same
/// value, shift amounts and conditions as they were.
pub open spec fn coerced(i: IntExpression, bitwidth: UBitwidth) -> UExpression
    recommends
        coercible(i, bitwidth),
    decreases i,
{
    match i {
        IntExpression::Value(v) => annotated(
            UExpressionInner::Value(magnitude(v) as u128),
            bitwidth,
        ),
        IntExpression::Add(l, r) => annotated(
            UExpressionInner::Add(
                Box::new(coerced(*l, bitwidth)),
                Box::new(coerced(*r, bitwidth)),
            ),
            bitwidth,
        ),
        IntExpression::Sub(l, r) => annotated(
            UExpressionInner::Sub(
                Box::new(coerced(*l, bitwidth)),
                Box::new(coerced(*r, bitwidth)),
            ),
            bitwidth,
        ),
        IntExpression::Mult(l, r) => annotated(
            UExpressionInner::Mult(
                Box::new(coerced(*l, bitwidth)),
                Box::new(coerced(*r, bitwidth)),
            ),
            bitwidth,
        ),
        IntExpression::And(l, r) => annotated(
            UExpressionInner::And(
                Box::new(coerced(*l, bitwidth)),
                Box::new(coerced(*r, bitwidth)),
            ),
            bitwidth,
        ),
        IntExpression::Or(l, r) => annotated(
            UExpressionInner::Or(
                Box::new(coerced(*l, bitwidth)),
                Box::new(coerced(*r, bitwidth)),
            ),
            bitwidth,
        ),
        IntExpression::Xor(l, r) => annotated(
            UExpressionInner::Xor(
                Box::new(coerced(*l, bitwidth)),
                Box::new(coerced(*r, bitwidth)),
            ),
            bitwidth,
        ),
        IntExpression::LeftShift(e, by) => annotated(
            UExpressionInner::LeftShift(Box::new(coerced(*e, bitwidth)), by),
            bitwidth,
        ),
        IntExpression::RightShift(e, by) => annotated(
            UExpressionInner::RightShift(Box::new(coerced(*e, bitwidth)), by),
            bitwidth,
        ),
        IntExpression::IfElse(c, l, r) => annotated(
            UExpressionInner::IfElse(
                c,
                Box::new(coerced(*l, bitwidth)),
                Box::new(coerced(*r, bitwidth)),
            ),
            bitwidth,
        ),
        IntExpression::Div(_, _) | IntExpression::Pow(_, _) | IntExpression::Select(_, _) => {
            arbitrary()
        },
    }
}

/// What [`UExpression::try_from_int`] returns: the coerced tree, or the tree
/// as it was.
pub open spec fn coerced_int(i: IntExpression, bitwidth: UBitwidth) -> Result<
    UExpression,
    IntExpression,
> {
    if coercible(i, bitwidth) {
        Ok(coerced(i, bitwidth))
    } else {
        Err(i)
    }
}

/// What [`UExpression::try_from_typed`] returns.
pub open spec fn coerced_typed(e: TypedExpression, bitwidth: UBitwidth) -> Result<
    UExpression,
    TypedExpression,
> {
    match e {
        TypedExpression::Uint(u) => if u.bitwidth == bitwidth {
            Ok(u)
        } else {
            Err(e)
        },
        TypedExpression::Int(i) => match coerced_int(i, bitwidth) {
            Ok(u) => Ok(u),
            Err(_) => Err(e),
        },
        _ => Err(e),
    }
}

fn largest_fitting(bitwidth: UBitwidth) -> (bound: u128)
    ensures
        bound == fit_bound(bitwidth),
{
    proof {
        lemma2_to64();
        lemma2_to64_rest();
    }
    match bitwidth {
        UBitwidth::B8 => 0x80,
        UBitwidth::B16 => 0x8000,
        UBitwidth::B32 => 0x8000_0000,
        UBitwidth::B64 => 0x8000_0000_0000_0000,
    }
}

/// How coercion of a tree to a width would end.
#[derive(Clone, Copy, Debug, PartialEq, Eq, Structural)]
pub enum Prospect {
    /// Every literal fits and every operator has an unsigned counterpart.
    Coercible,
    /// A literal is too large, or an operator has no unsigned counterpart.
    Refused,
    /// Coercion would come upon an element selected from an array.
    Selection,
}

/// How coercion of a tree to a width would end.
pub open spec fn prospect(i: IntExpression, bitwidth: UBitwidth) -> Prospect {
    if meets_selection(i, bitwidth) {
        Prospect::Selection
    } else if coercible(i, bitwidth) {
        Prospect::Coercible
    } else {
        Prospect::Refused
    }
}

impl IntExpression {
    /// Tells how coercion to the width would end, without building anything.
    /// [`UExpression::try_from_int`] must not be called on a tree for which
    /// this is [`Prospect::Selection`].
    pub fn prospect(&self, bitwidth: UBitwidth) -> (p: Prospect)
        ensures
            p == prospect(*self, bitwidth),
        decreases *self,
    {
        match self {
            IntExpression::Value(v) => {
                if at_most(v, largest_fitting(bitwidth)) {
                    Prospect::Coercible
                } else {
                    Prospect::Refused
                }
            },
            IntExpression::Add(l, r)
            | IntExpression::Sub(l, r)
            | IntExpression::Mult(l, r)
            | IntExpression::And(l, r)
            | IntExpression::Or(l, r)
            | IntExpression::Xor(l, r)
            | IntExpression::IfElse(_, l, r) => {
                match l.prospect(bitwidth) {
                    Prospect::Coercible => r.prospect(bitwidth),
                    stopped => stopped,
                }
            },
            IntExpression::LeftShift(e, _) | IntExpression::RightShift(e, _) => e.prospect(
                bitwidth,
            ),
            IntExpression::Div(_, _) | IntExpression::Pow(_, _) => Prospect::Refused,
            IntExpression::Select(_, _) => Prospect::Selection,
        }
    }
}

fn coerce(i: IntExpression, bitwidth: UBitwidth) -> (u: UExpression)
    requires
        coercible(i, bitwidth),
    ensures
        u == coerced(i, bitwidth),
        u.bitwidth == bitwidth,
    decreases i,
{
    match i {
        IntExpression::Value(v) => {
            proof {
                lemma2_to64();
                lemma2_to64_rest();
            }
            let value = to_u128(&v).unwrap();
            UExpressionInner::Value(value).annotate(bitwidth)
        },
        IntExpression::Add(l, r) => coerce(*l, bitwidth).add(coerce(*r, bitwidth)),
        IntExpression::Sub(l, r) => coerce(*l, bitwidth).sub(coerce(*r, bitwidth)),
        IntExpression::Mult(l, r) => coerce(*l, bitwidth).mult(coerce(*r, bitwidth)),
        IntExpression::And(l, r) => coerce(*l, bitwidth).and(coerce(*r, bitwidth)),
        IntExpression::Or(l, r) => coerce(*l, bitwidth).or(coerce(*r, bitwidth)),
        IntExpression::Xor(l, r) => coerce(*l, bitwidth).xor(coerce(*r, bitwidth)),
        IntExpression::RightShift(e, by) => coerce(*e, bitwidth).right_shift(*by),
        IntExpression::LeftShift(e, by) => coerce(*e, bitwidth).left_shift(*by),
        IntExpression::IfElse(c, l, r) => UExpression::if_else(
            *c,
            coerce(*l, bitwidth),
            coerce(*r, bitwidth),
        ),
        IntExpression::Div(_, _) | IntExpression::Pow(_, _) | IntExpression::Select(_, _) => {
            unreached()
        },
    }
}

impl UExpression {
    /// Takes an expression that may have a type already. An unsigned
    /// expression of the width asked for is returned as it is, with nothing
    /// checked again; an untyped integer expression is coerced; everything
    /// else is given back.
    pub fn try_from_typed(e: TypedExpression, bitwidth: UBitwidth) -> (r: Result<
        UExpression,
        TypedExpression,
    >)
        requires
            e matches TypedExpression::Int(i) ==> !meets_selection(i, bitwidth),
        ensures
            r == coerced_typed(e, bitwidth),
            e is Uint && e->Uint_0.bitwidth == bitwidth ==> r == Ok::<
                UExpression,
                TypedExpression,
            >(e->Uint_0),
            !(e is Uint) && !(e is Int) ==> r == Err::<UExpression, TypedExpression>(e),
    {
        match e {
            TypedExpression::Uint(u) => {
                if u.bitwidth == bitwidth {
                    Ok(u)
                } else {
                    Err(TypedExpression::Uint(u))
                }
            },
            TypedExpression::Int(i) => match UExpression::try_from_int(i, bitwidth) {
                Ok(u) => Ok(u),
                Err(i) => Err(TypedExpression::Int(i)),
            },
            e => Err(e),
        }
    }

    /// Coerces an untyped integer expression to the width: `Ok` with the
    /// unsigned expression of the same shape when every literal fits, `Err`
    /// with the expression as it came when not.
    pub fn try_from_int(i: IntExpression, bitwidth: UBitwidth) -> (r: Result<
        UExpression,
        IntExpression,
    >)
        requires
            !meets_selection(i, bitwidth),
        ensures
            r == coerced_int(i, bitwidth),
    {
        match i.prospect(bitwidth) {
            Prospect::Coercible => Ok(coerce(i, bitwidth)),
            _ => Err(i),
        }
    }
}

} // verus!
