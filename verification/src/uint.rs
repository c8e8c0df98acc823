//! Building unsigned-integer expressions.
//!
//! A node gets its width when it is built and keeps it. Operators that
//! combine two unsigned operands ask that both have the same width: the
//! type checker has unified them before a node is built, so a mismatch is a
//! defect of the caller and is ruled out by the precondition. Trees that are
//! built this way have widths that agree throughout.

use crate::expr::{
    BooleanExpression, FieldElementExpression, UExpression, UExpressionInner, UMetadata,
};
use crate::types::{Identifier, UBitwidth};
use vstd::arithmetic::power2::{lemma2_to64, lemma_pow2_unfold, pow2};
use vstd::prelude::*;
use vstd::std_specs::convert::FromSpecImpl;
use vstd::string::*;

verus! {

/// The node of the given shape and width that nothing is known about yet.
pub open spec fn annotated(inner: UExpressionInner, bitwidth: UBitwidth) -> UExpression {
    UExpression { bitwidth, metadata: None, inner }
}

impl UExpression {
    /// Whether the operands that an operator combines have the width of the
    /// result, all the way down. The operators below build nothing else from
    /// operands of which it holds.
    pub open spec fn widths_agree(self) -> bool
        decreases self,
    {
        match self.inner {
            UExpressionInner::Add(l, r)
            | UExpressionInner::Sub(l, r)
            | UExpressionInner::Mult(l, r)
            | UExpressionInner::Xor(l, r)
            | UExpressionInner::And(l, r)
            | UExpressionInner::Or(l, r)
            | UExpressionInner::IfElse(_, l, r) => {
                &&& l.bitwidth == self.bitwidth
                &&& r.bitwidth == self.bitwidth
                &&& l.widths_agree()
                &&& r.widths_agree()
            },
            UExpressionInner::Not(e)
            | UExpressionInner::LeftShift(e, _)
            | UExpressionInner::RightShift(e, _) => {
                &&& e.bitwidth == self.bitwidth
                &&& e.widths_agree()
            },
            UExpressionInner::Identifier(_)
            | UExpressionInner::Value(_)
            | UExpressionInner::FunctionCall(_, _)
            | UExpressionInner::Member(_, _)
            | UExpressionInner::Select(_, _) => true,
        }
    }
}

impl UExpressionInner {
    /// Tags a shape with its width. The metadata starts out empty.
    pub fn annotate(self, bitwidth: UBitwidth) -> (e: UExpression)
        ensures
            e == annotated(self, bitwidth),
    {
        UExpression { metadata: None, bitwidth, inner: self }
    }
}

impl UExpression {
    /// The sum of two expressions of one width, which is the width of the
    /// sum. The other operators on two unsigned operands are alike.
    pub fn add(self, other: Self) -> (e: UExpression)
        requires
            self.bitwidth == other.bitwidth,
        ensures
            e == annotated(UExpressionInner::Add(Box::new(self), Box::new(other)), self.bitwidth),
            e.bitwidth == self.bitwidth,
            self.widths_agree() && other.widths_agree() ==> e.widths_agree(),
    {
        let bitwidth = self.bitwidth;
        UExpressionInner::Add(Box::new(self), Box::new(other)).annotate(bitwidth)
    }

    /// The difference of two expressions of one width.
    pub fn sub(self, other: Self) -> (e: UExpression)
        requires
            self.bitwidth == other.bitwidth,
        ensures
            e == annotated(UExpressionInner::Sub(Box::new(self), Box::new(other)), self.bitwidth),
            e.bitwidth == self.bitwidth,
            self.widths_agree() && other.widths_agree() ==> e.widths_agree(),
    {
        let bitwidth = self.bitwidth;
        UExpressionInner::Sub(Box::new(self), Box::new(other)).annotate(bitwidth)
    }

    /// The product of two expressions of one width.
    pub fn mult(self, other: Self) -> (e: UExpression)
        requires
            self.bitwidth == other.bitwidth,
        ensures
            e == annotated(UExpressionInner::Mult(Box::new(self), Box::new(other)), self.bitwidth),
            e.bitwidth == self.bitwidth,
            self.widths_agree() && other.widths_agree() ==> e.widths_agree(),
    {
        let bitwidth = self.bitwidth;
        UExpressionInner::Mult(Box::new(self), Box::new(other)).annotate(bitwidth)
    }

    /// The bitwise exclusive or of two expressions of one width.
    pub fn xor(self, other: Self) -> (e: UExpression)
        requires
            self.bitwidth == other.bitwidth,
        ensures
            e == annotated(UExpressionInner::Xor(Box::new(self), Box::new(other)), self.bitwidth),
            e.bitwidth == self.bitwidth,
            self.widths_agree() && other.widths_agree() ==> e.widths_agree(),
    {
        let bitwidth = self.bitwidth;
        UExpressionInner::Xor(Box::new(self), Box::new(other)).annotate(bitwidth)
    }

    /// The bitwise or of two expressions of one width.
    pub fn or(self, other: Self) -> (e: UExpression)
        requires
            self.bitwidth == other.bitwidth,
        ensures
            e == annotated(UExpressionInner::Or(Box::new(self), Box::new(other)), self.bitwidth),
            e.bitwidth == self.bitwidth,
            self.widths_agree() && other.widths_agree() ==> e.widths_agree(),
    {
        let bitwidth = self.bitwidth;
        UExpressionInner::Or(Box::new(self), Box::new(other)).annotate(bitwidth)
    }

    /// The bitwise and of two expressions of one width.
    pub fn and(self, other: Self) -> (e: UExpression)
        requires
            self.bitwidth == other.bitwidth,
        ensures
            e == annotated(UExpressionInner::And(Box::new(self), Box::new(other)), self.bitwidth),
            e.bitwidth == self.bitwidth,
            self.widths_agree() && other.widths_agree() ==> e.widths_agree(),
    {
        let bitwidth = self.bitwidth;
        UExpressionInner::And(Box::new(self), Box::new(other)).annotate(bitwidth)
    }

    /// The bitwise complement, of the width of its operand.
    pub fn not(self) -> (e: UExpression)
        ensures
            e == annotated(UExpressionInner::Not(Box::new(self)), self.bitwidth),
            e.bitwidth == self.bitwidth,
            self.widths_agree() ==> e.widths_agree(),
    {
        let bitwidth = self.bitwidth;
        UExpressionInner::Not(Box::new(self)).annotate(bitwidth)
    }

    /// A shift to the left. The amount is a field element: its kind is not
    /// checked here, and the result has the width of the shifted operand.
    pub fn left_shift(self, by: FieldElementExpression) -> (e: UExpression)
        ensures
            e == annotated(
                UExpressionInner::LeftShift(Box::new(self), Box::new(by)),
                self.bitwidth,
            ),
            e.bitwidth == self.bitwidth,
            self.widths_agree() ==> e.widths_agree(),
    {
        let bitwidth = self.bitwidth;
        UExpressionInner::LeftShift(Box::new(self), Box::new(by)).annotate(bitwidth)
    }

    /// A shift to the right, with the width of the shifted operand.
    pub fn right_shift(self, by: FieldElementExpression) -> (e: UExpression)
        ensures
            e == annotated(
                UExpressionInner::RightShift(Box::new(self), Box::new(by)),
                self.bitwidth,
            ),
            e.bitwidth == self.bitwidth,
            self.widths_agree() ==> e.widths_agree(),
    {
        let bitwidth = self.bitwidth;
        UExpressionInner::RightShift(Box::new(self), Box::new(by)).annotate(bitwidth)
    }

    /// A choice between two expressions. The result has the width of the
    /// first branch; that the second has the same is the caller's business.
    pub fn if_else(condition: BooleanExpression, consequence: Self, alternative: Self) -> (e:
        UExpression)
        ensures
            e == annotated(
                UExpressionInner::IfElse(
                    Box::new(condition),
                    Box::new(consequence),
                    Box::new(alternative),
                ),
                consequence.bitwidth,
            ),
            e.bitwidth == consequence.bitwidth,
            consequence.widths_agree() && alternative.widths_agree() && alternative.bitwidth
                == consequence.bitwidth ==> e.widths_agree(),
    {
        let bitwidth = consequence.bitwidth;
        UExpressionInner::IfElse(
            Box::new(condition),
            Box::new(consequence),
            Box::new(alternative),
        ).annotate(bitwidth)
    }

    /// The same node with the given metadata in place of what it had. Width
    /// and shape stay: nothing but this changes a node once it is built.
    pub fn metadata(self, metadata: UMetadata) -> (e: UExpression)
        ensures
            e == (UExpression { metadata: Some(metadata), ..self }),
            e.bitwidth == self.bitwidth,
            e.inner == self.inner,
            e.widths_agree() == self.widths_agree(),
    {
        UExpression { metadata: Some(metadata), ..self }
    }

    /// The declared width.
    pub fn bitwidth(&self) -> (w: UBitwidth)
        ensures
            w == self.bitwidth,
    {
        self.bitwidth
    }

    /// The shape, borrowed.
    pub fn as_inner(&self) -> (inner: &UExpressionInner)
        ensures
            *inner == self.inner,
    {
        &self.inner
    }

    /// The shape, without width and metadata.
    pub fn into_inner(self) -> (inner: UExpressionInner)
        ensures
            inner == self.inner,
    {
        self.inner
    }
}

/// How many bits it takes to write a number: none for zero, and for any
/// other number one more than for its half.
pub open spec fn bit_length(a: nat) -> nat
    decreases a,
{
    if a == 0 {
        0
    } else {
        1 + bit_length(a / 2)
    }
}

/// The number lies below `2^n` for its bit length `n`, and not below
/// `2^(n-1)` unless it is zero: the bit length is the least width that holds
/// it.
pub proof fn law_bit_length(a: nat)
    ensures
        a < pow2(bit_length(a)),
        a > 0 ==> pow2((bit_length(a) - 1) as nat) <= a,
    decreases a,
{
    if a == 0 {
        lemma2_to64();
    } else {
        law_bit_length(a / 2);
        lemma_pow2_unfold(bit_length(a));
        if a / 2 > 0 {
            lemma_pow2_unfold(bit_length(a / 2));
        } else {
            lemma2_to64();
        }
    }
}

/// `u128::leading_zeros`: the number of zero bits above the highest bit that
/// is set, which is all 128 for zero.
#[verifier::external_body]
fn leading_zeros(a: u128) -> (zeros: u32)
    ensures
        zeros == 128 - bit_length(a as nat),
{
    a.leading_zeros()
}

/// The least number of bits that hold the value.
pub fn bitwidth(a: u128) -> (bits: usize)
    ensures
        bits == bit_length(a as nat),
{
    (128 - leading_zeros(a)) as usize
}

impl From<u128> for UExpressionInner {
    /// A literal.
    fn from(e: u128) -> (inner: Self) {
        UExpressionInner::Value(e)
    }
}

impl FromSpecImpl<u128> for UExpressionInner {
    open spec fn obeys_from_spec() -> bool {
        true
    }

    open spec fn from_spec(e: u128) -> Self {
        UExpressionInner::Value(e)
    }
}

impl<'a> From<&'a str> for UExpressionInner {
    /// A variable of the given name.
    fn from(e: &'a str) -> (inner: Self)
        ensures
            inner matches UExpressionInner::Identifier(id) && id.name@ == e@,
    {
        UExpressionInner::Identifier(Identifier { name: e.to_owned() })
    }
}

impl<'a> FromSpecImpl<&'a str> for UExpressionInner {
    /// The result is told by the text of its name, which the `ensures` of
    /// `from` states; no one value is singled out here.
    open spec fn obeys_from_spec() -> bool {
        false
    }

    open spec fn from_spec(e: &'a str) -> Self {
        arbitrary()
    }
}

impl From<u32> for UExpression {
    /// A literal of 32 bits.
    fn from(u: u32) -> (e: Self) {
        UExpressionInner::Value(u as u128).annotate(UBitwidth::B32)
    }
}

impl FromSpecImpl<u32> for UExpression {
    open spec fn obeys_from_spec() -> bool {
        true
    }

    open spec fn from_spec(u: u32) -> Self {
        annotated(UExpressionInner::Value(u as u128), UBitwidth::B32)
    }
}

} // verus!
