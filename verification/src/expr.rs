//! The expression trees.
//!
//! Every kind of value has its own tree: field elements, booleans, arrays,
//! structs, integers that no width has been chosen for yet, and unsigned
//! integers of a declared width. A node owns its operands: these are trees,
//! without sharing and without cycles.

use crate::types::{FunctionKey, Identifier, MemberId, UBitwidth};
use num_bigint::BigUint;
use vstd::prelude::*;

verus! {

/// An expression whose value is a field element.
#[derive(Debug, PartialEq, Eq, Hash)]
pub enum FieldElementExpression {
    Number(BigUint),
    Identifier(Identifier),
    Add(Box<FieldElementExpression>, Box<FieldElementExpression>),
    Sub(Box<FieldElementExpression>, Box<FieldElementExpression>),
    Mult(Box<FieldElementExpression>, Box<FieldElementExpression>),
    Div(Box<FieldElementExpression>, Box<FieldElementExpression>),
    Pow(Box<FieldElementExpression>, Box<FieldElementExpression>),
    IfElse(Box<BooleanExpression>, Box<FieldElementExpression>, Box<FieldElementExpression>),
    FunctionCall(FunctionKey, Vec<TypedExpression>),
    Member(Box<StructExpression>, MemberId),
    Select(Box<ArrayExpression>, Box<FieldElementExpression>),
}

/// An expression whose value is a boolean.
#[derive(Debug, PartialEq, Eq, Hash)]
pub enum BooleanExpression {
    Identifier(Identifier),
    Value(bool),
    FieldLt(Box<FieldElementExpression>, Box<FieldElementExpression>),
    FieldEq(Box<FieldElementExpression>, Box<FieldElementExpression>),
    UintLt(Box<UExpression>, Box<UExpression>),
    UintEq(Box<UExpression>, Box<UExpression>),
    Or(Box<BooleanExpression>, Box<BooleanExpression>),
    And(Box<BooleanExpression>, Box<BooleanExpression>),
    Not(Box<BooleanExpression>),
    IfElse(Box<BooleanExpression>, Box<BooleanExpression>, Box<BooleanExpression>),
    FunctionCall(FunctionKey, Vec<TypedExpression>),
    Member(Box<StructExpression>, MemberId),
    Select(Box<ArrayExpression>, Box<FieldElementExpression>),
}

/// An expression whose value is an array.
#[derive(Debug, PartialEq, Eq, Hash)]
pub enum ArrayExpression {
    Identifier(Identifier),
    Value(Vec<TypedExpression>),
    FunctionCall(FunctionKey, Vec<TypedExpression>),
    IfElse(Box<BooleanExpression>, Box<ArrayExpression>, Box<ArrayExpression>),
    Member(Box<StructExpression>, MemberId),
    Select(Box<ArrayExpression>, Box<FieldElementExpression>),
}

/// An expression whose value is a struct.
#[derive(Debug, PartialEq, Eq, Hash)]
pub enum StructExpression {
    Identifier(Identifier),
    Value(Vec<TypedExpression>),
    FunctionCall(FunctionKey, Vec<TypedExpression>),
    IfElse(Box<BooleanExpression>, Box<StructExpression>, Box<StructExpression>),
    Member(Box<StructExpression>, MemberId),
    Select(Box<ArrayExpression>, Box<FieldElementExpression>),
}

/// An integer expression that no width has been chosen for yet: a literal,
/// or arithmetic over literals.
#[derive(Debug, PartialEq, Eq, Hash)]
pub enum IntExpression {
    Value(BigUint),
    Add(Box<IntExpression>, Box<IntExpression>),
    Sub(Box<IntExpression>, Box<IntExpression>),
    Mult(Box<IntExpression>, Box<IntExpression>),
    Div(Box<IntExpression>, Box<IntExpression>),
    Pow(Box<IntExpression>, Box<IntExpression>),
    IfElse(Box<BooleanExpression>, Box<IntExpression>, Box<IntExpression>),
    Select(Box<ArrayExpression>, Box<FieldElementExpression>),
    Xor(Box<IntExpression>, Box<IntExpression>),
    And(Box<IntExpression>, Box<IntExpression>),
    Or(Box<IntExpression>, Box<IntExpression>),
    LeftShift(Box<IntExpression>, Box<FieldElementExpression>),
    RightShift(Box<IntExpression>, Box<FieldElementExpression>),
}

/// An expression of any kind.
#[derive(Debug, PartialEq, Eq, Hash)]
pub enum TypedExpression {
    Boolean(BooleanExpression),
    FieldElement(FieldElementExpression),
    Uint(UExpression),
    Array(ArrayExpression),
    Struct(StructExpression),
    Int(IntExpression),
}

/// What an analysis has found out about an unsigned expression. A missing
/// record, or a missing entry, means that nothing is known yet.
#[derive(Clone, Debug, PartialEq, Eq, Hash)]
pub struct UMetadata {
    /// A number of bits that the value is known to fit in.
    pub bitwidth: Option<usize>,
    /// Whether the value has to be reduced to its declared width before use.
    pub should_reduce: Option<bool>,
}

/// An unsigned-integer expression with its declared width.
#[derive(Debug, PartialEq, Eq, Hash)]
pub struct UExpression {
    pub bitwidth: UBitwidth,
    pub metadata: Option<UMetadata>,
    pub inner: UExpressionInner,
}

/// The shape of an unsigned-integer expression.
#[derive(Debug, PartialEq, Eq, Hash)]
pub enum UExpressionInner {
    Identifier(Identifier),
    Value(u128),
    Add(Box<UExpression>, Box<UExpression>),
    Sub(Box<UExpression>, Box<UExpression>),
    Mult(Box<UExpression>, Box<UExpression>),
    Xor(Box<UExpression>, Box<UExpression>),
    And(Box<UExpression>, Box<UExpression>),
    Or(Box<UExpression>, Box<UExpression>),
    Not(Box<UExpression>),
    LeftShift(Box<UExpression>, Box<FieldElementExpression>),
    RightShift(Box<UExpression>, Box<FieldElementExpression>),
    FunctionCall(FunctionKey, Vec<TypedExpression>),
    IfElse(Box<BooleanExpression>, Box<UExpression>, Box<UExpression>),
    Member(Box<StructExpression>, MemberId),
    Select(Box<ArrayExpression>, Box<FieldElementExpression>),
}

} // verus!
