//! Expressions written out the way the language writes them.
//!
//! `shown` says, for each kind of expression, which text stands for it;
//! `to_string` produces that text.

use crate::bigint::{big_to_decimal, magnitude};
use crate::expr::{
    ArrayExpression, BooleanExpression, FieldElementExpression, IntExpression, StructExpression,
    TypedExpression, UExpression, UExpressionInner,
};
use crate::text::{decimal, decimal_text, enclosed, enclosed_text, truth, truth_text};
use vstd::prelude::*;
use vstd::string::*;

verus! {

/// An unsigned literal: the value, `u`, and the number of bits.
pub open spec fn literal(value: Seq<char>, bits: Seq<char>) -> Seq<char> {
    value + "u"@ + bits
}

/// Two operands around an operator, in brackets.
pub open spec fn infix(left: Seq<char>, operator: Seq<char>, right: Seq<char>) -> Seq<char> {
    "("@ + left + operator + right + ")"@
}

/// Two operands around an operator, without brackets.
pub open spec fn joined(left: Seq<char>, operator: Seq<char>, right: Seq<char>) -> Seq<char> {
    left + operator + right
}

/// The complement of an operand.
pub open spec fn negation(operand: Seq<char>) -> Seq<char> {
    "!"@ + operand
}

/// A choice between two branches.
pub open spec fn choice(
    condition: Seq<char>,
    consequence: Seq<char>,
    alternative: Seq<char>,
) -> Seq<char> {
    "if "@ + condition + " then "@ + consequence + " else "@ + alternative + " fi"@
}

/// A call: the function's name, then the arguments in brackets.
pub open spec fn call(name: Seq<char>, arguments: Seq<char>) -> Seq<char> {
    name + "("@ + arguments + ")"@
}

/// A field of a struct.
pub open spec fn member(of: Seq<char>, field: Seq<char>) -> Seq<char> {
    of + "."@ + field
}

/// An element of an array.
pub open spec fn selection(of: Seq<char>, index: Seq<char>) -> Seq<char> {
    of + "["@ + index + "]"@
}

fn literal_text(value: String, bits: String) -> (s: String)
    ensures
        s@ == literal(value@, bits@),
{
    let mut s = value;
    s.append("u");
    s.append(bits.as_str());
    s
}

fn infix_text(left: String, operator: &str, right: String) -> (s: String)
    ensures
        s@ == infix(left@, operator@, right@),
{
    let mut s = "(".to_owned();
    s.append(left.as_str());
    s.append(operator);
    s.append(right.as_str());
    s.append(")");
    s
}

fn joined_text(left: String, operator: &str, right: String) -> (s: String)
    ensures
        s@ == joined(left@, operator@, right@),
{
    let mut s = left;
    s.append(operator);
    s.append(right.as_str());
    s
}

fn negation_text(operand: String) -> (s: String)
    ensures
        s@ == negation(operand@),
{
    let mut s = "!".to_owned();
    s.append(operand.as_str());
    s
}

fn choice_text(condition: String, consequence: String, alternative: String) -> (s: String)
    ensures
        s@ == choice(condition@, consequence@, alternative@),
{
    let mut s = "if ".to_owned();
    s.append(condition.as_str());
    s.append(" then ");
    s.append(consequence.as_str());
    s.append(" else ");
    s.append(alternative.as_str());
    s.append(" fi");
    s
}

fn call_text(name: &str, arguments: String) -> (s: String)
    ensures
        s@ == call(name@, arguments@),
{
    let mut s = name.to_owned();
    s.append("(");
    s.append(arguments.as_str());
    s.append(")");
    s
}

fn member_text(of: String, field: &str) -> (s: String)
    ensures
        s@ == member(of@, field@),
{
    let mut s = of;
    s.append(".");
    s.append(field);
    s
}

fn selection_text(of: String, index: String) -> (s: String)
    ensures
        s@ == selection(of@, index@),
{
    let mut s = of;
    s.append("[");
    s.append(index.as_str());
    s.append("]");
    s
}

/// Expressions one after the other, with a comma and a space between two of
/// them and nothing after the last.
pub open spec fn shown_list(list: Seq<TypedExpression>) -> Seq<char>
    decreases list,
{
    if list.len() == 0 {
        Seq::empty()
    } else if list.len() == 1 {
        list[0].shown()
    } else {
        shown_list(list.drop_last()) + ", "@ + list.last().shown()
    }
}

fn list_text(list: &Vec<TypedExpression>) -> (s: String)
    ensures
        s@ == shown_list(list@),
    decreases *list,
{
    let mut s = String::new();
    let mut i: usize = 0;
    while i < list.len()
        invariant
            i <= list.len(),
            s@ == shown_list(list@.take(i as int)),
        decreases list.len() - i,
    {
        if i > 0 {
            s.append(", ");
        }
        let item = list[i].to_string();
        s.append(item.as_str());
        i += 1;
        proof {
            let done = list@.take(i as int);
            assert(done.drop_last() =~= list@.take(i - 1));
            assert(done.last() == list@[i - 1]);
            assert(s@ =~= shown_list(done));
        }
    }
    assert(list@.take(i as int) =~= list@);
    s
}

impl TypedExpression {
    pub open spec fn shown(self) -> Seq<char>
        decreases self,
    {
        match self {
            TypedExpression::Boolean(e) => e.shown(),
            TypedExpression::FieldElement(e) => e.shown(),
            TypedExpression::Uint(e) => e.shown(),
            TypedExpression::Array(e) => e.shown(),
            TypedExpression::Struct(e) => e.shown(),
            TypedExpression::Int(e) => e.shown(),
        }
    }

    /// The expression as the language writes it.
    pub fn to_string(&self) -> (s: String)
        ensures
            s@ == self.shown(),
        decreases *self,
    {
        match self {
            TypedExpression::Boolean(e) => e.to_string(),
            TypedExpression::FieldElement(e) => e.to_string(),
            TypedExpression::Uint(e) => e.to_string(),
            TypedExpression::Array(e) => e.to_string(),
            TypedExpression::Struct(e) => e.to_string(),
            TypedExpression::Int(e) => e.to_string(),
        }
    }
}

impl UExpression {
    /// A literal is its value, `u`, and the width; an operator with two
    /// operands stands between them, in brackets.
    pub open spec fn shown(self) -> Seq<char>
        decreases self,
    {
        match self.inner {
            UExpressionInner::Value(v) => literal(
                decimal(v as nat),
                decimal(self.bitwidth.bits()),
            ),
            UExpressionInner::Identifier(id) => id.name@,
            UExpressionInner::Add(l, r) => infix(l.shown(), " + "@, r.shown()),
            UExpressionInner::And(l, r) => infix(l.shown(), " & "@, r.shown()),
            UExpressionInner::Or(l, r) => infix(l.shown(), " | "@, r.shown()),
            UExpressionInner::Xor(l, r) => infix(l.shown(), " ^ "@, r.shown()),
            UExpressionInner::Sub(l, r) => infix(l.shown(), " - "@, r.shown()),
            UExpressionInner::Mult(l, r) => infix(l.shown(), " * "@, r.shown()),
            UExpressionInner::RightShift(e, by) => infix(e.shown(), " >> "@, by.shown()),
            UExpressionInner::LeftShift(e, by) => infix(e.shown(), " << "@, by.shown()),
            UExpressionInner::Not(e) => negation(e.shown()),
            UExpressionInner::Select(a, index) => selection(a.shown(), index.shown()),
            UExpressionInner::FunctionCall(key, arguments) => call(
                key.id@,
                shown_list(arguments@),
            ),
            UExpressionInner::IfElse(c, l, r) => choice(c.shown(), l.shown(), r.shown()),
            UExpressionInner::Member(s, field) => member(s.shown(), field@),
        }
    }

    /// The expression as the language writes it.
    pub fn to_string(&self) -> (s: String)
        ensures
            s@ == self.shown(),
        decreases *self,
    {
        match &self.inner {
            UExpressionInner::Value(v) => literal_text(
                decimal_text(*v),
                decimal_text(self.bitwidth.to_usize() as u128),
            ),
            UExpressionInner::Identifier(id) => id.name.clone(),
            UExpressionInner::Add(l, r) => infix_text(l.to_string(), " + ", r.to_string()),
            UExpressionInner::And(l, r) => infix_text(l.to_string(), " & ", r.to_string()),
            UExpressionInner::Or(l, r) => infix_text(l.to_string(), " | ", r.to_string()),
            UExpressionInner::Xor(l, r) => infix_text(l.to_string(), " ^ ", r.to_string()),
            UExpressionInner::Sub(l, r) => infix_text(l.to_string(), " - ", r.to_string()),
            UExpressionInner::Mult(l, r) => infix_text(l.to_string(), " * ", r.to_string()),
            UExpressionInner::RightShift(e, by) => infix_text(
                e.to_string(),
                " >> ",
                by.to_string(),
            ),
            UExpressionInner::LeftShift(e, by) => infix_text(
                e.to_string(),
                " << ",
                by.to_string(),
            ),
            UExpressionInner::Not(e) => negation_text(e.to_string()),
            UExpressionInner::Select(a, index) => selection_text(a.to_string(), index.to_string()),
            UExpressionInner::FunctionCall(key, arguments) => call_text(
                key.id.as_str(),
                list_text(arguments),
            ),
            UExpressionInner::IfElse(c, l, r) => choice_text(
                c.to_string(),
                l.to_string(),
                r.to_string(),
            ),
            UExpressionInner::Member(s, field) => member_text(s.to_string(), field.as_str()),
        }
    }
}

impl FieldElementExpression {
    pub open spec fn shown(self) -> Seq<char>
        decreases self,
    {
        match self {
            FieldElementExpression::Number(n) => decimal(magnitude(n)),
            FieldElementExpression::Identifier(id) => id.name@,
            FieldElementExpression::Add(l, r) => infix(l.shown(), " + "@, r.shown()),
            FieldElementExpression::Sub(l, r) => infix(l.shown(), " - "@, r.shown()),
            FieldElementExpression::Mult(l, r) => infix(l.shown(), " * "@, r.shown()),
            FieldElementExpression::Div(l, r) => infix(l.shown(), " / "@, r.shown()),
            FieldElementExpression::Pow(l, r) => joined(l.shown(), "**"@, r.shown()),
            FieldElementExpression::IfElse(c, l, r) => choice(c.shown(), l.shown(), r.shown()),
            FieldElementExpression::FunctionCall(key, arguments) => call(
                key.id@,
                shown_list(arguments@),
            ),
            FieldElementExpression::Member(s, field) => member(s.shown(), field@),
            FieldElementExpression::Select(a, index) => selection(a.shown(), index.shown()),
        }
    }

    /// The expression as the language writes it.
    pub fn to_string(&self) -> (s: String)
        ensures
            s@ == self.shown(),
        decreases *self,
    {
        match self {
            FieldElementExpression::Number(n) => big_to_decimal(n),
            FieldElementExpression::Identifier(id) => id.name.clone(),
            FieldElementExpression::Add(l, r) => infix_text(l.to_string(), " + ", r.to_string()),
            FieldElementExpression::Sub(l, r) => infix_text(l.to_string(), " - ", r.to_string()),
            FieldElementExpression::Mult(l, r) => infix_text(l.to_string(), " * ", r.to_string()),
            FieldElementExpression::Div(l, r) => infix_text(l.to_string(), " / ", r.to_string()),
            FieldElementExpression::Pow(l, r) => joined_text(l.to_string(), "**", r.to_string()),
            FieldElementExpression::IfElse(c, l, r) => choice_text(
                c.to_string(),
                l.to_string(),
                r.to_string(),
            ),
            FieldElementExpression::FunctionCall(key, arguments) => call_text(
                key.id.as_str(),
                list_text(arguments),
            ),
            FieldElementExpression::Member(s, field) => member_text(s.to_string(), field.as_str()),
            FieldElementExpression::Select(a, index) => selection_text(
                a.to_string(),
                index.to_string(),
            ),
        }
    }
}

impl BooleanExpression {
    pub open spec fn shown(self) -> Seq<char>
        decreases self,
    {
        match self {
            BooleanExpression::Identifier(id) => id.name@,
            BooleanExpression::Value(b) => truth(b),
            BooleanExpression::FieldLt(l, r) => joined(l.shown(), " < "@, r.shown()),
            BooleanExpression::FieldEq(l, r) => joined(l.shown(), " == "@, r.shown()),
            BooleanExpression::UintLt(l, r) => joined(l.shown(), " < "@, r.shown()),
            BooleanExpression::UintEq(l, r) => joined(l.shown(), " == "@, r.shown()),
            BooleanExpression::Or(l, r) => joined(l.shown(), " || "@, r.shown()),
            BooleanExpression::And(l, r) => joined(l.shown(), " && "@, r.shown()),
            BooleanExpression::Not(e) => negation(e.shown()),
            BooleanExpression::IfElse(c, l, r) => choice(c.shown(), l.shown(), r.shown()),
            BooleanExpression::FunctionCall(key, arguments) => call(
                key.id@,
                shown_list(arguments@),
            ),
            BooleanExpression::Member(s, field) => member(s.shown(), field@),
            BooleanExpression::Select(a, index) => selection(a.shown(), index.shown()),
        }
    }

    /// The expression as the language writes it.
    pub fn to_string(&self) -> (s: String)
        ensures
            s@ == self.shown(),
        decreases *self,
    {
        match self {
            BooleanExpression::Identifier(id) => id.name.clone(),
            BooleanExpression::Value(b) => truth_text(*b),
            BooleanExpression::FieldLt(l, r) => joined_text(l.to_string(), " < ", r.to_string()),
            BooleanExpression::FieldEq(l, r) => joined_text(l.to_string(), " == ", r.to_string()),
            BooleanExpression::UintLt(l, r) => joined_text(l.to_string(), " < ", r.to_string()),
            BooleanExpression::UintEq(l, r) => joined_text(l.to_string(), " == ", r.to_string()),
            BooleanExpression::Or(l, r) => joined_text(l.to_string(), " || ", r.to_string()),
            BooleanExpression::And(l, r) => joined_text(l.to_string(), " && ", r.to_string()),
            BooleanExpression::Not(e) => negation_text(e.to_string()),
            BooleanExpression::IfElse(c, l, r) => choice_text(
                c.to_string(),
                l.to_string(),
                r.to_string(),
            ),
            BooleanExpression::FunctionCall(key, arguments) => call_text(
                key.id.as_str(),
                list_text(arguments),
            ),
            BooleanExpression::Member(s, field) => member_text(s.to_string(), field.as_str()),
            BooleanExpression::Select(a, index) => selection_text(
                a.to_string(),
                index.to_string(),
            ),
        }
    }
}

impl ArrayExpression {
    pub open spec fn shown(self) -> Seq<char>
        decreases self,
    {
        match self {
            ArrayExpression::Identifier(id) => id.name@,
            ArrayExpression::Value(elements) => enclosed("["@, shown_list(elements@), "]"@),
            ArrayExpression::FunctionCall(key, arguments) => call(key.id@, shown_list(arguments@)),
            ArrayExpression::IfElse(c, l, r) => choice(c.shown(), l.shown(), r.shown()),
            ArrayExpression::Member(s, field) => member(s.shown(), field@),
            ArrayExpression::Select(a, index) => selection(a.shown(), index.shown()),
        }
    }

    /// The expression as the language writes it.
    pub fn to_string(&self) -> (s: String)
        ensures
            s@ == self.shown(),
        decreases *self,
    {
        match self {
            ArrayExpression::Identifier(id) => id.name.clone(),
            ArrayExpression::Value(elements) => enclosed_text("[", list_text(elements), "]"),
            ArrayExpression::FunctionCall(key, arguments) => call_text(
                key.id.as_str(),
                list_text(arguments),
            ),
            ArrayExpression::IfElse(c, l, r) => choice_text(
                c.to_string(),
                l.to_string(),
                r.to_string(),
            ),
            ArrayExpression::Member(s, field) => member_text(s.to_string(), field.as_str()),
            ArrayExpression::Select(a, index) => selection_text(a.to_string(), index.to_string()),
        }
    }
}

impl StructExpression {
    pub open spec fn shown(self) -> Seq<char>
        decreases self,
    {
        match self {
            StructExpression::Identifier(id) => id.name@,
            StructExpression::Value(fields) => enclosed("{"@, shown_list(fields@), "}"@),
            StructExpression::FunctionCall(key, arguments) => call(
                key.id@,
                shown_list(arguments@),
            ),
            StructExpression::IfElse(c, l, r) => choice(c.shown(), l.shown(), r.shown()),
            StructExpression::Member(s, field) => member(s.shown(), field@),
            StructExpression::Select(a, index) => selection(a.shown(), index.shown()),
        }
    }

    /// The expression as the language writes it.
    pub fn to_string(&self) -> (s: String)
        ensures
            s@ == self.shown(),
        decreases *self,
    {
        match self {
            StructExpression::Identifier(id) => id.name.clone(),
            StructExpression::Value(fields) => enclosed_text("{", list_text(fields), "}"),
            StructExpression::FunctionCall(key, arguments) => call_text(
                key.id.as_str(),
                list_text(arguments),
            ),
            StructExpression::IfElse(c, l, r) => choice_text(
                c.to_string(),
                l.to_string(),
                r.to_string(),
            ),
            StructExpression::Member(s, field) => member_text(s.to_string(), field.as_str()),
            StructExpression::Select(a, index) => selection_text(a.to_string(), index.to_string()),
        }
    }
}

impl IntExpression {
    pub open spec fn shown(self) -> Seq<char>
        decreases self,
    {
        match self {
            IntExpression::Value(v) => decimal(magnitude(v)),
            IntExpression::Add(l, r) => infix(l.shown(), " + "@, r.shown()),
            IntExpression::Sub(l, r) => infix(l.shown(), " - "@, r.shown()),
            IntExpression::Mult(l, r) => infix(l.shown(), " * "@, r.shown()),
            IntExpression::Div(l, r) => infix(l.shown(), " / "@, r.shown()),
            IntExpression::Pow(l, r) => infix(l.shown(), " ** "@, r.shown()),
            IntExpression::IfElse(c, l, r) => choice(c.shown(), l.shown(), r.shown()),
            IntExpression::Select(a, index) => selection(a.shown(), index.shown()),
            IntExpression::Xor(l, r) => infix(l.shown(), " ^ "@, r.shown()),
            IntExpression::And(l, r) => infix(l.shown(), " & "@, r.shown()),
            IntExpression::Or(l, r) => infix(l.shown(), " | "@, r.shown()),
            IntExpression::LeftShift(e, by) => infix(e.shown(), " << "@, by.shown()),
            IntExpression::RightShift(e, by) => infix(e.shown(), " >> "@, by.shown()),
        }
    }

    /// The expression as the language writes it.
    pub fn to_string(&self) -> (s: String)
        ensures
            s@ == self.shown(),
        decreases *self,
    {
        match self {
            IntExpression::Value(v) => big_to_decimal(v),
            IntExpression::Add(l, r) => infix_text(l.to_string(), " + ", r.to_string()),
            IntExpression::Sub(l, r) => infix_text(l.to_string(), " - ", r.to_string()),
            IntExpression::Mult(l, r) => infix_text(l.to_string(), " * ", r.to_string()),
            IntExpression::Div(l, r) => infix_text(l.to_string(), " / ", r.to_string()),
            IntExpression::Pow(l, r) => infix_text(l.to_string(), " ** ", r.to_string()),
            IntExpression::IfElse(c, l, r) => choice_text(
                c.to_string(),
                l.to_string(),
                r.to_string(),
            ),
            IntExpression::Select(a, index) => selection_text(a.to_string(), index.to_string()),
            IntExpression::Xor(l, r) => infix_text(l.to_string(), " ^ ", r.to_string()),
            IntExpression::And(l, r) => infix_text(l.to_string(), " & ", r.to_string()),
            IntExpression::Or(l, r) => infix_text(l.to_string(), " | ", r.to_string()),
            IntExpression::LeftShift(e, by) => infix_text(e.to_string(), " << ", by.to_string()),
            IntExpression::RightShift(e, by) => infix_text(e.to_string(), " >> ", by.to_string()),
        }
    }
}

} // verus!
