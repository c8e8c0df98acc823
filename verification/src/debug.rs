//! Expressions written out as structures, for diagnostics.
//!
//! `debug_form` names each node and lists its operands: `Add(l, r)` where
//! the language writes `(l + r)`. An unsigned expression is written with all
//! of its parts, the width and the metadata too.

use crate::bigint::{big_to_decimal, magnitude};
use crate::expr::{
    ArrayExpression, BooleanExpression, FieldElementExpression, IntExpression, StructExpression,
    TypedExpression, UExpression, UExpressionInner, UMetadata,
};
use crate::text::{decimal, decimal_text, enclosed, enclosed_text, truth, truth_text};
use crate::types::UBitwidth;
use vstd::prelude::*;
use vstd::string::*;

verus! {

/// A node with one operand: its name with the opening bracket, the operand,
/// and the closing bracket.
pub open spec fn node(opening: Seq<char>, operand: Seq<char>) -> Seq<char> {
    opening + operand + ")"@
}

/// A node with two operands.
pub open spec fn node2(opening: Seq<char>, first: Seq<char>, second: Seq<char>) -> Seq<char> {
    opening + first + ", "@ + second + ")"@
}

/// A node with three operands.
pub open spec fn node3(
    opening: Seq<char>,
    first: Seq<char>,
    second: Seq<char>,
    third: Seq<char>,
) -> Seq<char> {
    opening + first + ", "@ + second + ", "@ + third + ")"@
}

/// A call: the function's name, then the list of the arguments after an
/// opening round bracket, which is not closed again.
pub open spec fn open_call(name: Seq<char>, arguments: Seq<char>) -> Seq<char> {
    "FunctionCall("@ + name + ", (["@ + arguments + "])"@
}

fn node_text(opening: &str, operand: String) -> (s: String)
    ensures
        s@ == node(opening@, operand@),
{
    let mut s = opening.to_owned();
    s.append(operand.as_str());
    s.append(")");
    s
}

fn node2_text(opening: &str, first: String, second: String) -> (s: String)
    ensures
        s@ == node2(opening@, first@, second@),
{
    let mut s = opening.to_owned();
    s.append(first.as_str());
    s.append(", ");
    s.append(second.as_str());
    s.append(")");
    s
}

fn node3_text(opening: &str, first: String, second: String, third: String) -> (s: String)
    ensures
        s@ == node3(opening@, first@, second@, third@),
{
    let mut s = opening.to_owned();
    s.append(first.as_str());
    s.append(", ");
    s.append(second.as_str());
    s.append(", ");
    s.append(third.as_str());
    s.append(")");
    s
}

fn open_call_text(name: &str, arguments: String) -> (s: String)
    ensures
        s@ == open_call(name@, arguments@),
{
    let mut s = "FunctionCall(".to_owned();
    s.append(name);
    s.append(", ([");
    s.append(arguments.as_str());
    s.append("])");
    s
}

/// Expressions one after the other, with a comma and a space between two of
/// them and nothing after the last.
pub open spec fn debug_list(list: Seq<TypedExpression>) -> Seq<char>
    decreases list,
{
    if list.len() == 0 {
        Seq::empty()
    } else if list.len() == 1 {
        list[0].debug_form()
    } else {
        debug_list(list.drop_last()) + ", "@ + list.last().debug_form()
    }
}

fn debug_list_text(list: &Vec<TypedExpression>) -> (s: String)
    ensures
        s@ == debug_list(list@),
    decreases *list,
{
    let mut s = String::new();
    let mut i: usize = 0;
    while i < list.len()
        invariant
            i <= list.len(),
            s@ == debug_list(list@.take(i as int)),
        decreases list.len() - i,
    {
        if i > 0 {
            s.append(", ");
        }
        let item = list[i].debug_string();
        s.append(item.as_str());
        i += 1;
        proof {
            let done = list@.take(i as int);
            assert(done.drop_last() =~= list@.take(i - 1));
            assert(done.last() == list@[i - 1]);
            assert(s@ =~= debug_list(done));
        }
    }
    assert(list@.take(i as int) =~= list@);
    s
}

impl UBitwidth {
    pub open spec fn debug_form(self) -> Seq<char> {
        match self {
            UBitwidth::B8 => "B8"@,
            UBitwidth::B16 => "B16"@,
            UBitwidth::B32 => "B32"@,
            UBitwidth::B64 => "B64"@,
        }
    }

    /// The width by its name.
    pub fn debug_string(&self) -> (s: String)
        ensures
            s@ == self.debug_form(),
    {
        match self {
            UBitwidth::B8 => "B8".to_owned(),
            UBitwidth::B16 => "B16".to_owned(),
            UBitwidth::B32 => "B32".to_owned(),
            UBitwidth::B64 => "B64".to_owned(),
        }
    }
}

/// An entry that may be missing.
pub open spec fn optional(entry: Option<Seq<char>>) -> Seq<char> {
    match entry {
        Some(text) => node("Some("@, text),
        None => "None"@,
    }
}

fn optional_text(entry: Option<String>) -> (s: String)
    ensures
        s@ == optional(
            match entry {
                Some(text) => Some(text@),
                None => None,
            },
        ),
{
    match entry {
        Some(text) => node_text("Some(", text),
        None => "None".to_owned(),
    }
}

/// The two entries of a metadata record.
pub open spec fn record(bitwidth: Seq<char>, should_reduce: Seq<char>) -> Seq<char> {
    "UMetadata { bitwidth: "@ + bitwidth + ", should_reduce: "@ + should_reduce + " }"@
}

/// The three parts of an unsigned expression.
pub open spec fn parts(bitwidth: Seq<char>, metadata: Seq<char>, inner: Seq<char>) -> Seq<char> {
    "UExpression { bitwidth: "@ + bitwidth + ", metadata: "@ + metadata + ", inner: "@ + inner
        + " }"@
}

impl UMetadata {
    pub open spec fn debug_form(self) -> Seq<char> {
        record(
            optional(
                match self.bitwidth {
                    Some(bits) => Some(decimal(bits as nat)),
                    None => None,
                },
            ),
            optional(
                match self.should_reduce {
                    Some(b) => Some(truth(b)),
                    None => None,
                },
            ),
        )
    }

    /// The record with both of its entries.
    pub fn debug_string(&self) -> (s: String)
        ensures
            s@ == self.debug_form(),
    {
        let bitwidth = optional_text(
            match self.bitwidth {
                Some(bits) => Some(decimal_text(bits as u128)),
                None => None,
            },
        );
        let should_reduce = optional_text(
            match self.should_reduce {
                Some(b) => Some(truth_text(b)),
                None => None,
            },
        );
        let mut s = "UMetadata { bitwidth: ".to_owned();
        s.append(bitwidth.as_str());
        s.append(", should_reduce: ");
        s.append(should_reduce.as_str());
        s.append(" }");
        s
    }
}

impl UExpression {
    /// An unsigned expression with all of its parts.
    pub open spec fn debug_form(self) -> Seq<char>
        decreases self,
    {
        parts(
            self.bitwidth.debug_form(),
            optional(
                match self.metadata {
                    Some(m) => Some(m.debug_form()),
                    None => None,
                },
            ),
            self.inner.debug_form(),
        )
    }

    /// The expression as a structure, for diagnostics.
    pub fn debug_string(&self) -> (s: String)
        ensures
            s@ == self.debug_form(),
        decreases *self,
    {
        let bitwidth = self.bitwidth.debug_string();
        let metadata = optional_text(
            match &self.metadata {
                Some(m) => Some(m.debug_string()),
                None => None,
            },
        );
        let inner = self.inner.debug_string();
        let mut s = "UExpression { bitwidth: ".to_owned();
        s.append(bitwidth.as_str());
        s.append(", metadata: ");
        s.append(metadata.as_str());
        s.append(", inner: ");
        s.append(inner.as_str());
        s.append(" }");
        s
    }
}

impl TypedExpression {
    pub open spec fn debug_form(self) -> Seq<char>
        decreases self,
    {
        match self {
            TypedExpression::Boolean(e) => node("Boolean("@, e.debug_form()),
            TypedExpression::FieldElement(e) => node("FieldElement("@, e.debug_form()),
            TypedExpression::Uint(e) => node("Uint("@, e.debug_form()),
            TypedExpression::Array(e) => node("Array("@, e.debug_form()),
            TypedExpression::Struct(e) => node("Struct("@, e.debug_form()),
            TypedExpression::Int(e) => node("Int("@, e.debug_form()),
        }
    }

    /// The expression as a structure, for diagnostics.
    pub fn debug_string(&self) -> (s: String)
        ensures
            s@ == self.debug_form(),
        decreases *self,
    {
        match self {
            TypedExpression::Boolean(e) => node_text("Boolean(", e.debug_string()),
            TypedExpression::FieldElement(e) => node_text("FieldElement(", e.debug_string()),
            TypedExpression::Uint(e) => node_text("Uint(", e.debug_string()),
            TypedExpression::Array(e) => node_text("Array(", e.debug_string()),
            TypedExpression::Struct(e) => node_text("Struct(", e.debug_string()),
            TypedExpression::Int(e) => node_text("Int(", e.debug_string()),
        }
    }
}

impl FieldElementExpression {
    pub open spec fn debug_form(self) -> Seq<char>
        decreases self,
    {
        match self {
            FieldElementExpression::Number(n) => node("Num("@, decimal(magnitude(n))),
            FieldElementExpression::Identifier(id) => node("Ide("@, id.name@),
            FieldElementExpression::Add(l, r) => node2("Add("@, l.debug_form(), r.debug_form()),
            FieldElementExpression::Sub(l, r) => node2("Sub("@, l.debug_form(), r.debug_form()),
            FieldElementExpression::Mult(l, r) => node2("Mult("@, l.debug_form(), r.debug_form()),
            FieldElementExpression::Div(l, r) => node2("Div("@, l.debug_form(), r.debug_form()),
            FieldElementExpression::Pow(l, r) => node2("Pow("@, l.debug_form(), r.debug_form()),
            FieldElementExpression::IfElse(c, l, r) => node3(
                "IfElse("@,
                c.debug_form(),
                l.debug_form(),
                r.debug_form(),
            ),
            FieldElementExpression::FunctionCall(key, arguments) => open_call(
                key.id@,
                debug_list(arguments@),
            ),
            FieldElementExpression::Member(s, field) => node2("Access("@, s.debug_form(), field@),
            FieldElementExpression::Select(a, index) => node2(
                "Select("@,
                a.debug_form(),
                index.debug_form(),
            ),
        }
    }

    /// The expression as a structure, for diagnostics.
    pub fn debug_string(&self) -> (s: String)
        ensures
            s@ == self.debug_form(),
        decreases *self,
    {
        match self {
            FieldElementExpression::Number(n) => node_text("Num(", big_to_decimal(n)),
            FieldElementExpression::Identifier(id) => node_text("Ide(", id.name.clone()),
            FieldElementExpression::Add(l, r) => node2_text(
                "Add(",
                l.debug_string(),
                r.debug_string(),
            ),
            FieldElementExpression::Sub(l, r) => node2_text(
                "Sub(",
                l.debug_string(),
                r.debug_string(),
            ),
            FieldElementExpression::Mult(l, r) => node2_text(
                "Mult(",
                l.debug_string(),
                r.debug_string(),
            ),
            FieldElementExpression::Div(l, r) => node2_text(
                "Div(",
                l.debug_string(),
                r.debug_string(),
            ),
            FieldElementExpression::Pow(l, r) => node2_text(
                "Pow(",
                l.debug_string(),
                r.debug_string(),
            ),
            FieldElementExpression::IfElse(c, l, r) => node3_text(
                "IfElse(",
                c.debug_string(),
                l.debug_string(),
                r.debug_string(),
            ),
            FieldElementExpression::FunctionCall(key, arguments) => open_call_text(
                key.id.as_str(),
                debug_list_text(arguments),
            ),
            FieldElementExpression::Member(s, field) => node2_text(
                "Access(",
                s.debug_string(),
                field.clone(),
            ),
            FieldElementExpression::Select(a, index) => node2_text(
                "Select(",
                a.debug_string(),
                index.debug_string(),
            ),
        }
    }
}

impl BooleanExpression {
    pub open spec fn debug_form(self) -> Seq<char>
        decreases self,
    {
        match self {
            BooleanExpression::Identifier(id) => node("Ide("@, id.name@),
            BooleanExpression::Value(b) => node("Value("@, truth(b)),
            BooleanExpression::FieldLt(l, r) => node2("FieldLt("@, l.debug_form(), r.debug_form()),
            BooleanExpression::FieldEq(l, r) => node2("FieldEq("@, l.debug_form(), r.debug_form()),
            BooleanExpression::UintLt(l, r) => node2("UintLt("@, l.debug_form(), r.debug_form()),
            BooleanExpression::UintEq(l, r) => node2("UintEq("@, l.debug_form(), r.debug_form()),
            BooleanExpression::Or(l, r) => node2("Or("@, l.debug_form(), r.debug_form()),
            BooleanExpression::And(l, r) => node2("And("@, l.debug_form(), r.debug_form()),
            BooleanExpression::Not(e) => node("Not("@, e.debug_form()),
            BooleanExpression::IfElse(c, l, r) => node3(
                "IfElse("@,
                c.debug_form(),
                l.debug_form(),
                r.debug_form(),
            ),
            BooleanExpression::FunctionCall(key, arguments) => open_call(
                key.id@,
                debug_list(arguments@),
            ),
            BooleanExpression::Member(s, field) => node2("Access("@, s.debug_form(), field@),
            BooleanExpression::Select(a, index) => node2(
                "Select("@,
                a.debug_form(),
                index.debug_form(),
            ),
        }
    }

    /// The expression as a structure, for diagnostics.
    pub fn debug_string(&self) -> (s: String)
        ensures
            s@ == self.debug_form(),
        decreases *self,
    {
        match self {
            BooleanExpression::Identifier(id) => node_text("Ide(", id.name.clone()),
            BooleanExpression::Value(b) => node_text("Value(", truth_text(*b)),
            BooleanExpression::FieldLt(l, r) => node2_text(
                "FieldLt(",
                l.debug_string(),
                r.debug_string(),
            ),
            BooleanExpression::FieldEq(l, r) => node2_text(
                "FieldEq(",
                l.debug_string(),
                r.debug_string(),
            ),
            BooleanExpression::UintLt(l, r) => node2_text(
                "UintLt(",
                l.debug_string(),
                r.debug_string(),
            ),
            BooleanExpression::UintEq(l, r) => node2_text(
                "UintEq(",
                l.debug_string(),
                r.debug_string(),
            ),
            BooleanExpression::Or(l, r) => node2_text("Or(", l.debug_string(), r.debug_string()),
            BooleanExpression::And(l, r) => node2_text("And(", l.debug_string(), r.debug_string()),
            BooleanExpression::Not(e) => node_text("Not(", e.debug_string()),
            BooleanExpression::IfElse(c, l, r) => node3_text(
                "IfElse(",
                c.debug_string(),
                l.debug_string(),
                r.debug_string(),
            ),
            BooleanExpression::FunctionCall(key, arguments) => open_call_text(
                key.id.as_str(),
                debug_list_text(arguments),
            ),
            BooleanExpression::Member(s, field) => node2_text(
                "Access(",
                s.debug_string(),
                field.clone(),
            ),
            BooleanExpression::Select(a, index) => node2_text(
                "Select(",
                a.debug_string(),
                index.debug_string(),
            ),
        }
    }
}

impl ArrayExpression {
    pub open spec fn debug_form(self) -> Seq<char>
        decreases self,
    {
        match self {
            ArrayExpression::Identifier(id) => node("Ide("@, id.name@),
            ArrayExpression::Value(elements) => enclosed("Value(["@, debug_list(elements@), "])"@),
            ArrayExpression::FunctionCall(key, arguments) => open_call(
                key.id@,
                debug_list(arguments@),
            ),
            ArrayExpression::IfElse(c, l, r) => node3(
                "IfElse("@,
                c.debug_form(),
                l.debug_form(),
                r.debug_form(),
            ),
            ArrayExpression::Member(s, field) => node2("Access("@, s.debug_form(), field@),
            ArrayExpression::Select(a, index) => node2(
                "Select("@,
                a.debug_form(),
                index.debug_form(),
            ),
        }
    }

    /// The expression as a structure, for diagnostics.
    pub fn debug_string(&self) -> (s: String)
        ensures
            s@ == self.debug_form(),
        decreases *self,
    {
        match self {
            ArrayExpression::Identifier(id) => node_text("Ide(", id.name.clone()),
            ArrayExpression::Value(elements) => enclosed_text(
                "Value([",
                debug_list_text(elements),
                "])",
            ),
            ArrayExpression::FunctionCall(key, arguments) => open_call_text(
                key.id.as_str(),
                debug_list_text(arguments),
            ),
            ArrayExpression::IfElse(c, l, r) => node3_text(
                "IfElse(",
                c.debug_string(),
                l.debug_string(),
                r.debug_string(),
            ),
            ArrayExpression::Member(s, field) => node2_text(
                "Access(",
                s.debug_string(),
                field.clone(),
            ),
            ArrayExpression::Select(a, index) => node2_text(
                "Select(",
                a.debug_string(),
                index.debug_string(),
            ),
        }
    }
}

impl StructExpression {
    pub open spec fn debug_form(self) -> Seq<char>
        decreases self,
    {
        match self {
            StructExpression::Identifier(id) => node("Ide("@, id.name@),
            StructExpression::Value(fields) => enclosed("Value(["@, debug_list(fields@), "])"@),
            StructExpression::FunctionCall(key, arguments) => open_call(
                key.id@,
                debug_list(arguments@),
            ),
            StructExpression::IfElse(c, l, r) => node3(
                "IfElse("@,
                c.debug_form(),
                l.debug_form(),
                r.debug_form(),
            ),
            StructExpression::Member(s, field) => node2("Access("@, s.debug_form(), field@),
            StructExpression::Select(a, index) => node2(
                "Select("@,
                a.debug_form(),
                index.debug_form(),
            ),
        }
    }

    /// The expression as a structure, for diagnostics.
    pub fn debug_string(&self) -> (s: String)
        ensures
            s@ == self.debug_form(),
        decreases *self,
    {
        match self {
            StructExpression::Identifier(id) => node_text("Ide(", id.name.clone()),
            StructExpression::Value(fields) => enclosed_text(
                "Value([",
                debug_list_text(fields),
                "])",
            ),
            StructExpression::FunctionCall(key, arguments) => open_call_text(
                key.id.as_str(),
                debug_list_text(arguments),
            ),
            StructExpression::IfElse(c, l, r) => node3_text(
                "IfElse(",
                c.debug_string(),
                l.debug_string(),
                r.debug_string(),
            ),
            StructExpression::Member(s, field) => node2_text(
                "Access(",
                s.debug_string(),
                field.clone(),
            ),
            StructExpression::Select(a, index) => node2_text(
                "Select(",
                a.debug_string(),
                index.debug_string(),
            ),
        }
    }
}

impl IntExpression {
    pub open spec fn debug_form(self) -> Seq<char>
        decreases self,
    {
        match self {
            IntExpression::Value(v) => node("Num("@, decimal(magnitude(v))),
            IntExpression::Add(l, r) => node2("Add("@, l.debug_form(), r.debug_form()),
            IntExpression::Sub(l, r) => node2("Sub("@, l.debug_form(), r.debug_form()),
            IntExpression::Mult(l, r) => node2("Mult("@, l.debug_form(), r.debug_form()),
            IntExpression::Div(l, r) => node2("Div("@, l.debug_form(), r.debug_form()),
            IntExpression::Pow(l, r) => node2("Pow("@, l.debug_form(), r.debug_form()),
            IntExpression::IfElse(c, l, r) => node3(
                "IfElse("@,
                c.debug_form(),
                l.debug_form(),
                r.debug_form(),
            ),
            IntExpression::Select(a, index) => node2(
                "Select("@,
                a.debug_form(),
                index.debug_form(),
            ),
            IntExpression::Xor(l, r) => node2("Xor("@, l.debug_form(), r.debug_form()),
            IntExpression::And(l, r) => node2("And("@, l.debug_form(), r.debug_form()),
            IntExpression::Or(l, r) => node2("Or("@, l.debug_form(), r.debug_form()),
            IntExpression::LeftShift(e, by) => node2(
                "LeftShift("@,
                e.debug_form(),
                by.debug_form(),
            ),
            IntExpression::RightShift(e, by) => node2(
                "RightShift("@,
                e.debug_form(),
                by.debug_form(),
            ),
        }
    }

    /// The expression as a structure, for diagnostics.
    pub fn debug_string(&self) -> (s: String)
        ensures
            s@ == self.debug_form(),
        decreases *self,
    {
        match self {
            IntExpression::Value(v) => node_text("Num(", big_to_decimal(v)),
            IntExpression::Add(l, r) => node2_text("Add(", l.debug_string(), r.debug_string()),
            IntExpression::Sub(l, r) => node2_text("Sub(", l.debug_string(), r.debug_string()),
            IntExpression::Mult(l, r) => node2_text("Mult(", l.debug_string(), r.debug_string()),
            IntExpression::Div(l, r) => node2_text("Div(", l.debug_string(), r.debug_string()),
            IntExpression::Pow(l, r) => node2_text("Pow(", l.debug_string(), r.debug_string()),
            IntExpression::IfElse(c, l, r) => node3_text(
                "IfElse(",
                c.debug_string(),
                l.debug_string(),
                r.debug_string(),
            ),
            IntExpression::Select(a, index) => node2_text(
                "Select(",
                a.debug_string(),
                index.debug_string(),
            ),
            IntExpression::Xor(l, r) => node2_text("Xor(", l.debug_string(), r.debug_string()),
            IntExpression::And(l, r) => node2_text("And(", l.debug_string(), r.debug_string()),
            IntExpression::Or(l, r) => node2_text("Or(", l.debug_string(), r.debug_string()),
            IntExpression::LeftShift(e, by) => node2_text(
                "LeftShift(",
                e.debug_string(),
                by.debug_string(),
            ),
            IntExpression::RightShift(e, by) => node2_text(
                "RightShift(",
                e.debug_string(),
                by.debug_string(),
            ),
        }
    }
}

impl UExpressionInner {
    pub open spec fn debug_form(self) -> Seq<char>
        decreases self,
    {
        match self {
            UExpressionInner::Identifier(id) => node("Ide("@, id.name@),
            UExpressionInner::Value(v) => node("Num("@, decimal(v as nat)),
            UExpressionInner::Add(l, r) => node2("Add("@, l.debug_form(), r.debug_form()),
            UExpressionInner::Sub(l, r) => node2("Sub("@, l.debug_form(), r.debug_form()),
            UExpressionInner::Mult(l, r) => node2("Mult("@, l.debug_form(), r.debug_form()),
            UExpressionInner::IfElse(c, l, r) => node3(
                "IfElse("@,
                c.debug_form(),
                l.debug_form(),
                r.debug_form(),
            ),
            UExpressionInner::Select(a, index) => node2(
                "Select("@,
                a.debug_form(),
                index.debug_form(),
            ),
            UExpressionInner::And(l, r) => node2("And("@, l.debug_form(), r.debug_form()),
            UExpressionInner::Or(l, r) => node2("Or("@, l.debug_form(), r.debug_form()),
            UExpressionInner::Xor(l, r) => node2("Xor("@, l.debug_form(), r.debug_form()),
            UExpressionInner::RightShift(e, by) => node2(
                "RightShift("@,
                e.debug_form(),
                by.debug_form(),
            ),
            UExpressionInner::LeftShift(e, by) => node2(
                "LeftShift("@,
                e.debug_form(),
                by.debug_form(),
            ),
            UExpressionInner::Not(e) => node("Not("@, e.debug_form()),
            UExpressionInner::FunctionCall(key, arguments) => open_call(
                key.id@,
                debug_list(arguments@),
            ),
            UExpressionInner::Member(s, field) => node2("Access("@, s.debug_form(), field@),
        }
    }

    /// The expression as a structure, for diagnostics.
    pub fn debug_string(&self) -> (s: String)
        ensures
            s@ == self.debug_form(),
        decreases *self,
    {
        match self {
            UExpressionInner::Identifier(id) => node_text("Ide(", id.name.clone()),
            UExpressionInner::Value(v) => node_text("Num(", decimal_text(*v)),
            UExpressionInner::Add(l, r) => node2_text("Add(", l.debug_string(), r.debug_string()),
            UExpressionInner::Sub(l, r) => node2_text("Sub(", l.debug_string(), r.debug_string()),
            UExpressionInner::Mult(l, r) => node2_text(
                "Mult(",
                l.debug_string(),
                r.debug_string(),
            ),
            UExpressionInner::IfElse(c, l, r) => node3_text(
                "IfElse(",
                c.debug_string(),
                l.debug_string(),
                r.debug_string(),
            ),
            UExpressionInner::Select(a, index) => node2_text(
                "Select(",
                a.debug_string(),
                index.debug_string(),
            ),
            UExpressionInner::And(l, r) => node2_text("And(", l.debug_string(), r.debug_string()),
            UExpressionInner::Or(l, r) => node2_text("Or(", l.debug_string(), r.debug_string()),
            UExpressionInner::Xor(l, r) => node2_text("Xor(", l.debug_string(), r.debug_string()),
            UExpressionInner::RightShift(e, by) => node2_text(
                "RightShift(",
                e.debug_string(),
                by.debug_string(),
            ),
            UExpressionInner::LeftShift(e, by) => node2_text(
                "LeftShift(",
                e.debug_string(),
                by.debug_string(),
            ),
            UExpressionInner::Not(e) => node_text("Not(", e.debug_string()),
            UExpressionInner::FunctionCall(key, arguments) => open_call_text(
                key.id.as_str(),
                debug_list_text(arguments),
            ),
            UExpressionInner::Member(s, field) => node2_text(
                "Access(",
                s.debug_string(),
                field.clone(),
            ),
        }
    }
}

} // verus!
