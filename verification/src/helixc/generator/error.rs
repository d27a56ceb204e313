//! Why a query cannot be compiled.

use vstd::prelude::*;
use vstd::string::*;

verus! {

/// A syntax tree shape that has no lowering. Each variant names the
/// construct that was refused.
#[derive(Debug, Clone, Copy, PartialEq, Eq, Structural)]
pub enum CompileError {
    /// An assignment to a variable that an earlier statement has bound.
    Rebinding,
    /// A reference to a variable that no earlier statement has bound.
    UnboundVariable,
    /// A property value that names no declared parameter.
    UnknownParameter,
    /// A list of edge types or of ids that is present but empty.
    EmptySelector,
    /// A vector statement without a vector or a parameter to take it from.
    MissingVectorData,
    /// A new edge without one of its two end points.
    MissingEndpoint,
    /// The empty value where a literal is needed.
    EmptyValue,
    /// An expression that yields no traversal, in the place of one.
    UnsupportedExpression,
    /// An expression that is no predicate, in the place of one.
    UnsupportedCondition,
    /// A comparison operand for which the comparator has no arm.
    UnsupportedOperand,
    /// A range bound that is neither an integer nor a parameter.
    UnsupportedRange,
    /// A property assignment from anything but a literal or a parameter.
    UnsupportedProperty,
    /// A projected field whose value has no replacement.
    UnsupportedProjection,
    /// A return expression that yields no response entry.
    UnsupportedReturn,
    /// A property access that names no property.
    EmptyProjection,
    /// A comparison with neither a property nor a count to compare.
    ComparisonWithoutContext,
    /// A predicate traversal that tests neither a property nor a count.
    ConditionWithoutTest,
    /// Steps after the test that ends a predicate traversal.
    StepsAfterTest,
    /// A predicate traversal that does not start at the current element.
    UnsupportedStart,
}

/// The sentence that a refusal is reported with.
pub open spec fn message_text(e: CompileError) -> Seq<char> {
    match e {
        CompileError::Rebinding => "a variable is assigned twice"@,
        CompileError::UnboundVariable => "a variable is used before it is assigned"@,
        CompileError::UnknownParameter => "a property value names no parameter of the query"@,
        CompileError::EmptySelector => "a list of types or ids is empty"@,
        CompileError::MissingVectorData => "a vector statement has no vector data"@,
        CompileError::MissingEndpoint => "a new edge lacks an end point"@,
        CompileError::EmptyValue => "the empty value stands where a literal is needed"@,
        CompileError::UnsupportedExpression => "an expression yields no traversal"@,
        CompileError::UnsupportedCondition => "an expression is no condition"@,
        CompileError::UnsupportedOperand => "a comparison has an operand it cannot take"@,
        CompileError::UnsupportedRange => "a range bound is neither an integer nor a parameter"@,
        CompileError::UnsupportedProperty => "a property is assigned from an unsupported value"@,
        CompileError::UnsupportedProjection => "a projected field has an unsupported value"@,
        CompileError::UnsupportedReturn => "a return value yields no response entry"@,
        CompileError::EmptyProjection => "a property access names no property"@,
        CompileError::ComparisonWithoutContext => "a comparison has nothing to compare"@,
        CompileError::ConditionWithoutTest => "a condition tests neither a property nor a count"@,
        CompileError::StepsAfterTest => "steps follow the test that ends a condition"@,
        CompileError::UnsupportedStart => "a condition does not start at the current element"@,
    }
}

impl CompileError {
    /// A sentence for the person who wrote the query.
    pub fn message(&self) -> (text: String)
        ensures
            text@ == message_text(*self),
    {
        match self {
            CompileError::Rebinding => String::from_str("a variable is assigned twice"),
            CompileError::UnboundVariable => String::from_str("a variable is used before it is assigned"),
            CompileError::UnknownParameter => String::from_str("a property value names no parameter of the query"),
            CompileError::EmptySelector => String::from_str("a list of types or ids is empty"),
            CompileError::MissingVectorData => String::from_str("a vector statement has no vector data"),
            CompileError::MissingEndpoint => String::from_str("a new edge lacks an end point"),
            CompileError::EmptyValue => String::from_str("the empty value stands where a literal is needed"),
            CompileError::UnsupportedExpression => String::from_str("an expression yields no traversal"),
            CompileError::UnsupportedCondition => String::from_str("an expression is no condition"),
            CompileError::UnsupportedOperand => String::from_str("a comparison has an operand it cannot take"),
            CompileError::UnsupportedRange => String::from_str("a range bound is neither an integer nor a parameter"),
            CompileError::UnsupportedProperty => String::from_str("a property is assigned from an unsupported value"),
            CompileError::UnsupportedProjection => String::from_str("a projected field has an unsupported value"),
            CompileError::UnsupportedReturn => String::from_str("a return value yields no response entry"),
            CompileError::EmptyProjection => String::from_str("a property access names no property"),
            CompileError::ComparisonWithoutContext => String::from_str("a comparison has nothing to compare"),
            CompileError::ConditionWithoutTest => String::from_str("a condition tests neither a property nor a count"),
            CompileError::StepsAfterTest => String::from_str("steps follow the test that ends a condition"),
            CompileError::UnsupportedStart => String::from_str("a condition does not start at the current element"),
        }
    }
}

} // verus!
