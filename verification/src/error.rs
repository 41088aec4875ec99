//! The ways in which a source module can fall outside the supported subset.

use vstd::prelude::*;

verus! {

/// Why a source module cannot be compiled.
#[derive(Clone, Copy, Debug, PartialEq, Eq, Structural)]
pub enum UnsupportedSyntax {
    /// The text is not a sequence of tokens with balanced delimiters.
    NotTokens,
    /// A helper call names a method that its helper does not have.
    UnknownHelperMethod,
    /// A helper call names a type that the module does not declare.
    UnknownType,
    /// A helper call names a type whose role the call cannot work with.
    WrongRole,
    /// A helper call has too few or too many arguments.
    WrongArguments,
    /// The text is not one module of the source language, or the module
    /// has no body.
    NotAModule,
    /// An item of the module is of a kind that shaders do not have.
    UnsupportedItem,
    /// A declaration is cut short or out of shape.
    MalformedItem,
    /// The entry point does not take exactly one iteration position.
    MalformedEntryPoint,
    /// The entry point assigns to its iteration position.
    AssignmentToIterationPosition,
    /// A struct literal names a field that its struct does not declare, or
    /// leaves one out.
    FieldMismatch,
    /// A function or a constant uses a construct that shaders do not have.
    UnsupportedExpression,
    /// A cast has no operand or no type.
    MalformedCast,
    /// The module needs more binding slots than there are numbers.
    TooManyBindings,
}

} // verus!
