//! The errors of the type checker and of the monomorphization engine.
use vstd::prelude::*;
use crate::syntax::{ConstExpr, Expr, Name, Type, Types};

verus! {

/// A place in the source text.
#[derive(Debug, PartialEq)]
pub struct SourceCodeLocation {
    pub line: usize,
    pub column: usize,
    pub filename: Option<String>,
    /// The offset of the place, in bytes from the start of the text.
    pub offset: usize,
    /// The length of the place in bytes, where it is known.
    pub length: Option<usize>,
}

/// Why a tree is not sound.
///
/// Checking stops at the first unsound term: an error always describes the
/// first failure in the order of the traversal, and nothing is recovered.
#[derive(Debug, PartialEq)]
pub enum Error {
    /// No type of this name is in scope.
    TypeNotDefined(Name),
    /// No constant, procedure or variable of this name is in scope.
    SymbolNotDefined(Name),
    /// The expression has type `found` where `expected` is required.
    MismatchedTypes { expected: Type, found: Type, expr: Expr },
    /// The expression, of the first type, cannot be cast to the second.
    InvalidAs(Expr, Type, Type),
    /// The expression indexes something that is no array or pointer, or
    /// indexes with something that is no integer.
    InvalidIndex(Expr),
    /// The type has no variant of this name.
    VariantNotFound(Type, Name),
    /// The type of the expression has no such member.
    MemberNotFound(Expr, ConstExpr),
    /// The length of an array evaluates to a negative number.
    NegativeArrayLength(Expr),
    /// The constant does not evaluate to an integer.
    NonIntegralConst(ConstExpr),
    /// The constant does not evaluate to a boolean.
    NonBooleanConst(ConstExpr),
    /// The type applies something that is no type scheme.
    ApplyNonTemplate(Type),
    /// The type applies a scheme to the wrong number of arguments.
    InvalidTemplateArgs(Type),
    /// The type cannot be reduced to a concrete type.
    NotConcrete(Type),
    /// The type has no size.
    UnsizedType(Type),
    /// The size of the type does not fit the machine.
    SizeOverflow(Type),
    /// No rule of the operator accepts operands of these types.
    InvalidOperands(Name, Types),
    /// Two parameters of one frame share this name.
    DuplicateArgument(Name),
    /// Two fields of one structure or union share this name.
    DuplicateField(Name),
    /// The constant applies type arguments to something that is no
    /// procedure template.
    InvalidMonomorphize(ConstExpr),
    /// A chain of definitions is longer than the recursion limit allows.
    RecursionLimit,
    /// An error together with the place in the source text where it arose.
    Annotated(Box<Error>, SourceCodeLocation),
}

impl Error {
    /// The error, marked with the place where it arose.
    pub fn annotate(self, location: SourceCodeLocation) -> (r: Error)
        ensures
            r == Error::Annotated(Box::new(self), location),
    {
        Error::Annotated(Box::new(self), location)
    }
}

} // verus!
