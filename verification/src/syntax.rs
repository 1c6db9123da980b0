//! The syntax of the lower intermediate representation: types, constant
//! expressions, expressions and procedures.
//!
//! Every tree here is a plain algebraic value. Sequences are kept as
//! singly linked lists so that a tree is its own mathematical model: two
//! trees are equal exactly when they are built from the same constructors,
//! and every judgment over them is defined by recursion on their shape.
use vstd::prelude::*;

verus! {

/// Whether a variable may be assigned after its definition.
#[derive(Clone, Copy, Debug, PartialEq, Eq, Structural)]
pub enum Mutability {
    Mutable,
    Immutable,
}

/// A name: its characters, in order.
///
/// Names are kept as lists of characters so that two names are equal
/// exactly when they read alike.
#[derive(Debug, PartialEq)]
pub enum Name {
    Nil,
    Cons(char, Box<Name>),
}

/// A list of names.
#[derive(Debug, PartialEq)]
pub enum Names {
    Nil,
    Cons(Name, Box<Names>),
}

/// A type of the intermediate representation.
///
/// A type is *head-simple* when its outermost constructor is neither
/// `Symbol`, `Let` nor `Apply`, and *concrete* when no such node (and no
/// `Poly`) occurs anywhere in it.
#[derive(Debug, PartialEq)]
pub enum Type {
    /// The type that every type can be used as.
    Any,
    /// The type of an expression that never yields a value.
    Never,
    /// The type with no information, of size zero.
    Void,
    /// One raw memory unit.
    Cell,
    Int,
    Float,
    Bool,
    Char,
    /// An enumeration, given by the set of its variant names: neither
    /// their order nor a repetition carries meaning.
    Enum(Names),
    /// A nominal wrapper: two units agree only when their names agree.
    Unit(Name, Box<Type>),
    /// A reference to a type bound in the environment.
    Symbol(Name),
    /// `Let(name, bound, body)`: `name` stands for `bound` inside `bound`
    /// itself and inside `body`.
    Let(Name, Box<Type>, Box<Type>),
    /// An array of elements with a constant length.
    Array(Box<Type>, Box<ConstExpr>),
    Tuple(Box<Types>),
    /// A structure; the order of its fields carries no meaning.
    Struct(Box<Fields>),
    /// A union; the order of its fields carries no meaning.
    Union(Box<Fields>),
    /// A procedure from the argument types to the return type.
    Proc(Box<Types>, Box<Type>),
    Pointer(Box<Type>),
    /// A type scheme over the given parameters.
    Poly(Names, Box<Type>),
    /// The instantiation of a scheme, reduced only when simplified.
    Apply(Box<Type>, Box<Types>),
}

/// A list of types.
#[derive(Debug, PartialEq)]
pub enum Types {
    Nil,
    Cons(Type, Box<Types>),
}

/// A list of named types: the fields of a structure or a union, or a
/// block of type definitions. Where a name is looked up, its first
/// occurrence counts. A sound structure or union has no name twice, and a
/// concrete one has its fields in the order of their names.
#[derive(Debug, PartialEq)]
pub enum Fields {
    Nil,
    Cons(Name, Type, Box<Fields>),
}

/// A list of variables, each with its mutability and type: the parameters
/// of a procedure, or the variables of an environment.
#[derive(Debug, PartialEq)]
pub enum Params {
    Nil,
    Cons(Name, Mutability, Type, Box<Params>),
}

/// The alternatives of an operator's typing rule: each one lists the
/// operand types it accepts and the type of the result.
#[derive(Debug, PartialEq)]
pub enum Signatures {
    Nil,
    Cons(Types, Type, Box<Signatures>),
}

/// An operator together with its typing rule.
#[derive(Debug, PartialEq)]
pub struct Operator {
    pub name: Name,
    pub rules: Signatures,
}

/// A procedure whose body is inline assembly; only its signature is
/// visible to the type checker.
#[derive(Debug, PartialEq)]
pub struct Builtin {
    pub name: Name,
    pub args: Params,
    pub ret: Type,
}

/// A monomorphic procedure.
#[derive(Debug, PartialEq)]
pub struct Procedure {
    /// The mangled name under which the procedure is emitted, if it has one.
    pub name: Option<Name>,
    pub args: Params,
    pub ret: Type,
    pub body: Box<Expr>,
}

/// A procedure template over type parameters.
///
/// Two templates are compared, with `==`, for their name, type
/// parameters, parameters, return type and body: the number of a template
/// does not count.
#[derive(Debug)]
pub struct PolyProcedure {
    /// The number under which the template's instances are kept. A copy
    /// of a template has the number of the template it was made from.
    pub id: usize,
    /// The name known to the front end, not a mangled one.
    pub name: Name,
    pub ty_params: Names,
    pub args: Params,
    pub ret: Type,
    pub body: Box<Expr>,
}

/// A constant expression.
#[derive(Debug, PartialEq)]
pub enum ConstExpr {
    /// The only value of type `Void`.
    Void,
    Null,
    Int(i64),
    /// A floating-point literal, held as the bits of its IEEE 754 double.
    Float(u64),
    Char(char),
    Bool(bool),
    /// The size of a type, in cells.
    SizeOfType(Type),
    /// A constant that stands for the type of an expression.
    TypeOf(Box<Expr>),
    As(Box<ConstExpr>, Type),
    /// The size of the type of an expression, in cells.
    SizeOfExpr(Box<Expr>),
    CoreBuiltin(Builtin),
    StandardBuiltin(Builtin),
    Proc(Procedure),
    PolyProc(PolyProcedure),
    /// A procedure template applied to type arguments.
    Monomorphize(Box<ConstExpr>, Types),
    /// A reference to a constant, a procedure or a variable.
    Symbol(Name),
    /// `Of(ty, variant)`: a variant of an enumeration.
    Of(Type, Name),
    Tuple(Box<ConstExprs>),
    Array(Box<ConstExprs>),
    Struct(Box<ConstFields>),
    /// `Union(ty, variant, value)`.
    Union(Type, Name, Box<ConstExpr>),
}

/// A list of constant expressions.
#[derive(Debug, PartialEq)]
pub enum ConstExprs {
    Nil,
    Cons(ConstExpr, Box<ConstExprs>),
}

/// A list of named constants.
#[derive(Debug, PartialEq)]
pub enum ConstFields {
    Nil,
    Cons(Name, ConstExpr, Box<ConstFields>),
}

/// An expression.
#[derive(Debug, PartialEq)]
pub enum Expr {
    UnaryOp(Operator, Box<Expr>),
    BinaryOp(Operator, Box<Expr>, Box<Expr>),
    TernaryOp(Operator, Box<Expr>, Box<Expr>, Box<Expr>),
    AssignOp(Operator, Box<Expr>, Box<Expr>),
    ConstExpr(ConstExpr),
    /// A block: its value is that of its last expression.
    Many(Box<Exprs>),
    LetConst(Name, ConstExpr, Box<Expr>),
    LetConsts(Box<ConstFields>, Box<Expr>),
    LetProc(Name, Procedure, Box<Expr>),
    LetProcs(Box<ProcDefs>, Box<Expr>),
    LetType(Name, Type, Box<Expr>),
    LetTypes(Box<Fields>, Box<Expr>),
    /// `LetVar(name, mutability, annotation, initializer, continuation)`.
    LetVar(Name, Mutability, Option<Type>, Box<Expr>, Box<Expr>),
    LetVars(Box<VarDefs>, Box<Expr>),
    While(Box<Expr>, Box<Expr>),
    If(Box<Expr>, Box<Expr>, Box<Expr>),
    /// A conditional decided at compile time: only one branch is kept.
    When(ConstExpr, Box<Expr>, Box<Expr>),
    Refer(Box<Expr>),
    Deref(Box<Expr>),
    /// `DerefMut(pointer, value)`: store a value through a pointer.
    DerefMut(Box<Expr>, Box<Expr>),
    Apply(Box<Expr>, Box<Exprs>),
    Return(Box<Expr>),
    Array(Box<Exprs>),
    Tuple(Box<Exprs>),
    Struct(Box<ExprFields>),
    /// `Union(ty, variant, value)`.
    Union(Type, Name, Box<Expr>),
    As(Box<Expr>, Type),
    /// `Member(value, member)`: the member is a field name or a tuple index.
    Member(Box<Expr>, ConstExpr),
    Index(Box<Expr>, Box<Expr>),
}

/// A list of expressions.
#[derive(Debug, PartialEq)]
pub enum Exprs {
    Nil,
    Cons(Expr, Box<Exprs>),
}

/// A list of named expressions: the fields of a structure literal.
#[derive(Debug, PartialEq)]
pub enum ExprFields {
    Nil,
    Cons(Name, Expr, Box<ExprFields>),
}

/// A list of named procedures.
#[derive(Debug, PartialEq)]
pub enum ProcDefs {
    Nil,
    Cons(Name, Procedure, Box<ProcDefs>),
}

/// A list of variable definitions: name, mutability, optional annotation
/// and initializer.
#[derive(Debug, PartialEq)]
pub enum VarDefs {
    Nil,
    Cons(Name, Mutability, Option<Type>, Expr, Box<VarDefs>),
}

impl Mutability {
    pub open spec fn mutable(self) -> bool {
        self is Mutable
    }

    /// Can a variable with this mutability be assigned?
    pub fn is_mutable(&self) -> (r: bool)
        ensures
            r == self.mutable(),
    {
        match self {
            Mutability::Mutable => true,
            Mutability::Immutable => false,
        }
    }
}

} // verus!
