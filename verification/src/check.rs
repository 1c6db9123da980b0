//! The type checker: is a type, a constant, an expression or a procedure
//! sound in an environment?
//!
//! Checking is one recursive judgment over the three syntactic categories.
//! It walks a term from left to right and from the outside in, and stops
//! at the first unsound part with the error for it.
use vstd::prelude::*;
use crate::env::Env;
use crate::error::Error;
use crate::eval::const_int;
use crate::infer::{type_of_const, type_of_expr, types_of_exprs};
use crate::relate::{casts, decays, equal_lists, equal_types};
use crate::simplify::{instantiated, simplified, RECURSION_LIMIT};
use crate::syntax::{
    ConstExpr, ConstExprs, ConstFields, Expr, ExprFields, Exprs, Fields, Params, PolyProcedure,
    ProcDefs, Procedure, Type, Types, VarDefs,
};

verus! {

/// What can be checked for soundness.
pub trait TypeCheck {
    /// The outcome of checking the term in the environment.
    spec fn checked(&self, env: Env) -> Result<(), Error>;

    /// Checks the term: `Ok(())` if it is sound in the environment, and
    /// otherwise the error for its first unsound part.
    fn type_check(&self, env: &Env) -> (r: Result<(), Error>)
        ensures
            r == self.checked(*env),
    ;
}

/// The error for a term of type `found` where `expected` is required.
pub open spec fn mismatch(expected: Type, found: Type, expr: Expr) -> Error {
    Error::MismatchedTypes { expected, found, expr }
}

/// Is the type sound?
///
/// Every name in it must be defined, every array length must evaluate to
/// an integer that is not negative, no structure or union may have two
/// fields of one name, and every part must be sound. The
/// bound type and the body of a `Let` are checked with the binding in
/// scope; the body of a scheme is checked with its parameters opaque.
pub open spec fn check_type(t: Type, env: Env, fuel: nat) -> Result<(), Error>
    decreases t,
{
    match t {
        Type::Unit(_, inner) => check_type(*inner, env, fuel),
        Type::Symbol(name) => if env.types.lookup(name) is Some {
            Ok(())
        } else {
            Err(Error::TypeNotDefined(name))
        },
        Type::Let(name, bound, body) => match check_type(
            *bound,
            env.with_type(name, *bound),
            fuel,
        ) {
            Err(e) => Err(e),
            Ok(_) => check_type(*body, env.with_type(name, *bound), fuel),
        },
        Type::Array(elem, len) => match check_type(*elem, env, fuel) {
            Err(e) => Err(e),
            Ok(_) => match check_const(*len, env, fuel) {
                Err(e) => Err(e),
                Ok(_) => match const_int(*len, env, fuel) {
                    Err(e) => Err(e),
                    Ok(n) => if n < 0 {
                        Err(Error::NegativeArrayLength(Expr::ConstExpr(*len)))
                    } else {
                        Ok(())
                    },
                },
            },
        },
        Type::Tuple(items) => check_types(*items, env, fuel),
        Type::Struct(fields) => match fields.names().repeated() {
            Some(name) => Err(Error::DuplicateField(name)),
            None => check_fields(*fields, env, fuel),
        },
        Type::Union(fields) => match fields.names().repeated() {
            Some(name) => Err(Error::DuplicateField(name)),
            None => check_fields(*fields, env, fuel),
        },
        Type::Proc(args, ret) => match check_types(*args, env, fuel) {
            Err(e) => Err(e),
            Ok(_) => check_type(*ret, env, fuel),
        },
        Type::Pointer(inner) => check_type(*inner, env, fuel),
        Type::Poly(params, body) => check_type(*body, env.with_opaque(params), fuel),
        Type::Apply(scheme, args) => match check_type(*scheme, env, fuel) {
            Err(e) => Err(e),
            Ok(_) => check_types(*args, env, fuel),
        },
        _ => Ok(()),
    }
}

/// Is every type of the list sound?
pub open spec fn check_types(items: Types, env: Env, fuel: nat) -> Result<(), Error>
    decreases items,
{
    match items {
        Types::Nil => Ok(()),
        Types::Cons(t, rest) => match check_type(t, env, fuel) {
            Err(e) => Err(e),
            Ok(_) => check_types(*rest, env, fuel),
        },
    }
}

/// Is the type of every field sound?
pub open spec fn check_fields(fields: Fields, env: Env, fuel: nat) -> Result<(), Error>
    decreases fields,
{
    match fields {
        Fields::Nil => Ok(()),
        Fields::Cons(_, t, rest) => match check_type(t, env, fuel) {
            Err(e) => Err(e),
            Ok(_) => check_fields(*rest, env, fuel),
        },
    }
}

/// Is the type of every parameter sound?
pub open spec fn check_params(args: Params, env: Env, fuel: nat) -> Result<(), Error>
    decreases args,
{
    match args {
        Params::Nil => Ok(()),
        Params::Cons(_, _, t, rest) => match check_type(t, env, fuel) {
            Err(e) => Err(e),
            Ok(_) => check_params(*rest, env, fuel),
        },
    }
}

/// Does the type `found` agree with the type `expected`? The two must be
/// equal; `expr` is reported where they are not.
pub open spec fn check_same_type(expected: Type, found: Type, expr: Expr, env: Env, fuel: nat)
    -> Result<(), Error> {
    match equal_types(expected, found, env, fuel) {
        Err(e) => Err(e),
        Ok(true) => Ok(()),
        Ok(false) => Err(mismatch(expected, found, expr)),
    }
}

/// Is the constant sound?
///
/// Literals and the size of a type are sound. The type or the size of an
/// expression is sound when the expression is. A cast is sound when the
/// type of the constant can be cast to the target. Builtins are sound;
/// procedures and templates are sound when their bodies are. A template at
/// type arguments is sound when the template and the arguments are sound
/// and there are as many arguments as type parameters. A name is sound
/// when a constant, a procedure or a variable of that name is in scope. A
/// variant is sound when its type simplifies to an enumeration that has
/// it. Tuples, arrays, structures and unions are sound as the expressions
/// of the same form are.
pub open spec fn check_const(c: ConstExpr, env: Env, fuel: nat) -> Result<(), Error>
    decreases c,
{
    match c {
        ConstExpr::TypeOf(e) => check_expr(*e, env, fuel),
        ConstExpr::As(inner, ty) => match type_of_const(*inner, env, fuel) {
            Err(e) => Err(e),
            Ok(found) => match casts(found, ty, env, fuel) {
                Err(e) => Err(e),
                Ok(true) => Ok(()),
                Ok(false) => Err(Error::InvalidAs(Expr::ConstExpr(*inner), found, ty)),
            },
        },
        ConstExpr::SizeOfExpr(e) => check_expr(*e, env, fuel),
        ConstExpr::Proc(p) => check_proc(p, env, fuel),
        ConstExpr::PolyProc(p) => check_poly(p, env, fuel),
        ConstExpr::Monomorphize(template, args) => match check_const(*template, env, fuel) {
            Err(e) => Err(e),
            Ok(_) => match check_types(args, env, fuel) {
                Err(e) => Err(e),
                Ok(_) => match type_of_const(*template, env, fuel) {
                    Err(e) => Err(e),
                    Ok(t) => match simplified(t, env, fuel) {
                        Err(e) => Err(e),
                        Ok(Type::Poly(params, body)) => match instantiated(params, args, *body) {
                            None => Err(
                                Error::InvalidTemplateArgs(
                                    Type::Apply(Box::new(t), Box::new(args)),
                                ),
                            ),
                            Some(_) => Ok(()),
                        },
                        Ok(_) => Err(Error::InvalidMonomorphize(c)),
                    },
                },
            },
        },
        ConstExpr::Symbol(name) => if env.consts.lookup(name) is Some || env.procs.lookup(name)
            is Some || env.vars.lookup(name) is Some {
            Ok(())
        } else {
            Err(Error::SymbolNotDefined(name))
        },
        ConstExpr::Of(ty, variant) => match simplified(ty, env, fuel) {
            Err(e) => Err(e),
            Ok(Type::Enum(variants)) => if variants.contains(variant) {
                Ok(())
            } else {
                Err(Error::VariantNotFound(ty, variant))
            },
            Ok(_) => Err(Error::VariantNotFound(ty, variant)),
        },
        ConstExpr::Tuple(items) => check_consts(*items, env, fuel),
        ConstExpr::Array(items) => check_const_items(*items, None, env, fuel),
        ConstExpr::Struct(fields) => match fields.names().repeated() {
            Some(name) => Err(Error::DuplicateField(name)),
            None => check_const_fields(*fields, env, fuel),
        },
        ConstExpr::Union(ty, variant, value) => match simplified(ty, env, fuel) {
            Err(e) => Err(e),
            Ok(Type::Union(fields)) => match fields.lookup(variant) {
                None => Err(Error::VariantNotFound(ty, variant)),
                Some(expected) => match check_const(*value, env, fuel) {
                    Err(e) => Err(e),
                    Ok(_) => match type_of_const(*value, env, fuel) {
                        Err(e) => Err(e),
                        Ok(found) => check_same_type(
                            expected,
                            found,
                            Expr::ConstExpr(c),
                            env,
                            fuel,
                        ),
                    },
                },
            },
            Ok(_) => Err(Error::VariantNotFound(ty, variant)),
        },
        _ => Ok(()),
    }
}

/// Is every constant of the list sound?
pub open spec fn check_consts(items: ConstExprs, env: Env, fuel: nat) -> Result<(), Error>
    decreases items,
{
    match items {
        ConstExprs::Nil => Ok(()),
        ConstExprs::Cons(c, rest) => match check_const(c, env, fuel) {
            Err(e) => Err(e),
            Ok(_) => check_consts(*rest, env, fuel),
        },
    }
}

/// Are the items of a constant array sound, each with a type equal to
/// that of the item before it? `last` is the type of the item before the
/// list. An item whose type differs is reported itself.
pub open spec fn check_const_items(items: ConstExprs, last: Option<Type>, env: Env, fuel: nat)
    -> Result<(), Error>
    decreases items,
{
    match items {
        ConstExprs::Nil => Ok(()),
        ConstExprs::Cons(c, rest) => match check_const(c, env, fuel) {
            Err(e) => Err(e),
            Ok(_) => match type_of_const(c, env, fuel) {
                Err(e) => Err(e),
                Ok(t) => match last {
                    None => check_const_items(*rest, Some(t), env, fuel),
                    Some(l) => match check_same_type(l, t, Expr::ConstExpr(c), env, fuel) {
                        Err(e) => Err(e),
                        Ok(_) => check_const_items(*rest, Some(t), env, fuel),
                    },
                },
            },
        },
    }
}

/// Is every constant of the named list sound?
pub open spec fn check_const_fields(fields: ConstFields, env: Env, fuel: nat) -> Result<(), Error>
    decreases fields,
{
    match fields {
        ConstFields::Nil => Ok(()),
        ConstFields::Cons(_, c, rest) => match check_const(c, env, fuel) {
            Err(e) => Err(e),
            Ok(_) => check_const_fields(*rest, env, fuel),
        },
    }
}

/// A term that is sound has a type: the outcome of checking where
/// inference decides.
pub open spec fn typed(t: Result<Type, Error>) -> Result<(), Error> {
    match t {
        Err(e) => Err(e),
        Ok(_) => Ok(()),
    }
}

/// Is the expression sound?
///
/// * An operator application is sound when its operands are, from left to
///   right, and a rule of the operator accepts their types.
/// * A definition of a constant, a procedure or a type is sound when what
///   is defined is sound with the definition already in scope, and the
///   continuation is sound in that scope. A block of definitions defines
///   all of them before any is checked.
/// * A definition of a variable is sound when its initializer is, when an
///   annotation is sound and equals the type of the initializer, and when
///   the continuation is sound with the variable in scope.
/// * A loop is sound when its condition and its body are.
/// * A conditional is sound when its parts are and its branches have equal
///   types; one decided at compile time is sound when its parts are.
/// * A dereference is sound when its operand is sound and has a pointer
///   type; a store through a pointer when both operands are sound, the
///   first has a pointer type and the type of the second equals what it
///   points to.
/// * An application is sound when the procedure and the arguments are
///   sound, the procedure has a procedure type, and the types of the
///   arguments equal those of the parameters, one by one.
/// * An array literal is sound when its items are sound and each has a
///   type equal to that of the item before it; a tuple when its parts are
///   sound; a structure literal when no two of its fields share a name and
///   its parts are sound.
/// * A union literal is sound when its type is a sound union with the
///   variant, and the value is sound with a type equal to the variant's.
/// * A cast is sound when the expression is sound and its type can be cast
///   to the target.
/// * A member access is sound when the expression is sound and its type
///   has the member; an index when both operands are sound, the type of
///   the first simplifies to an array or a pointer and the type of the
///   second is `Int` itself.
pub open spec fn check_expr(e: Expr, env: Env, fuel: nat) -> Result<(), Error>
    decreases e,
{
    match e {
        Expr::UnaryOp(_, x) => match check_expr(*x, env, fuel) {
            Err(e) => Err(e),
            Ok(_) => typed(type_of_expr(e, env, fuel)),
        },
        Expr::BinaryOp(_, x, y) => match check_expr(*x, env, fuel) {
            Err(e) => Err(e),
            Ok(_) => match check_expr(*y, env, fuel) {
                Err(e) => Err(e),
                Ok(_) => typed(type_of_expr(e, env, fuel)),
            },
        },
        Expr::TernaryOp(_, x, y, z) => match check_expr(*x, env, fuel) {
            Err(e) => Err(e),
            Ok(_) => match check_expr(*y, env, fuel) {
                Err(e) => Err(e),
                Ok(_) => match check_expr(*z, env, fuel) {
                    Err(e) => Err(e),
                    Ok(_) => typed(type_of_expr(e, env, fuel)),
                },
            },
        },
        Expr::AssignOp(_, x, y) => match check_expr(*x, env, fuel) {
            Err(e) => Err(e),
            Ok(_) => match check_expr(*y, env, fuel) {
                Err(e) => Err(e),
                Ok(_) => typed(type_of_expr(e, env, fuel)),
            },
        },
        Expr::ConstExpr(c) => check_const(c, env, fuel),
        Expr::Many(items) => check_exprs(*items, env, fuel),
        Expr::LetConst(name, value, body) => match check_const(
            value,
            env.with_const(name, value),
            fuel,
        ) {
            Err(e) => Err(e),
            Ok(_) => check_expr(*body, env.with_const(name, value), fuel),
        },
        Expr::LetConsts(defs, body) => match check_const_fields(
            *defs,
            env.with_consts(*defs),
            fuel,
        ) {
            Err(e) => Err(e),
            Ok(_) => check_expr(*body, env.with_consts(*defs), fuel),
        },
        Expr::LetProc(name, value, body) => match check_proc(
            value,
            env.with_proc(name, value),
            fuel,
        ) {
            Err(e) => Err(e),
            Ok(_) => check_expr(*body, env.with_proc(name, value), fuel),
        },
        Expr::LetProcs(defs, body) => match check_procs(*defs, env.with_procs(*defs), fuel) {
            Err(e) => Err(e),
            Ok(_) => check_expr(*body, env.with_procs(*defs), fuel),
        },
        Expr::LetType(name, ty, body) => match check_type(ty, env.with_type(name, ty), fuel) {
            Err(e) => Err(e),
            Ok(_) => check_expr(*body, env.with_type(name, ty), fuel),
        },
        Expr::LetTypes(defs, body) => match check_fields(*defs, env.with_types(*defs), fuel) {
            Err(e) => Err(e),
            Ok(_) => check_expr(*body, env.with_types(*defs), fuel),
        },
        Expr::LetVar(name, mutability, annotation, init, body) => match check_expr(
            *init,
            env,
            fuel,
        ) {
            Err(e) => Err(e),
            Ok(_) => match type_of_expr(*init, env, fuel) {
                Err(e) => Err(e),
                Ok(inferred) => match annotation {
                    None => check_expr(*body, env.with_var(name, mutability, inferred), fuel),
                    Some(t) => match check_type(t, env, fuel) {
                        Err(e) => Err(e),
                        Ok(_) => match equal_types(inferred, t, env, fuel) {
                            Err(e) => Err(e),
                            Ok(false) => Err(mismatch(t, inferred, e)),
                            Ok(true) => check_expr(*body, env.with_var(name, mutability, t), fuel),
                        },
                    },
                },
            },
        },
        Expr::LetVars(defs, body) => match check_vars(*defs, e, env, env, fuel) {
            Err(e) => Err(e),
            Ok(inner) => check_expr(*body, inner, fuel),
        },
        Expr::While(cond, body) => match check_expr(*cond, env, fuel) {
            Err(e) => Err(e),
            Ok(_) => check_expr(*body, env, fuel),
        },
        Expr::If(cond, then, otherwise) => match check_expr(*cond, env, fuel) {
            Err(e) => Err(e),
            Ok(_) => match check_expr(*then, env, fuel) {
                Err(e) => Err(e),
                Ok(_) => match check_expr(*otherwise, env, fuel) {
                    Err(e) => Err(e),
                    Ok(_) => match type_of_expr(*then, env, fuel) {
                        Err(e) => Err(e),
                        Ok(t) => match type_of_expr(*otherwise, env, fuel) {
                            Err(e) => Err(e),
                            Ok(u) => check_same_type(t, u, e, env, fuel),
                        },
                    },
                },
            },
        },
        Expr::When(cond, then, otherwise) => match check_const(cond, env, fuel) {
            Err(e) => Err(e),
            Ok(_) => match check_expr(*then, env, fuel) {
                Err(e) => Err(e),
                Ok(_) => check_expr(*otherwise, env, fuel),
            },
        },
        Expr::Refer(x) => check_expr(*x, env, fuel),
        Expr::Deref(x) => match check_expr(*x, env, fuel) {
            Err(e) => Err(e),
            Ok(_) => typed(type_of_expr(e, env, fuel)),
        },
        Expr::DerefMut(pointer, value) => match check_expr(*pointer, env, fuel) {
            Err(e) => Err(e),
            Ok(_) => match check_expr(*value, env, fuel) {
                Err(e) => Err(e),
                Ok(_) => match type_of_expr(*pointer, env, fuel) {
                    Err(e) => Err(e),
                    Ok(p) => match type_of_expr(*value, env, fuel) {
                        Err(e) => Err(e),
                        Ok(v) => match simplified(p, env, fuel) {
                            Err(e) => Err(e),
                            Ok(Type::Pointer(target)) => match equal_types(*target, v, env, fuel) {
                                Err(e) => Err(e),
                                Ok(true) => Ok(()),
                                Ok(false) => Err(mismatch(v, *target, e)),
                            },
                            Ok(found) => Err(
                                mismatch(Type::Pointer(Box::new(Type::Any)), found, e),
                            ),
                        },
                    },
                },
            },
        },
        Expr::Apply(f, args) => match check_expr(*f, env, fuel) {
            Err(e) => Err(e),
            Ok(_) => match check_exprs(*args, env, fuel) {
                Err(e) => Err(e),
                Ok(_) => match type_of_expr(*f, env, fuel) {
                    Err(e) => Err(e),
                    Ok(t) => match types_of_exprs(*args, env, fuel) {
                        Err(e) => Err(e),
                        Ok(inferred) => match simplified(t, env, fuel) {
                            Err(e) => Err(e),
                            Ok(Type::Proc(params, ret)) => match equal_lists(
                                *params,
                                inferred,
                                env,
                                fuel,
                            ) {
                                Err(e) => Err(e),
                                Ok(true) => Ok(()),
                                Ok(false) => Err(
                                    mismatch(
                                        Type::Proc(params, ret),
                                        Type::Proc(Box::new(inferred), ret),
                                        e,
                                    ),
                                ),
                            },
                            Ok(found) => Err(
                                mismatch(
                                    Type::Proc(Box::new(inferred), Box::new(Type::Any)),
                                    found,
                                    e,
                                ),
                            ),
                        },
                    },
                },
            },
        },
        Expr::Return(x) => check_expr(*x, env, fuel),
        Expr::Array(items) => check_items(*items, None, env, fuel),
        Expr::Tuple(items) => check_exprs(*items, env, fuel),
        Expr::Struct(fields) => match fields.names().repeated() {
            Some(name) => Err(Error::DuplicateField(name)),
            None => check_expr_fields(*fields, env, fuel),
        },
        Expr::Union(ty, variant, value) => match check_type(ty, env, fuel) {
            Err(e) => Err(e),
            Ok(_) => match simplified(ty, env, fuel) {
                Err(e) => Err(e),
                Ok(Type::Union(fields)) => match fields.lookup(variant) {
                    None => Err(Error::VariantNotFound(ty, variant)),
                    Some(expected) => match check_expr(*value, env, fuel) {
                        Err(e) => Err(e),
                        Ok(_) => match type_of_expr(*value, env, fuel) {
                            Err(e) => Err(e),
                            Ok(found) => check_same_type(expected, found, e, env, fuel),
                        },
                    },
                },
                Ok(_) => Err(Error::VariantNotFound(ty, variant)),
            },
        },
        Expr::As(x, ty) => match check_expr(*x, env, fuel) {
            Err(e) => Err(e),
            Ok(_) => match type_of_expr(*x, env, fuel) {
                Err(e) => Err(e),
                Ok(found) => match casts(found, ty, env, fuel) {
                    Err(e) => Err(e),
                    Ok(true) => Ok(()),
                    Ok(false) => Err(Error::InvalidAs(e, found, ty)),
                },
            },
        },
        Expr::Member(x, _) => match check_expr(*x, env, fuel) {
            Err(e) => Err(e),
            Ok(_) => typed(type_of_expr(e, env, fuel)),
        },
        Expr::Index(value, index) => match check_expr(*value, env, fuel) {
            Err(e) => Err(e),
            Ok(_) => match check_expr(*index, env, fuel) {
                Err(e) => Err(e),
                Ok(_) => match type_of_expr(e, env, fuel) {
                    Err(e) => Err(e),
                    Ok(_) => match type_of_expr(*index, env, fuel) {
                        Err(e) => Err(e),
                        Ok(Type::Int) => Ok(()),
                        Ok(_) => Err(Error::InvalidIndex(e)),
                    },
                },
            },
        },
    }
}

/// Is every expression of the list sound?
pub open spec fn check_exprs(items: Exprs, env: Env, fuel: nat) -> Result<(), Error>
    decreases items,
{
    match items {
        Exprs::Nil => Ok(()),
        Exprs::Cons(e, rest) => match check_expr(e, env, fuel) {
            Err(e) => Err(e),
            Ok(_) => check_exprs(*rest, env, fuel),
        },
    }
}

/// Are the items of an array literal sound, each with a type equal to
/// that of the item before it? `last` is the type of the item before the
/// list. An item whose type differs is reported itself.
pub open spec fn check_items(items: Exprs, last: Option<Type>, env: Env, fuel: nat) -> Result<
    (),
    Error,
>
    decreases items,
{
    match items {
        Exprs::Nil => Ok(()),
        Exprs::Cons(e, rest) => match check_expr(e, env, fuel) {
            Err(e) => Err(e),
            Ok(_) => match type_of_expr(e, env, fuel) {
                Err(e) => Err(e),
                Ok(t) => match last {
                    None => check_items(*rest, Some(t), env, fuel),
                    Some(l) => match check_same_type(l, t, e, env, fuel) {
                        Err(e) => Err(e),
                        Ok(_) => check_items(*rest, Some(t), env, fuel),
                    },
                },
            },
        },
    }
}

/// Is every expression of the named list sound?
pub open spec fn check_expr_fields(fields: ExprFields, env: Env, fuel: nat) -> Result<(), Error>
    decreases fields,
{
    match fields {
        ExprFields::Nil => Ok(()),
        ExprFields::Cons(_, e, rest) => match check_expr(e, env, fuel) {
            Err(e) => Err(e),
            Ok(_) => check_expr_fields(*rest, env, fuel),
        },
    }
}

/// Is every procedure of the list sound?
pub open spec fn check_procs(defs: ProcDefs, env: Env, fuel: nat) -> Result<(), Error>
    decreases defs,
{
    match defs {
        ProcDefs::Nil => Ok(()),
        ProcDefs::Cons(_, p, rest) => match check_proc(p, env, fuel) {
            Err(e) => Err(e),
            Ok(_) => check_procs(*rest, env, fuel),
        },
    }
}

/// Are the definitions of a block of variables sound? If so, the
/// environment behind them.
///
/// Each initializer is checked with the variables before it in scope. An
/// annotation is checked, and compared with the type of the initializer,
/// in `outer`, the environment of the whole block; `whole` is the block,
/// reported where the two differ.
pub open spec fn check_vars(defs: VarDefs, whole: Expr, outer: Env, env: Env, fuel: nat) -> Result<
    Env,
    Error,
>
    decreases defs,
{
    match defs {
        VarDefs::Nil => Ok(env),
        VarDefs::Cons(name, mutability, annotation, init, rest) => match check_expr(
            init,
            env,
            fuel,
        ) {
            Err(e) => Err(e),
            Ok(_) => match type_of_expr(init, env, fuel) {
                Err(e) => Err(e),
                Ok(inferred) => match annotation {
                    None => check_vars(
                        *rest,
                        whole,
                        outer,
                        env.with_var(name, mutability, inferred),
                        fuel,
                    ),
                    Some(t) => match check_type(t, outer, fuel) {
                        Err(e) => Err(e),
                        Ok(_) => match equal_types(inferred, t, outer, fuel) {
                            Err(e) => Err(e),
                            Ok(false) => Err(mismatch(t, inferred, whole)),
                            Ok(true) => check_vars(
                                *rest,
                                whole,
                                outer,
                                env.with_var(name, mutability, t),
                                fuel,
                            ),
                        },
                    },
                },
            },
        },
    }
}

/// Is the procedure sound?
///
/// Its parameters are bound in a new scope, where no two of them may
/// share a name, and its return type is what the scope expects. There the
/// parameter types and the return type must be sound, the type of the body
/// must decay to the return type, and the body must be sound.
pub open spec fn check_proc(p: Procedure, env: Env, fuel: nat) -> Result<(), Error>
    decreases p,
{
    match env.scope().with_args(p.args) {
        Err(e) => Err(e),
        Ok(scope) => {
            let inner = scope.with_expected_ret(p.ret);
            match check_params(p.args, inner, fuel) {
                Err(e) => Err(e),
                Ok(_) => match check_type(p.ret, inner, fuel) {
                    Err(e) => Err(e),
                    Ok(_) => match type_of_expr(*p.body, inner, fuel) {
                        Err(e) => Err(e),
                        Ok(found) => match decays(found, p.ret, inner, fuel) {
                            Err(e) => Err(e),
                            Ok(false) => Err(
                                mismatch(p.ret, found, Expr::ConstExpr(ConstExpr::Proc(p))),
                            ),
                            Ok(true) => check_expr(*p.body, inner, fuel),
                        },
                    },
                },
            }
        },
    }
}

/// Is the procedure template sound?
///
/// It is checked as a procedure is, in a scope where each of its type
/// parameters is a type of its own that equals no other.
pub open spec fn check_poly(p: PolyProcedure, env: Env, fuel: nat) -> Result<(), Error>
    decreases p,
{
    match env.scope().with_opaque(p.ty_params).with_args(p.args) {
        Err(e) => Err(e),
        Ok(scope) => {
            let inner = scope.with_expected_ret(p.ret);
            match check_params(p.args, inner, fuel) {
                Err(e) => Err(e),
                Ok(_) => match check_type(p.ret, inner, fuel) {
                    Err(e) => Err(e),
                    Ok(_) => match type_of_expr(*p.body, inner, fuel) {
                        Err(e) => Err(e),
                        Ok(found) => match decays(found, p.ret, inner, fuel) {
                            Err(e) => Err(e),
                            Ok(false) => Err(
                                mismatch(p.ret, found, Expr::ConstExpr(ConstExpr::PolyProc(p))),
                            ),
                            Ok(true) => check_expr(*p.body, inner, fuel),
                        },
                    },
                },
            }
        },
    }
}

fn same_type(expected: Type, found: Type, expr: &Expr, env: &Env, fuel: usize) -> (r: Result<
    (),
    Error,
>)
    ensures
        r == check_same_type(expected, found, *expr, *env, fuel as nat),
{
    match expected.equals_within(&found, env, fuel) {
        Err(e) => Err(e),
        Ok(true) => Ok(()),
        Ok(false) => Err(Error::MismatchedTypes { expected, found, expr: expr.clone() }),
    }
}

fn has_type(t: Result<Type, Error>) -> (r: Result<(), Error>)
    ensures
        r == typed(t),
{
    match t {
        Err(e) => Err(e),
        Ok(_) => Ok(()),
    }
}

impl Types {
    /// Checks every type of the list, with `fuel` nested steps for what
    /// is looked up.
    pub fn check_within(&self, env: &Env, fuel: usize) -> (r: Result<(), Error>)
        ensures
            r == check_types(*self, *env, fuel as nat),
        decreases self,
    {
        match self {
            Types::Nil => Ok(()),
            Types::Cons(t, rest) => match t.check_within(env, fuel) {
                Err(e) => Err(e),
                Ok(_) => rest.check_within(env, fuel),
            },
        }
    }
}

impl Fields {
    /// Checks the type of every field, with `fuel` nested steps for what
    /// is looked up.
    pub fn check_within(&self, env: &Env, fuel: usize) -> (r: Result<(), Error>)
        ensures
            r == check_fields(*self, *env, fuel as nat),
        decreases self,
    {
        match self {
            Fields::Nil => Ok(()),
            Fields::Cons(_, t, rest) => match t.check_within(env, fuel) {
                Err(e) => Err(e),
                Ok(_) => rest.check_within(env, fuel),
            },
        }
    }
}

impl Params {
    /// Checks the type of every parameter, with `fuel` nested steps for
    /// what is looked up.
    pub fn check_within(&self, env: &Env, fuel: usize) -> (r: Result<(), Error>)
        ensures
            r == check_params(*self, *env, fuel as nat),
        decreases self,
    {
        match self {
            Params::Nil => Ok(()),
            Params::Cons(_, _, t, rest) => match t.check_within(env, fuel) {
                Err(e) => Err(e),
                Ok(_) => rest.check_within(env, fuel),
            },
        }
    }
}

impl Type {
    /// Checks the type, with `fuel` nested steps for what is looked up.
    pub fn check_within(&self, env: &Env, fuel: usize) -> (r: Result<(), Error>)
        ensures
            r == check_type(*self, *env, fuel as nat),
        decreases self,
    {
        match self {
            Type::Unit(_, inner) => inner.check_within(env, fuel),
            Type::Symbol(name) => if env.types.get(name).is_some() {
                Ok(())
            } else {
                Err(Error::TypeNotDefined(name.clone()))
            },
            Type::Let(name, bound, body) => {
                let mut inner = env.clone();
                inner.define_type(name.clone(), (&**bound).clone());
                match bound.check_within(&inner, fuel) {
                    Err(e) => Err(e),
                    Ok(_) => body.check_within(&inner, fuel),
                }
            },
            Type::Array(elem, len) => match elem.check_within(env, fuel) {
                Err(e) => Err(e),
                Ok(_) => match len.check_within(env, fuel) {
                    Err(e) => Err(e),
                    Ok(_) => match len.as_int_within(env, fuel) {
                        Err(e) => Err(e),
                        Ok(n) => if n < 0 {
                            Err(Error::NegativeArrayLength(Expr::ConstExpr((&**len).clone())))
                        } else {
                            Ok(())
                        },
                    },
                },
            },
            Type::Tuple(items) => items.check_within(env, fuel),
            Type::Struct(fields) => match fields.get_names().find_repeated() {
                Some(name) => Err(Error::DuplicateField(name)),
                None => fields.check_within(env, fuel),
            },
            Type::Union(fields) => match fields.get_names().find_repeated() {
                Some(name) => Err(Error::DuplicateField(name)),
                None => fields.check_within(env, fuel),
            },
            Type::Proc(args, ret) => match args.check_within(env, fuel) {
                Err(e) => Err(e),
                Ok(_) => ret.check_within(env, fuel),
            },
            Type::Pointer(inner) => inner.check_within(env, fuel),
            Type::Poly(params, body) => {
                let mut inner = env.clone();
                inner.define_opaque(params);
                body.check_within(&inner, fuel)
            },
            Type::Apply(scheme, args) => match scheme.check_within(env, fuel) {
                Err(e) => Err(e),
                Ok(_) => args.check_within(env, fuel),
            },
            _ => Ok(()),
        }
    }
}

impl ConstExprs {
    /// Checks every constant of the list.
    pub fn check_within(&self, env: &Env, fuel: usize) -> (r: Result<(), Error>)
        ensures
            r == check_consts(*self, *env, fuel as nat),
        decreases self,
    {
        match self {
            ConstExprs::Nil => Ok(()),
            ConstExprs::Cons(c, rest) => match c.check_within(env, fuel) {
                Err(e) => Err(e),
                Ok(_) => rest.check_within(env, fuel),
            },
        }
    }

    /// Checks the items of a constant array, `last` being the type of the
    /// item before the list.
    pub fn check_items_within(&self, last: Option<Type>, env: &Env, fuel: usize) -> (r: Result<
        (),
        Error,
    >)
        ensures
            r == check_const_items(*self, last, *env, fuel as nat),
        decreases self,
    {
        match self {
            ConstExprs::Nil => Ok(()),
            ConstExprs::Cons(c, rest) => match c.check_within(env, fuel) {
                Err(e) => Err(e),
                Ok(_) => match c.get_type_within(env, fuel) {
                    Err(e) => Err(e),
                    Ok(t) => match last {
                        None => rest.check_items_within(Some(t), env, fuel),
                        Some(l) => {
                            let whole = Expr::ConstExpr(c.clone());
                            match same_type(l, t.clone(), &whole, env, fuel) {
                                Err(e) => Err(e),
                                Ok(_) => rest.check_items_within(Some(t), env, fuel),
                            }
                        },
                    },
                },
            },
        }
    }
}

impl ConstFields {
    /// Checks every constant of the list.
    pub fn check_within(&self, env: &Env, fuel: usize) -> (r: Result<(), Error>)
        ensures
            r == check_const_fields(*self, *env, fuel as nat),
        decreases self,
    {
        match self {
            ConstFields::Nil => Ok(()),
            ConstFields::Cons(_, c, rest) => match c.check_within(env, fuel) {
                Err(e) => Err(e),
                Ok(_) => rest.check_within(env, fuel),
            },
        }
    }
}

impl ConstExpr {
    /// Checks the constant, with `fuel` nested steps for what is looked
    /// up.
    pub fn check_within(&self, env: &Env, fuel: usize) -> (r: Result<(), Error>)
        ensures
            r == check_const(*self, *env, fuel as nat),
        decreases self,
    {
        match self {
            ConstExpr::TypeOf(e) => e.check_within(env, fuel),
            ConstExpr::As(inner, ty) => match inner.get_type_within(env, fuel) {
                Err(e) => Err(e),
                Ok(found) => match found.casts_within(ty, env, fuel) {
                    Err(e) => Err(e),
                    Ok(true) => Ok(()),
                    Ok(false) => Err(
                        Error::InvalidAs(Expr::ConstExpr((&**inner).clone()), found, ty.clone()),
                    ),
                },
            },
            ConstExpr::SizeOfExpr(e) => e.check_within(env, fuel),
            ConstExpr::Proc(p) => p.check_within(env, fuel),
            ConstExpr::PolyProc(p) => p.check_within(env, fuel),
            ConstExpr::Monomorphize(template, args) => match template.check_within(env, fuel) {
                Err(e) => Err(e),
                Ok(_) => match args.check_within(env, fuel) {
                    Err(e) => Err(e),
                    Ok(_) => match template.get_type_within(env, fuel) {
                        Err(e) => Err(e),
                        Ok(t) => match t.simplify_within(env, fuel) {
                            Err(e) => Err(e),
                            Ok(Type::Poly(params, body)) => if params.matches_arity(args) {
                                Ok(())
                            } else {
                                Err(
                                    Error::InvalidTemplateArgs(
                                        Type::Apply(Box::new(t), Box::new(args.clone())),
                                    ),
                                )
                            },
                            Ok(_) => Err(Error::InvalidMonomorphize(self.clone())),
                        },
                    },
                },
            },
            ConstExpr::Symbol(name) => if env.consts.get(name).is_some() || env.procs.get(
                name,
            ).is_some() || env.vars.get(name).is_some() {
                Ok(())
            } else {
                Err(Error::SymbolNotDefined(name.clone()))
            },
            ConstExpr::Of(ty, variant) => match ty.simplify_within(env, fuel) {
                Err(e) => Err(e),
                Ok(Type::Enum(variants)) => if variants.has(variant) {
                    Ok(())
                } else {
                    Err(Error::VariantNotFound(ty.clone(), variant.clone()))
                },
                Ok(_) => Err(Error::VariantNotFound(ty.clone(), variant.clone())),
            },
            ConstExpr::Tuple(items) => items.check_within(env, fuel),
            ConstExpr::Array(items) => items.check_items_within(None, env, fuel),
            ConstExpr::Struct(fields) => match fields.get_names().find_repeated() {
                Some(name) => Err(Error::DuplicateField(name)),
                None => fields.check_within(env, fuel),
            },
            ConstExpr::Union(ty, variant, value) => match ty.simplify_within(env, fuel) {
                Err(e) => Err(e),
                Ok(Type::Union(fields)) => match fields.get(variant) {
                    None => Err(Error::VariantNotFound(ty.clone(), variant.clone())),
                    Some(expected) => match value.check_within(env, fuel) {
                        Err(e) => Err(e),
                        Ok(_) => match value.get_type_within(env, fuel) {
                            Err(e) => Err(e),
                            Ok(found) => {
                                let whole = Expr::ConstExpr(self.clone());
                                same_type(expected.clone(), found, &whole, env, fuel)
                            },
                        },
                    },
                },
                Ok(_) => Err(Error::VariantNotFound(ty.clone(), variant.clone())),
            },
            _ => Ok(()),
        }
    }
}

impl Exprs {
    /// Checks every expression of the list.
    pub fn check_within(&self, env: &Env, fuel: usize) -> (r: Result<(), Error>)
        ensures
            r == check_exprs(*self, *env, fuel as nat),
        decreases self,
    {
        match self {
            Exprs::Nil => Ok(()),
            Exprs::Cons(e, rest) => match e.check_within(env, fuel) {
                Err(e) => Err(e),
                Ok(_) => rest.check_within(env, fuel),
            },
        }
    }

    /// Checks the items of an array literal, `last` being the type of the
    /// item before the list.
    pub fn check_items_within(&self, last: Option<Type>, env: &Env, fuel: usize) -> (r: Result<
        (),
        Error,
    >)
        ensures
            r == check_items(*self, last, *env, fuel as nat),
        decreases self,
    {
        match self {
            Exprs::Nil => Ok(()),
            Exprs::Cons(e, rest) => match e.check_within(env, fuel) {
                Err(e) => Err(e),
                Ok(_) => match e.get_type_within(env, fuel) {
                    Err(e) => Err(e),
                    Ok(t) => match last {
                        None => rest.check_items_within(Some(t), env, fuel),
                        Some(l) => match same_type(l, t.clone(), e, env, fuel) {
                            Err(e) => Err(e),
                            Ok(_) => rest.check_items_within(Some(t), env, fuel),
                        },
                    },
                },
            },
        }
    }
}

impl ExprFields {
    /// Checks every expression of the list.
    pub fn check_within(&self, env: &Env, fuel: usize) -> (r: Result<(), Error>)
        ensures
            r == check_expr_fields(*self, *env, fuel as nat),
        decreases self,
    {
        match self {
            ExprFields::Nil => Ok(()),
            ExprFields::Cons(_, e, rest) => match e.check_within(env, fuel) {
                Err(e) => Err(e),
                Ok(_) => rest.check_within(env, fuel),
            },
        }
    }
}

impl ProcDefs {
    /// Checks every procedure of the list.
    pub fn check_within(&self, env: &Env, fuel: usize) -> (r: Result<(), Error>)
        ensures
            r == check_procs(*self, *env, fuel as nat),
        decreases self,
    {
        match self {
            ProcDefs::Nil => Ok(()),
            ProcDefs::Cons(_, p, rest) => match p.check_within(env, fuel) {
                Err(e) => Err(e),
                Ok(_) => rest.check_within(env, fuel),
            },
        }
    }
}

impl VarDefs {
    /// Checks the definitions of a block of variables and gives the
    /// environment behind them.
    pub fn check_within(&self, whole: &Expr, outer: &Env, env: Env, fuel: usize) -> (r: Result<
        Env,
        Error,
    >)
        ensures
            r == check_vars(*self, *whole, *outer, env, fuel as nat),
        decreases self,
    {
        match self {
            VarDefs::Nil => Ok(env),
            VarDefs::Cons(name, mutability, annotation, init, rest) => match init.check_within(
                &env,
                fuel,
            ) {
                Err(e) => Err(e),
                Ok(_) => match init.get_type_within(&env, fuel) {
                    Err(e) => Err(e),
                    Ok(inferred) => match annotation {
                        None => {
                            let mut inner = env;
                            inner.define_var(name.clone(), *mutability, inferred);
                            rest.check_within(whole, outer, inner, fuel)
                        },
                        Some(t) => match t.check_within(outer, fuel) {
                            Err(e) => Err(e),
                            Ok(_) => match inferred.equals_within(t, outer, fuel) {
                                Err(e) => Err(e),
                                Ok(false) => Err(
                                    Error::MismatchedTypes {
                                        expected: t.clone(),
                                        found: inferred,
                                        expr: whole.clone(),
                                    },
                                ),
                                Ok(true) => {
                                    let mut inner = env;
                                    inner.define_var(name.clone(), *mutability, t.clone());
                                    rest.check_within(whole, outer, inner, fuel)
                                },
                            },
                        },
                    },
                },
            },
        }
    }
}

impl Expr {
    /// Checks the expression, with `fuel` nested steps for what is looked
    /// up.
    pub fn check_within(&self, env: &Env, fuel: usize) -> (r: Result<(), Error>)
        ensures
            r == check_expr(*self, *env, fuel as nat),
        decreases self,
    {
        match self {
            Expr::UnaryOp(_, x) => match x.check_within(env, fuel) {
                Err(e) => Err(e),
                Ok(_) => has_type(self.get_type_within(env, fuel)),
            },
            Expr::BinaryOp(_, x, y) => match x.check_within(env, fuel) {
                Err(e) => Err(e),
                Ok(_) => match y.check_within(env, fuel) {
                    Err(e) => Err(e),
                    Ok(_) => has_type(self.get_type_within(env, fuel)),
                },
            },
            Expr::TernaryOp(_, x, y, z) => match x.check_within(env, fuel) {
                Err(e) => Err(e),
                Ok(_) => match y.check_within(env, fuel) {
                    Err(e) => Err(e),
                    Ok(_) => match z.check_within(env, fuel) {
                        Err(e) => Err(e),
                        Ok(_) => has_type(self.get_type_within(env, fuel)),
                    },
                },
            },
            Expr::AssignOp(_, x, y) => match x.check_within(env, fuel) {
                Err(e) => Err(e),
                Ok(_) => match y.check_within(env, fuel) {
                    Err(e) => Err(e),
                    Ok(_) => has_type(self.get_type_within(env, fuel)),
                },
            },
            Expr::ConstExpr(c) => c.check_within(env, fuel),
            Expr::Many(items) => items.check_within(env, fuel),
            Expr::LetConst(name, value, body) => {
                let mut inner = env.clone();
                inner.define_const(name.clone(), value.clone());
                match value.check_within(&inner, fuel) {
                    Err(e) => Err(e),
                    Ok(_) => body.check_within(&inner, fuel),
                }
            },
            Expr::LetConsts(defs, body) => {
                let mut inner = env.clone();
                inner.define_consts(defs);
                match defs.check_within(&inner, fuel) {
                    Err(e) => Err(e),
                    Ok(_) => body.check_within(&inner, fuel),
                }
            },
            Expr::LetProc(name, value, body) => {
                let mut inner = env.clone();
                inner.define_proc(name.clone(), value.clone());
                match value.check_within(&inner, fuel) {
                    Err(e) => Err(e),
                    Ok(_) => body.check_within(&inner, fuel),
                }
            },
            Expr::LetProcs(defs, body) => {
                let mut inner = env.clone();
                inner.define_procs(defs);
                match defs.check_within(&inner, fuel) {
                    Err(e) => Err(e),
                    Ok(_) => body.check_within(&inner, fuel),
                }
            },
            Expr::LetType(name, ty, body) => {
                let mut inner = env.clone();
                inner.define_type(name.clone(), ty.clone());
                match ty.check_within(&inner, fuel) {
                    Err(e) => Err(e),
                    Ok(_) => body.check_within(&inner, fuel),
                }
            },
            Expr::LetTypes(defs, body) => {
                let mut inner = env.clone();
                inner.define_types(defs);
                match defs.check_within(&inner, fuel) {
                    Err(e) => Err(e),
                    Ok(_) => body.check_within(&inner, fuel),
                }
            },
            Expr::LetVar(name, mutability, annotation, init, body) => match init.check_within(
                env,
                fuel,
            ) {
                Err(e) => Err(e),
                Ok(_) => match init.get_type_within(env, fuel) {
                    Err(e) => Err(e),
                    Ok(inferred) => match annotation {
                        None => {
                            let mut inner = env.clone();
                            inner.define_var(name.clone(), *mutability, inferred);
                            body.check_within(&inner, fuel)
                        },
                        Some(t) => match t.check_within(env, fuel) {
                            Err(e) => Err(e),
                            Ok(_) => match inferred.equals_within(t, env, fuel) {
                                Err(e) => Err(e),
                                Ok(false) => Err(
                                    Error::MismatchedTypes {
                                        expected: t.clone(),
                                        found: inferred,
                                        expr: self.clone(),
                                    },
                                ),
                                Ok(true) => {
                                    let mut inner = env.clone();
                                    inner.define_var(name.clone(), *mutability, t.clone());
                                    body.check_within(&inner, fuel)
                                },
                            },
                        },
                    },
                },
            },
            Expr::LetVars(defs, body) => match defs.check_within(self, env, env.clone(), fuel) {
                Err(e) => Err(e),
                Ok(inner) => body.check_within(&inner, fuel),
            },
            Expr::While(cond, body) => match cond.check_within(env, fuel) {
                Err(e) => Err(e),
                Ok(_) => body.check_within(env, fuel),
            },
            Expr::If(cond, then, otherwise) => match cond.check_within(env, fuel) {
                Err(e) => Err(e),
                Ok(_) => match then.check_within(env, fuel) {
                    Err(e) => Err(e),
                    Ok(_) => match otherwise.check_within(env, fuel) {
                        Err(e) => Err(e),
                        Ok(_) => match then.get_type_within(env, fuel) {
                            Err(e) => Err(e),
                            Ok(t) => match otherwise.get_type_within(env, fuel) {
                                Err(e) => Err(e),
                                Ok(u) => same_type(t, u, self, env, fuel),
                            },
                        },
                    },
                },
            },
            Expr::When(cond, then, otherwise) => match cond.check_within(env, fuel) {
                Err(e) => Err(e),
                Ok(_) => match then.check_within(env, fuel) {
                    Err(e) => Err(e),
                    Ok(_) => otherwise.check_within(env, fuel),
                },
            },
            Expr::Refer(x) => x.check_within(env, fuel),
            Expr::Deref(x) => match x.check_within(env, fuel) {
                Err(e) => Err(e),
                Ok(_) => has_type(self.get_type_within(env, fuel)),
            },
            Expr::DerefMut(pointer, value) => match pointer.check_within(env, fuel) {
                Err(e) => Err(e),
                Ok(_) => match value.check_within(env, fuel) {
                    Err(e) => Err(e),
                    Ok(_) => match pointer.get_type_within(env, fuel) {
                        Err(e) => Err(e),
                        Ok(p) => match value.get_type_within(env, fuel) {
                            Err(e) => Err(e),
                            Ok(v) => match p.simplify_within(env, fuel) {
                                Err(e) => Err(e),
                                Ok(Type::Pointer(target)) => match target.equals_within(
                                    &v,
                                    env,
                                    fuel,
                                ) {
                                    Err(e) => Err(e),
                                    Ok(true) => Ok(()),
                                    Ok(false) => Err(
                                        Error::MismatchedTypes {
                                            expected: v,
                                            found: *target,
                                            expr: self.clone(),
                                        },
                                    ),
                                },
                                Ok(found) => Err(
                                    Error::MismatchedTypes {
                                        expected: Type::Pointer(Box::new(Type::Any)),
                                        found,
                                        expr: self.clone(),
                                    },
                                ),
                            },
                        },
                    },
                },
            },
            Expr::Apply(f, args) => match f.check_within(env, fuel) {
                Err(e) => Err(e),
                Ok(_) => match args.check_within(env, fuel) {
                    Err(e) => Err(e),
                    Ok(_) => match f.get_type_within(env, fuel) {
                        Err(e) => Err(e),
                        Ok(t) => match args.get_types_within(env, fuel) {
                            Err(e) => Err(e),
                            Ok(inferred) => match t.simplify_within(env, fuel) {
                                Err(e) => Err(e),
                                Ok(Type::Proc(params, ret)) => match params.equals_within(
                                    &inferred,
                                    env,
                                    fuel,
                                ) {
                                    Err(e) => Err(e),
                                    Ok(true) => Ok(()),
                                    Ok(false) => {
                                        let found = Type::Proc(
                                            Box::new(inferred),
                                            Box::new((&*ret).clone()),
                                        );
                                        Err(
                                            Error::MismatchedTypes {
                                                expected: Type::Proc(params, ret),
                                                found,
                                                expr: self.clone(),
                                            },
                                        )
                                    },
                                },
                                Ok(found) => Err(
                                    Error::MismatchedTypes {
                                        expected: Type::Proc(
                                            Box::new(inferred),
                                            Box::new(Type::Any),
                                        ),
                                        found,
                                        expr: self.clone(),
                                    },
                                ),
                            },
                        },
                    },
                },
            },
            Expr::Return(x) => x.check_within(env, fuel),
            Expr::Array(items) => items.check_items_within(None, env, fuel),
            Expr::Tuple(items) => items.check_within(env, fuel),
            Expr::Struct(fields) => match fields.get_names().find_repeated() {
                Some(name) => Err(Error::DuplicateField(name)),
                None => fields.check_within(env, fuel),
            },
            Expr::Union(ty, variant, value) => match ty.check_within(env, fuel) {
                Err(e) => Err(e),
                Ok(_) => match ty.simplify_within(env, fuel) {
                    Err(e) => Err(e),
                    Ok(Type::Union(fields)) => match fields.get(variant) {
                        None => Err(Error::VariantNotFound(ty.clone(), variant.clone())),
                        Some(expected) => match value.check_within(env, fuel) {
                            Err(e) => Err(e),
                            Ok(_) => match value.get_type_within(env, fuel) {
                                Err(e) => Err(e),
                                Ok(found) => same_type(expected.clone(), found, self, env, fuel),
                            },
                        },
                    },
                    Ok(_) => Err(Error::VariantNotFound(ty.clone(), variant.clone())),
                },
            },
            Expr::As(x, ty) => match x.check_within(env, fuel) {
                Err(e) => Err(e),
                Ok(_) => match x.get_type_within(env, fuel) {
                    Err(e) => Err(e),
                    Ok(found) => match found.casts_within(ty, env, fuel) {
                        Err(e) => Err(e),
                        Ok(true) => Ok(()),
                        Ok(false) => Err(Error::InvalidAs(self.clone(), found, ty.clone())),
                    },
                },
            },
            Expr::Member(x, _) => match x.check_within(env, fuel) {
                Err(e) => Err(e),
                Ok(_) => has_type(self.get_type_within(env, fuel)),
            },
            Expr::Index(value, index) => match value.check_within(env, fuel) {
                Err(e) => Err(e),
                Ok(_) => match index.check_within(env, fuel) {
                    Err(e) => Err(e),
                    Ok(_) => match self.get_type_within(env, fuel) {
                        Err(e) => Err(e),
                        Ok(_) => match index.get_type_within(env, fuel) {
                            Err(e) => Err(e),
                            Ok(Type::Int) => Ok(()),
                            Ok(_) => Err(Error::InvalidIndex(self.clone())),
                        },
                    },
                },
            },
        }
    }
}

impl Procedure {
    /// Checks the procedure, with `fuel` nested steps for what is looked
    /// up.
    pub fn check_within(&self, env: &Env, fuel: usize) -> (r: Result<(), Error>)
        ensures
            r == check_proc(*self, *env, fuel as nat),
        decreases self,
    {
        let mut inner = env.new_scope();
        match inner.define_args(&self.args) {
            Err(e) => Err(e),
            Ok(_) => {
                inner.set_expected_return_type(self.ret.clone());
                match self.args.check_within(&inner, fuel) {
                    Err(e) => Err(e),
                    Ok(_) => match self.ret.check_within(&inner, fuel) {
                        Err(e) => Err(e),
                        Ok(_) => match self.body.get_type_within(&inner, fuel) {
                            Err(e) => Err(e),
                            Ok(found) => match found.decays_within(&self.ret, &inner, fuel) {
                                Err(e) => Err(e),
                                Ok(false) => Err(
                                    Error::MismatchedTypes {
                                        expected: self.ret.clone(),
                                        found,
                                        expr: Expr::ConstExpr(ConstExpr::Proc(self.clone())),
                                    },
                                ),
                                Ok(true) => self.body.check_within(&inner, fuel),
                            },
                        },
                    },
                }
            },
        }
    }
}

impl PolyProcedure {
    /// Checks the template, with `fuel` nested steps for what is looked
    /// up.
    pub fn check_within(&self, env: &Env, fuel: usize) -> (r: Result<(), Error>)
        ensures
            r == check_poly(*self, *env, fuel as nat),
        decreases self,
    {
        let mut inner = env.new_scope();
        inner.define_opaque(&self.ty_params);
        match inner.define_args(&self.args) {
            Err(e) => Err(e),
            Ok(_) => {
                inner.set_expected_return_type(self.ret.clone());
                match self.args.check_within(&inner, fuel) {
                    Err(e) => Err(e),
                    Ok(_) => match self.ret.check_within(&inner, fuel) {
                        Err(e) => Err(e),
                        Ok(_) => match self.body.get_type_within(&inner, fuel) {
                            Err(e) => Err(e),
                            Ok(found) => match found.decays_within(&self.ret, &inner, fuel) {
                                Err(e) => Err(e),
                                Ok(false) => Err(
                                    Error::MismatchedTypes {
                                        expected: self.ret.clone(),
                                        found,
                                        expr: Expr::ConstExpr(ConstExpr::PolyProc(self.clone())),
                                    },
                                ),
                                Ok(true) => self.body.check_within(&inner, fuel),
                            },
                        },
                    },
                }
            },
        }
    }
}

impl TypeCheck for Type {
    open spec fn checked(&self, env: Env) -> Result<(), Error> {
        check_type(*self, env, RECURSION_LIMIT as nat)
    }

    fn type_check(&self, env: &Env) -> (r: Result<(), Error>) {
        self.check_within(env, RECURSION_LIMIT)
    }
}

impl TypeCheck for ConstExpr {
    open spec fn checked(&self, env: Env) -> Result<(), Error> {
        check_const(*self, env, RECURSION_LIMIT as nat)
    }

    fn type_check(&self, env: &Env) -> (r: Result<(), Error>) {
        self.check_within(env, RECURSION_LIMIT)
    }
}

impl TypeCheck for Expr {
    open spec fn checked(&self, env: Env) -> Result<(), Error> {
        check_expr(*self, env, RECURSION_LIMIT as nat)
    }

    fn type_check(&self, env: &Env) -> (r: Result<(), Error>) {
        self.check_within(env, RECURSION_LIMIT)
    }
}

impl TypeCheck for Procedure {
    open spec fn checked(&self, env: Env) -> Result<(), Error> {
        check_proc(*self, env, RECURSION_LIMIT as nat)
    }

    fn type_check(&self, env: &Env) -> (r: Result<(), Error>) {
        self.check_within(env, RECURSION_LIMIT)
    }
}

impl TypeCheck for PolyProcedure {
    open spec fn checked(&self, env: Env) -> Result<(), Error> {
        check_poly(*self, env, RECURSION_LIMIT as nat)
    }

    fn type_check(&self, env: &Env) -> (r: Result<(), Error>) {
        self.check_within(env, RECURSION_LIMIT)
    }
}

} // verus!
