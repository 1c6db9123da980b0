//! Type inference: the type of an expression or of a constant.
//!
//! Inference reads off the type that a term has if it is sound; whether
//! it is sound is decided by the checker.
use vstd::prelude::*;
use crate::env::Env;
use crate::error::Error;
use crate::eval::const_bool;
use crate::layout::member_of;
use crate::relate::operator_result;
use crate::simplify::{simplified, RECURSION_LIMIT};
use crate::syntax::{
    Builtin, ConstExpr, ConstExprs, ConstFields, Expr, ExprFields, Exprs, Fields, Params,
    PolyProcedure, Procedure, Type, Types, VarDefs,
};

verus! {

impl Params {
    /// The types of the parameters, in order.
    pub open spec fn types(self) -> Types
        decreases self,
    {
        match self {
            Params::Nil => Types::Nil,
            Params::Cons(_, _, t, rest) => Types::Cons(t, Box::new(rest.types())),
        }
    }

    /// The types of the parameters, in order.
    pub fn get_types(&self) -> (r: Types)
        ensures
            r == self.types(),
        decreases self,
    {
        match self {
            Params::Nil => Types::Nil,
            Params::Cons(_, _, t, rest) => Types::Cons(t.clone(), Box::new(rest.get_types())),
        }
    }
}

impl Exprs {
    /// The length of the list, if it fits a constant integer.
    pub open spec fn count(self) -> Option<i64>
        decreases self,
    {
        match self {
            Exprs::Nil => Some(0),
            Exprs::Cons(_, rest) => match rest.count() {
                Some(n) if n < i64::MAX => Some((n + 1) as i64),
                _ => None,
            },
        }
    }

    /// The length of the list, if it fits a constant integer.
    pub fn get_count(&self) -> (r: Option<i64>)
        ensures
            r == self.count(),
        decreases self,
    {
        match self {
            Exprs::Nil => Some(0),
            Exprs::Cons(_, rest) => match rest.get_count() {
                Some(n) if n < 0x7fff_ffff_ffff_ffff => Some(n + 1),
                _ => None,
            },
        }
    }
}

impl ConstExprs {
    /// The length of the list, if it fits a constant integer.
    pub open spec fn count(self) -> Option<i64>
        decreases self,
    {
        match self {
            ConstExprs::Nil => Some(0),
            ConstExprs::Cons(_, rest) => match rest.count() {
                Some(n) if n < i64::MAX => Some((n + 1) as i64),
                _ => None,
            },
        }
    }

    /// The length of the list, if it fits a constant integer.
    pub fn get_count(&self) -> (r: Option<i64>)
        ensures
            r == self.count(),
        decreases self,
    {
        match self {
            ConstExprs::Nil => Some(0),
            ConstExprs::Cons(_, rest) => match rest.get_count() {
                Some(n) if n < 0x7fff_ffff_ffff_ffff => Some(n + 1),
                _ => None,
            },
        }
    }
}

impl Procedure {
    /// The type of the procedure: from its parameter types to its return
    /// type.
    pub open spec fn signature(self) -> Type {
        Type::Proc(Box::new(self.args.types()), Box::new(self.ret))
    }

    /// The type of the procedure.
    pub fn get_signature(&self) -> (r: Type)
        ensures
            r == self.signature(),
    {
        Type::Proc(Box::new(self.args.get_types()), Box::new(self.ret.clone()))
    }
}

impl Builtin {
    /// The type of the builtin: from its parameter types to its return
    /// type.
    pub open spec fn signature(self) -> Type {
        Type::Proc(Box::new(self.args.types()), Box::new(self.ret))
    }

    /// The type of the builtin.
    pub fn get_signature(&self) -> (r: Type)
        ensures
            r == self.signature(),
    {
        Type::Proc(Box::new(self.args.get_types()), Box::new(self.ret.clone()))
    }
}

impl PolyProcedure {
    /// The type of the template: a scheme over its type parameters whose
    /// body is the type of the procedure.
    pub open spec fn scheme(self) -> Type {
        Type::Poly(
            self.ty_params,
            Box::new(Type::Proc(Box::new(self.args.types()), Box::new(self.ret))),
        )
    }

    /// The type of the template: a scheme over its type parameters.
    pub fn get_type(&self) -> (r: Type)
        ensures
            r == self.scheme(),
    {
        Type::Poly(
            self.ty_params.clone(),
            Box::new(Type::Proc(Box::new(self.args.get_types()), Box::new(self.ret.clone()))),
        )
    }
}

/// A type inferred below a block of type definitions: the definitions are
/// bound around it, the first of them innermost, so that the type keeps its
/// meaning outside the block.
pub open spec fn let_block(defs: Fields, body: Type) -> Type
    decreases defs,
{
    match defs {
        Fields::Nil => body,
        Fields::Cons(n, t, rest) => let_block(
            *rest,
            Type::Let(n, Box::new(t), Box::new(body)),
        ),
    }
}

/// The type of an array literal with this first element type and length.
pub open spec fn array_type(elem: Type, count: Option<i64>) -> Result<Type, Error> {
    match count {
        None => Err(Error::SizeOverflow(elem)),
        Some(n) => Ok(Type::Array(Box::new(elem), Box::new(ConstExpr::Int(n)))),
    }
}

/// The type of an expression.
///
/// * An operator application has the result type of the first rule of the
///   operator that accepts the types of the operands.
/// * A block has the type of its last expression.
/// * A definition has the type of its continuation, inferred with the
///   definition in scope; below a definition of types, the type is bound
///   to the definition so that it keeps its meaning outside.
/// * A loop and a store through a pointer have type `Void`; a `return`
///   has type `Never`.
/// * A conditional has the type of its first branch; a conditional decided
///   at compile time has the type of the branch that its condition
///   selects.
/// * A reference to an expression of type `t` has type `Pointer(t)`; a
///   dereference has the type that the pointer points to.
/// * An application has the return type of the procedure applied.
/// * An array literal has the type of its first item, or `Any` if it is
///   empty, and its length; a tuple and a structure literal have the types
///   of their parts.
/// * A union literal and a cast have the type they name.
/// * A member has the type of the member; an index has the type of the
///   element.
pub open spec fn type_of_expr(e: Expr, env: Env, fuel: nat) -> Result<Type, Error>
    decreases fuel, 0nat, e, 0nat,
{
    match e {
        Expr::UnaryOp(op, x) => match type_of_expr(*x, env, fuel) {
            Err(e) => Err(e),
            Ok(a) => operator_result(
                op.rules,
                Types::Cons(a, Box::new(Types::Nil)),
                op.name,
                env,
                fuel,
            ),
        },
        Expr::BinaryOp(op, x, y) => match type_of_expr(*x, env, fuel) {
            Err(e) => Err(e),
            Ok(a) => match type_of_expr(*y, env, fuel) {
                Err(e) => Err(e),
                Ok(b) => operator_result(
                    op.rules,
                    Types::Cons(a, Box::new(Types::Cons(b, Box::new(Types::Nil)))),
                    op.name,
                    env,
                    fuel,
                ),
            },
        },
        Expr::TernaryOp(op, x, y, z) => match type_of_expr(*x, env, fuel) {
            Err(e) => Err(e),
            Ok(a) => match type_of_expr(*y, env, fuel) {
                Err(e) => Err(e),
                Ok(b) => match type_of_expr(*z, env, fuel) {
                    Err(e) => Err(e),
                    Ok(c) => operator_result(
                        op.rules,
                        Types::Cons(
                            a,
                            Box::new(
                                Types::Cons(b, Box::new(Types::Cons(c, Box::new(Types::Nil)))),
                            ),
                        ),
                        op.name,
                        env,
                        fuel,
                    ),
                },
            },
        },
        Expr::AssignOp(op, x, y) => match type_of_expr(*x, env, fuel) {
            Err(e) => Err(e),
            Ok(a) => match type_of_expr(*y, env, fuel) {
                Err(e) => Err(e),
                Ok(b) => operator_result(
                    op.rules,
                    Types::Cons(a, Box::new(Types::Cons(b, Box::new(Types::Nil)))),
                    op.name,
                    env,
                    fuel,
                ),
            },
        },
        Expr::ConstExpr(c) => type_of_const(c, env, fuel),
        Expr::Many(items) => type_of_last(*items, env, fuel),
        Expr::LetConst(name, value, body) => type_of_expr(*body, env.with_const(name, value), fuel),
        Expr::LetConsts(defs, body) => type_of_expr(*body, env.with_consts(*defs), fuel),
        Expr::LetProc(name, value, body) => type_of_expr(*body, env.with_proc(name, value), fuel),
        Expr::LetProcs(defs, body) => type_of_expr(*body, env.with_procs(*defs), fuel),
        Expr::LetType(name, ty, body) => match type_of_expr(*body, env.with_type(name, ty), fuel) {
            Err(e) => Err(e),
            Ok(t) => Ok(Type::Let(name, Box::new(ty), Box::new(t))),
        },
        Expr::LetTypes(defs, body) => match type_of_expr(*body, env.with_types(*defs), fuel) {
            Err(e) => Err(e),
            Ok(t) => Ok(let_block(*defs, t)),
        },
        Expr::LetVar(name, mutability, annotation, init, body) => match annotation {
            Some(t) => type_of_expr(*body, env.with_var(name, mutability, t), fuel),
            None => match type_of_expr(*init, env, fuel) {
                Err(e) => Err(e),
                Ok(t) => type_of_expr(*body, env.with_var(name, mutability, t), fuel),
            },
        },
        Expr::LetVars(defs, body) => match env_with_vars(*defs, env, fuel) {
            Err(e) => Err(e),
            Ok(inner) => type_of_expr(*body, inner, fuel),
        },
        Expr::While(_, _) => Ok(Type::Void),
        Expr::If(_, then, _) => type_of_expr(*then, env, fuel),
        Expr::When(cond, then, otherwise) => match const_bool(cond, env, fuel) {
            Err(e) => Err(e),
            Ok(true) => type_of_expr(*then, env, fuel),
            Ok(false) => type_of_expr(*otherwise, env, fuel),
        },
        Expr::Refer(x) => match type_of_expr(*x, env, fuel) {
            Err(e) => Err(e),
            Ok(t) => Ok(Type::Pointer(Box::new(t))),
        },
        Expr::Deref(x) => match type_of_expr(*x, env, fuel) {
            Err(e) => Err(e),
            Ok(t) => match simplified(t, env, fuel) {
                Err(e) => Err(e),
                Ok(Type::Pointer(inner)) => Ok(*inner),
                Ok(found) => Err(
                    Error::MismatchedTypes {
                        expected: Type::Pointer(Box::new(Type::Any)),
                        found,
                        expr: e,
                    },
                ),
            },
        },
        Expr::DerefMut(_, _) => Ok(Type::Void),
        Expr::Apply(f, args) => match type_of_expr(*f, env, fuel) {
            Err(e) => Err(e),
            Ok(t) => match simplified(t, env, fuel) {
                Err(e) => Err(e),
                Ok(Type::Proc(_, ret)) => Ok(*ret),
                Ok(found) => match types_of_exprs(*args, env, fuel) {
                    Err(e) => Err(e),
                    Ok(inferred) => Err(
                        Error::MismatchedTypes {
                            expected: Type::Proc(Box::new(inferred), Box::new(Type::Any)),
                            found,
                            expr: e,
                        },
                    ),
                },
            },
        },
        Expr::Return(_) => Ok(Type::Never),
        Expr::Array(items) => match *items {
            Exprs::Nil => array_type(Type::Any, Some(0)),
            Exprs::Cons(first, _) => match type_of_expr(first, env, fuel) {
                Err(e) => Err(e),
                Ok(t) => array_type(t, items.count()),
            },
        },
        Expr::Tuple(items) => match types_of_exprs(*items, env, fuel) {
            Err(e) => Err(e),
            Ok(ts) => Ok(Type::Tuple(Box::new(ts))),
        },
        Expr::Struct(fields) => match fields_of_exprs(*fields, env, fuel) {
            Err(e) => Err(e),
            Ok(fs) => Ok(Type::Struct(Box::new(fs))),
        },
        Expr::Union(t, _, _) => Ok(t),
        Expr::As(_, t) => Ok(t),
        Expr::Member(x, member) => match type_of_expr(*x, env, fuel) {
            Err(e) => Err(e),
            Ok(t) => if fuel == 0 {
                Err(Error::RecursionLimit)
            } else {
                match member_of(t, member, *x, env, (fuel - 1) as nat) {
                    Err(e) => Err(e),
                    Ok((u, _)) => Ok(u),
                }
            },
        },
        Expr::Index(x, _) => match type_of_expr(*x, env, fuel) {
            Err(e) => Err(e),
            Ok(t) => match simplified(t, env, fuel) {
                Err(e) => Err(e),
                Ok(Type::Array(elem, _)) => Ok(*elem),
                Ok(Type::Pointer(elem)) => Ok(*elem),
                Ok(_) => Err(Error::InvalidIndex(e)),
            },
        },
    }
}

/// The type of a constant expression.
///
/// A name is looked up among the variables first, then among the
/// constants, then among the procedures.
pub open spec fn type_of_const(c: ConstExpr, env: Env, fuel: nat) -> Result<Type, Error>
    decreases fuel, 0nat, c, 0nat,
{
    match c {
        ConstExpr::Void => Ok(Type::Void),
        ConstExpr::Null => Ok(Type::Pointer(Box::new(Type::Any))),
        ConstExpr::Int(_) => Ok(Type::Int),
        ConstExpr::Float(_) => Ok(Type::Float),
        ConstExpr::Char(_) => Ok(Type::Char),
        ConstExpr::Bool(_) => Ok(Type::Bool),
        ConstExpr::SizeOfType(_) => Ok(Type::Int),
        ConstExpr::SizeOfExpr(_) => Ok(Type::Int),
        ConstExpr::TypeOf(e) => type_of_expr(*e, env, fuel),
        ConstExpr::As(_, t) => Ok(t),
        ConstExpr::CoreBuiltin(b) => Ok(b.signature()),
        ConstExpr::StandardBuiltin(b) => Ok(b.signature()),
        ConstExpr::Proc(p) => Ok(p.signature()),
        ConstExpr::PolyProc(p) => Ok(p.scheme()),
        ConstExpr::Monomorphize(template, args) => match type_of_const(*template, env, fuel) {
            Err(e) => Err(e),
            Ok(t) => Ok(Type::Apply(Box::new(t), Box::new(args))),
        },
        ConstExpr::Symbol(name) => match env.vars.lookup(name) {
            Some((_, t)) => Ok(t),
            None => match env.consts.lookup(name) {
                Some(d) => if fuel == 0 {
                    Err(Error::RecursionLimit)
                } else {
                    type_of_const(d, env, (fuel - 1) as nat)
                },
                None => match env.procs.lookup(name) {
                    Some(p) => Ok(p.signature()),
                    None => Err(Error::SymbolNotDefined(name)),
                },
            },
        },
        ConstExpr::Of(t, _) => Ok(t),
        ConstExpr::Tuple(items) => match types_of_consts(*items, env, fuel) {
            Err(e) => Err(e),
            Ok(ts) => Ok(Type::Tuple(Box::new(ts))),
        },
        ConstExpr::Array(items) => match *items {
            ConstExprs::Nil => array_type(Type::Any, Some(0)),
            ConstExprs::Cons(first, _) => match type_of_const(first, env, fuel) {
                Err(e) => Err(e),
                Ok(t) => array_type(t, items.count()),
            },
        },
        ConstExpr::Struct(fields) => match fields_of_consts(*fields, env, fuel) {
            Err(e) => Err(e),
            Ok(fs) => Ok(Type::Struct(Box::new(fs))),
        },
        ConstExpr::Union(t, _, _) => Ok(t),
    }
}

/// The type of a block: that of its last expression, `Void` if it is
/// empty.
pub open spec fn type_of_last(items: Exprs, env: Env, fuel: nat) -> Result<Type, Error>
    decreases fuel, 0nat, items, 0nat,
{
    match items {
        Exprs::Nil => Ok(Type::Void),
        Exprs::Cons(e, rest) => match *rest {
            Exprs::Nil => type_of_expr(e, env, fuel),
            _ => type_of_last(*rest, env, fuel),
        },
    }
}

/// The types of the expressions of a list, in order.
pub open spec fn types_of_exprs(items: Exprs, env: Env, fuel: nat) -> Result<Types, Error>
    decreases fuel, 0nat, items, 0nat,
{
    match items {
        Exprs::Nil => Ok(Types::Nil),
        Exprs::Cons(e, rest) => match type_of_expr(e, env, fuel) {
            Err(e) => Err(e),
            Ok(t) => match types_of_exprs(*rest, env, fuel) {
                Err(e) => Err(e),
                Ok(ts) => Ok(Types::Cons(t, Box::new(ts))),
            },
        },
    }
}

/// The types of the constants of a list, in order.
pub open spec fn types_of_consts(items: ConstExprs, env: Env, fuel: nat) -> Result<Types, Error>
    decreases fuel, 0nat, items, 0nat,
{
    match items {
        ConstExprs::Nil => Ok(Types::Nil),
        ConstExprs::Cons(c, rest) => match type_of_const(c, env, fuel) {
            Err(e) => Err(e),
            Ok(t) => match types_of_consts(*rest, env, fuel) {
                Err(e) => Err(e),
                Ok(ts) => Ok(Types::Cons(t, Box::new(ts))),
            },
        },
    }
}

/// The fields of a structure literal with their types.
pub open spec fn fields_of_exprs(fields: ExprFields, env: Env, fuel: nat) -> Result<Fields, Error>
    decreases fuel, 0nat, fields, 0nat,
{
    match fields {
        ExprFields::Nil => Ok(Fields::Nil),
        ExprFields::Cons(n, e, rest) => match type_of_expr(e, env, fuel) {
            Err(e) => Err(e),
            Ok(t) => match fields_of_exprs(*rest, env, fuel) {
                Err(e) => Err(e),
                Ok(fs) => Ok(Fields::Cons(n, t, Box::new(fs))),
            },
        },
    }
}

/// The fields of a constant structure with their types.
pub open spec fn fields_of_consts(fields: ConstFields, env: Env, fuel: nat) -> Result<
    Fields,
    Error,
>
    decreases fuel, 0nat, fields, 0nat,
{
    match fields {
        ConstFields::Nil => Ok(Fields::Nil),
        ConstFields::Cons(n, c, rest) => match type_of_const(c, env, fuel) {
            Err(e) => Err(e),
            Ok(t) => match fields_of_consts(*rest, env, fuel) {
                Err(e) => Err(e),
                Ok(fs) => Ok(Fields::Cons(n, t, Box::new(fs))),
            },
        },
    }
}

/// The environment behind a block of variable definitions: each variable
/// has its annotation as its type or, without one, the type of its
/// initializer, inferred with the variables before it in scope.
pub open spec fn env_with_vars(defs: VarDefs, env: Env, fuel: nat) -> Result<Env, Error>
    decreases fuel, 0nat, defs, 0nat,
{
    match defs {
        VarDefs::Nil => Ok(env),
        VarDefs::Cons(name, mutability, annotation, init, rest) => match annotation {
            Some(t) => env_with_vars(*rest, env.with_var(name, mutability, t), fuel),
            None => match type_of_expr(init, env, fuel) {
                Err(e) => Err(e),
                Ok(t) => env_with_vars(*rest, env.with_var(name, mutability, t), fuel),
            },
        },
    }
}

fn wrap_lets(defs: &Fields, body: Type) -> (r: Type)
    ensures
        r == let_block(*defs, body),
    decreases defs,
{
    match defs {
        Fields::Nil => body,
        Fields::Cons(n, t, rest) => wrap_lets(
            rest,
            Type::Let(n.clone(), Box::new(t.clone()), Box::new(body)),
        ),
    }
}

fn make_array_type(elem: Type, count: Option<i64>) -> (r: Result<Type, Error>)
    ensures
        r == array_type(elem, count),
{
    match count {
        None => Err(Error::SizeOverflow(elem)),
        Some(n) => Ok(Type::Array(Box::new(elem), Box::new(ConstExpr::Int(n)))),
    }
}

fn one(a: Type) -> (r: Types)
    ensures
        r == Types::Cons(a, Box::new(Types::Nil)),
{
    Types::Cons(a, Box::new(Types::Nil))
}

fn two(a: Type, b: Type) -> (r: Types)
    ensures
        r == Types::Cons(a, Box::new(Types::Cons(b, Box::new(Types::Nil)))),
{
    Types::Cons(a, Box::new(Types::Cons(b, Box::new(Types::Nil))))
}

fn three(a: Type, b: Type, c: Type) -> (r: Types)
    ensures
        r == Types::Cons(
            a,
            Box::new(Types::Cons(b, Box::new(Types::Cons(c, Box::new(Types::Nil))))),
        ),
{
    Types::Cons(a, Box::new(Types::Cons(b, Box::new(Types::Cons(c, Box::new(Types::Nil))))))
}

impl Exprs {
    /// The type of the last expression of the list, `Void` if it is empty.
    pub fn last_type_within(&self, env: &Env, fuel: usize) -> (r: Result<Type, Error>)
        ensures
            r == type_of_last(*self, *env, fuel as nat),
        decreases fuel, 0nat, self, 0nat,
    {
        match self {
            Exprs::Nil => Ok(Type::Void),
            Exprs::Cons(e, rest) => match &**rest {
                Exprs::Nil => e.get_type_within(env, fuel),
                _ => rest.last_type_within(env, fuel),
            },
        }
    }

    /// The types of the expressions of the list, in order.
    pub fn get_types_within(&self, env: &Env, fuel: usize) -> (r: Result<Types, Error>)
        ensures
            r == types_of_exprs(*self, *env, fuel as nat),
        decreases fuel, 0nat, self, 0nat,
    {
        match self {
            Exprs::Nil => Ok(Types::Nil),
            Exprs::Cons(e, rest) => match e.get_type_within(env, fuel) {
                Err(e) => Err(e),
                Ok(t) => match rest.get_types_within(env, fuel) {
                    Err(e) => Err(e),
                    Ok(ts) => Ok(Types::Cons(t, Box::new(ts))),
                },
            },
        }
    }
}

impl ConstExprs {
    /// The types of the constants of the list, in order.
    pub fn get_types_within(&self, env: &Env, fuel: usize) -> (r: Result<Types, Error>)
        ensures
            r == types_of_consts(*self, *env, fuel as nat),
        decreases fuel, 0nat, self, 0nat,
    {
        match self {
            ConstExprs::Nil => Ok(Types::Nil),
            ConstExprs::Cons(c, rest) => match c.get_type_within(env, fuel) {
                Err(e) => Err(e),
                Ok(t) => match rest.get_types_within(env, fuel) {
                    Err(e) => Err(e),
                    Ok(ts) => Ok(Types::Cons(t, Box::new(ts))),
                },
            },
        }
    }
}

impl ExprFields {
    /// The fields of the list with their types.
    pub fn get_types_within(&self, env: &Env, fuel: usize) -> (r: Result<Fields, Error>)
        ensures
            r == fields_of_exprs(*self, *env, fuel as nat),
        decreases fuel, 0nat, self, 0nat,
    {
        match self {
            ExprFields::Nil => Ok(Fields::Nil),
            ExprFields::Cons(n, e, rest) => match e.get_type_within(env, fuel) {
                Err(e) => Err(e),
                Ok(t) => match rest.get_types_within(env, fuel) {
                    Err(e) => Err(e),
                    Ok(fs) => Ok(Fields::Cons(n.clone(), t, Box::new(fs))),
                },
            },
        }
    }
}

impl ConstFields {
    /// The fields of the list with their types.
    pub fn get_types_within(&self, env: &Env, fuel: usize) -> (r: Result<Fields, Error>)
        ensures
            r == fields_of_consts(*self, *env, fuel as nat),
        decreases fuel, 0nat, self, 0nat,
    {
        match self {
            ConstFields::Nil => Ok(Fields::Nil),
            ConstFields::Cons(n, c, rest) => match c.get_type_within(env, fuel) {
                Err(e) => Err(e),
                Ok(t) => match rest.get_types_within(env, fuel) {
                    Err(e) => Err(e),
                    Ok(fs) => Ok(Fields::Cons(n.clone(), t, Box::new(fs))),
                },
            },
        }
    }
}

impl VarDefs {
    /// The environment behind the definitions of the list.
    pub fn define_within(&self, env: Env, fuel: usize) -> (r: Result<Env, Error>)
        ensures
            r == env_with_vars(*self, env, fuel as nat),
        decreases fuel, 0nat, self, 0nat,
    {
        match self {
            VarDefs::Nil => Ok(env),
            VarDefs::Cons(name, mutability, annotation, init, rest) => {
                let ty = match annotation {
                    Some(t) => t.clone(),
                    None => match init.get_type_within(&env, fuel) {
                        Err(e) => {
                            return Err(e);
                        },
                        Ok(t) => t,
                    },
                };
                let mut inner = env;
                inner.define_var(name.clone(), *mutability, ty);
                rest.define_within(inner, fuel)
            },
        }
    }
}

impl Expr {
    /// The type of the expression, found within `fuel` nested steps.
    pub fn get_type_within(&self, env: &Env, fuel: usize) -> (r: Result<Type, Error>)
        ensures
            r == type_of_expr(*self, *env, fuel as nat),
        decreases fuel, 0nat, self, 0nat,
    {
        match self {
            Expr::UnaryOp(op, x) => match x.get_type_within(env, fuel) {
                Err(e) => Err(e),
                Ok(a) => op.rules.result_within(&one(a), &op.name, env, fuel),
            },
            Expr::BinaryOp(op, x, y) => match x.get_type_within(env, fuel) {
                Err(e) => Err(e),
                Ok(a) => match y.get_type_within(env, fuel) {
                    Err(e) => Err(e),
                    Ok(b) => op.rules.result_within(&two(a, b), &op.name, env, fuel),
                },
            },
            Expr::TernaryOp(op, x, y, z) => match x.get_type_within(env, fuel) {
                Err(e) => Err(e),
                Ok(a) => match y.get_type_within(env, fuel) {
                    Err(e) => Err(e),
                    Ok(b) => match z.get_type_within(env, fuel) {
                        Err(e) => Err(e),
                        Ok(c) => op.rules.result_within(&three(a, b, c), &op.name, env, fuel),
                    },
                },
            },
            Expr::AssignOp(op, x, y) => match x.get_type_within(env, fuel) {
                Err(e) => Err(e),
                Ok(a) => match y.get_type_within(env, fuel) {
                    Err(e) => Err(e),
                    Ok(b) => op.rules.result_within(&two(a, b), &op.name, env, fuel),
                },
            },
            Expr::ConstExpr(c) => c.get_type_within(env, fuel),
            Expr::Many(items) => items.last_type_within(env, fuel),
            Expr::LetConst(name, value, body) => {
                let mut inner = env.clone();
                inner.define_const(name.clone(), value.clone());
                body.get_type_within(&inner, fuel)
            },
            Expr::LetConsts(defs, body) => {
                let mut inner = env.clone();
                inner.define_consts(defs);
                body.get_type_within(&inner, fuel)
            },
            Expr::LetProc(name, value, body) => {
                let mut inner = env.clone();
                inner.define_proc(name.clone(), value.clone());
                body.get_type_within(&inner, fuel)
            },
            Expr::LetProcs(defs, body) => {
                let mut inner = env.clone();
                inner.define_procs(defs);
                body.get_type_within(&inner, fuel)
            },
            Expr::LetType(name, ty, body) => {
                let mut inner = env.clone();
                inner.define_type(name.clone(), ty.clone());
                match body.get_type_within(&inner, fuel) {
                    Err(e) => Err(e),
                    Ok(t) => Ok(Type::Let(name.clone(), Box::new(ty.clone()), Box::new(t))),
                }
            },
            Expr::LetTypes(defs, body) => {
                let mut inner = env.clone();
                inner.define_types(defs);
                match body.get_type_within(&inner, fuel) {
                    Err(e) => Err(e),
                    Ok(t) => Ok(wrap_lets(defs, t)),
                }
            },
            Expr::LetVar(name, mutability, annotation, init, body) => {
                let ty = match annotation {
                    Some(t) => t.clone(),
                    None => match init.get_type_within(env, fuel) {
                        Err(e) => {
                            return Err(e);
                        },
                        Ok(t) => t,
                    },
                };
                let mut inner = env.clone();
                inner.define_var(name.clone(), *mutability, ty);
                body.get_type_within(&inner, fuel)
            },
            Expr::LetVars(defs, body) => match defs.define_within(env.clone(), fuel) {
                Err(e) => Err(e),
                Ok(inner) => body.get_type_within(&inner, fuel),
            },
            Expr::While(_, _) => Ok(Type::Void),
            Expr::If(_, then, _) => then.get_type_within(env, fuel),
            Expr::When(cond, then, otherwise) => match cond.as_bool_within(env, fuel) {
                Err(e) => Err(e),
                Ok(true) => then.get_type_within(env, fuel),
                Ok(false) => otherwise.get_type_within(env, fuel),
            },
            Expr::Refer(x) => match x.get_type_within(env, fuel) {
                Err(e) => Err(e),
                Ok(t) => Ok(Type::Pointer(Box::new(t))),
            },
            Expr::Deref(x) => match x.get_type_within(env, fuel) {
                Err(e) => Err(e),
                Ok(t) => match t.simplify_within(env, fuel) {
                    Err(e) => Err(e),
                    Ok(Type::Pointer(inner)) => Ok(*inner),
                    Ok(found) => Err(
                        Error::MismatchedTypes {
                            expected: Type::Pointer(Box::new(Type::Any)),
                            found,
                            expr: self.clone(),
                        },
                    ),
                },
            },
            Expr::DerefMut(_, _) => Ok(Type::Void),
            Expr::Apply(f, args) => match f.get_type_within(env, fuel) {
                Err(e) => Err(e),
                Ok(t) => match t.simplify_within(env, fuel) {
                    Err(e) => Err(e),
                    Ok(Type::Proc(_, ret)) => Ok(*ret),
                    Ok(found) => match args.get_types_within(env, fuel) {
                        Err(e) => Err(e),
                        Ok(inferred) => Err(
                            Error::MismatchedTypes {
                                expected: Type::Proc(Box::new(inferred), Box::new(Type::Any)),
                                found,
                                expr: self.clone(),
                            },
                        ),
                    },
                },
            },
            Expr::Return(_) => Ok(Type::Never),
            Expr::Array(items) => match &**items {
                Exprs::Nil => make_array_type(Type::Any, Some(0)),
                Exprs::Cons(first, _) => match first.get_type_within(env, fuel) {
                    Err(e) => Err(e),
                    Ok(t) => make_array_type(t, items.get_count()),
                },
            },
            Expr::Tuple(items) => match items.get_types_within(env, fuel) {
                Err(e) => Err(e),
                Ok(ts) => Ok(Type::Tuple(Box::new(ts))),
            },
            Expr::Struct(fields) => match fields.get_types_within(env, fuel) {
                Err(e) => Err(e),
                Ok(fs) => Ok(Type::Struct(Box::new(fs))),
            },
            Expr::Union(t, _, _) => Ok(t.clone()),
            Expr::As(_, t) => Ok(t.clone()),
            Expr::Member(x, member) => match x.get_type_within(env, fuel) {
                Err(e) => Err(e),
                Ok(t) => if fuel == 0 {
                    Err(Error::RecursionLimit)
                } else {
                    match t.member_within(member, x, env, fuel - 1) {
                        Err(e) => Err(e),
                        Ok((u, _)) => Ok(u),
                    }
                },
            },
            Expr::Index(x, _) => match x.get_type_within(env, fuel) {
                Err(e) => Err(e),
                Ok(t) => match t.simplify_within(env, fuel) {
                    Err(e) => Err(e),
                    Ok(Type::Array(elem, _)) => Ok(*elem),
                    Ok(Type::Pointer(elem)) => Ok(*elem),
                    Ok(_) => Err(Error::InvalidIndex(self.clone())),
                },
            },
        }
    }

    /// The type of the expression.
    pub fn get_type(&self, env: &Env) -> (r: Result<Type, Error>)
        ensures
            r == type_of_expr(*self, *env, RECURSION_LIMIT as nat),
    {
        self.get_type_within(env, RECURSION_LIMIT)
    }
}

impl ConstExpr {
    /// The type of the constant, found within `fuel` nested steps.
    pub fn get_type_within(&self, env: &Env, fuel: usize) -> (r: Result<Type, Error>)
        ensures
            r == type_of_const(*self, *env, fuel as nat),
        decreases fuel, 0nat, self, 0nat,
    {
        match self {
            ConstExpr::Void => Ok(Type::Void),
            ConstExpr::Null => Ok(Type::Pointer(Box::new(Type::Any))),
            ConstExpr::Int(_) => Ok(Type::Int),
            ConstExpr::Float(_) => Ok(Type::Float),
            ConstExpr::Char(_) => Ok(Type::Char),
            ConstExpr::Bool(_) => Ok(Type::Bool),
            ConstExpr::SizeOfType(_) => Ok(Type::Int),
            ConstExpr::SizeOfExpr(_) => Ok(Type::Int),
            ConstExpr::TypeOf(e) => e.get_type_within(env, fuel),
            ConstExpr::As(_, t) => Ok(t.clone()),
            ConstExpr::CoreBuiltin(b) => Ok(b.get_signature()),
            ConstExpr::StandardBuiltin(b) => Ok(b.get_signature()),
            ConstExpr::Proc(p) => Ok(p.get_signature()),
            ConstExpr::PolyProc(p) => Ok(p.get_type()),
            ConstExpr::Monomorphize(template, args) => match template.get_type_within(env, fuel) {
                Err(e) => Err(e),
                Ok(t) => Ok(Type::Apply(Box::new(t), Box::new(args.clone()))),
            },
            ConstExpr::Symbol(name) => match env.vars.get(name) {
                Some((_, t)) => Ok(t.clone()),
                None => match env.consts.get(name) {
                    Some(d) => if fuel == 0 {
                        Err(Error::RecursionLimit)
                    } else {
                        d.get_type_within(env, fuel - 1)
                    },
                    None => match env.procs.get(name) {
                        Some(p) => Ok(p.get_signature()),
                        None => Err(Error::SymbolNotDefined(name.clone())),
                    },
                },
            },
            ConstExpr::Of(t, _) => Ok(t.clone()),
            ConstExpr::Tuple(items) => match items.get_types_within(env, fuel) {
                Err(e) => Err(e),
                Ok(ts) => Ok(Type::Tuple(Box::new(ts))),
            },
            ConstExpr::Array(items) => match &**items {
                ConstExprs::Nil => make_array_type(Type::Any, Some(0)),
                ConstExprs::Cons(first, _) => match first.get_type_within(env, fuel) {
                    Err(e) => Err(e),
                    Ok(t) => make_array_type(t, items.get_count()),
                },
            },
            ConstExpr::Struct(fields) => match fields.get_types_within(env, fuel) {
                Err(e) => Err(e),
                Ok(fs) => Ok(Type::Struct(Box::new(fs))),
            },
            ConstExpr::Union(t, _, _) => Ok(t.clone()),
        }
    }

    /// The type of the constant.
    pub fn get_type(&self, env: &Env) -> (r: Result<Type, Error>)
        ensures
            r == type_of_const(*self, *env, RECURSION_LIMIT as nat),
    {
        self.get_type_within(env, RECURSION_LIMIT)
    }
}

} // verus!
