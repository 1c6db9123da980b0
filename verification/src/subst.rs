//! Substitution of a type for a free type name.
//!
//! A name is free where no enclosing binder introduces it. The binders are
//! `Type::Let`, `Type::Poly`, `Expr::LetType`, `Expr::LetTypes` and the
//! type parameters of a procedure template: below a binder of the name,
//! nothing is replaced. In a procedure template only the parameter types
//! and the return type are open to substitution; its body is its own. The
//! typing rules of operators are closed and are never touched.
use vstd::prelude::*;
use crate::syntax::{
    Builtin, ConstExpr, ConstExprs, ConstFields, Expr, ExprFields, Exprs, Fields, Name, Names,
    Params, PolyProcedure, ProcDefs, Procedure, Type, Types, VarDefs,
};

verus! {

/// Substitution in an optional annotation.
pub open spec fn subst_option(annotation: Option<Type>, target: Name, by: Type) -> Option<
    Type,
>
    decreases annotation,
{
    match annotation {
        Some(ty) => Some(ty.subst(target, by)),
        None => None,
    }
}

fn substitute_option(annotation: &Option<Type>, target: &Name, by: &Type) -> (r: Option<Type>)
    ensures
        r == subst_option(*annotation, *target, *by),
    decreases annotation,
{
    match annotation {
        Some(ty) => Some(ty.substitute(target, by)),
        None => None,
    }
}

fn copy_label(label: &Option<Name>) -> (r: Option<Name>)
    ensures
        r == *label,
{
    match label {
        Some(name) => Some(name.clone()),
        None => None,
    }
}

impl Names {
    /// Does the list hold the name?
    pub open spec fn contains(self, name: Name) -> bool
        decreases self,
    {
        match self {
            Names::Nil => false,
            Names::Cons(n, rest) => n == name || rest.contains(name),
        }
    }

    /// Does the list hold the name?
    pub fn has(&self, name: &Name) -> (r: bool)
        ensures
            r == self.contains(*name),
        decreases self,
    {
        match self {
            Names::Nil => false,
            Names::Cons(n, rest) => n.is_same(name) || rest.has(name),
        }
    }
}

impl Type {
    /// The type with `by` in place of every free occurrence of the type
    /// name `target`.
    pub open spec fn subst(self, target: Name, by: Type) -> Type
        decreases self,
    {
        match self {
            Type::Unit(name, inner) => Type::Unit(name, Box::new(inner.subst(target, by))),
            Type::Symbol(name) => if name == target {
                by
            } else {
                self
            },
            Type::Let(name, bound, body) => if name == target {
                self
            } else {
                Type::Let(name, Box::new(bound.subst(target, by)), Box::new(body.subst(target, by)))
            },
            Type::Array(elem, len) => Type::Array(
                Box::new(elem.subst(target, by)),
                Box::new(len.subst(target, by)),
            ),
            Type::Tuple(items) => Type::Tuple(Box::new(items.subst(target, by))),
            Type::Struct(fields) => Type::Struct(Box::new(fields.subst(target, by))),
            Type::Union(fields) => Type::Union(Box::new(fields.subst(target, by))),
            Type::Proc(args, ret) => Type::Proc(
                Box::new(args.subst(target, by)),
                Box::new(ret.subst(target, by)),
            ),
            Type::Pointer(inner) => Type::Pointer(Box::new(inner.subst(target, by))),
            Type::Poly(params, body) => if params.contains(target) {
                self
            } else {
                Type::Poly(params, Box::new(body.subst(target, by)))
            },
            Type::Apply(scheme, args) => Type::Apply(
                Box::new(scheme.subst(target, by)),
                Box::new(args.subst(target, by)),
            ),
            _ => self,
        }
    }

    /// Replaces every free occurrence of the type name `target` by `by`.
    pub fn substitute(&self, target: &Name, by: &Type) -> (r: Type)
        ensures
            r == self.subst(*target, *by),
        decreases self,
    {
        match self {
            Type::Unit(name, inner) => Type::Unit(
                name.clone(),
                Box::new(inner.substitute(target, by)),
            ),
            Type::Symbol(name) => if name.is_same(target) {
                by.clone()
            } else {
                self.clone()
            },
            Type::Let(name, bound, body) => if name.is_same(target) {
                self.clone()
            } else {
                Type::Let(
                    name.clone(),
                    Box::new(bound.substitute(target, by)),
                    Box::new(body.substitute(target, by)),
                )
            },
            Type::Array(elem, len) => Type::Array(
                Box::new(elem.substitute(target, by)),
                Box::new(len.substitute(target, by)),
            ),
            Type::Tuple(items) => Type::Tuple(Box::new(items.substitute(target, by))),
            Type::Struct(fields) => Type::Struct(Box::new(fields.substitute(target, by))),
            Type::Union(fields) => Type::Union(Box::new(fields.substitute(target, by))),
            Type::Proc(args, ret) => Type::Proc(
                Box::new(args.substitute(target, by)),
                Box::new(ret.substitute(target, by)),
            ),
            Type::Pointer(inner) => Type::Pointer(Box::new(inner.substitute(target, by))),
            Type::Poly(params, body) => if params.has(target) {
                self.clone()
            } else {
                Type::Poly(params.clone(), Box::new(body.substitute(target, by)))
            },
            Type::Apply(scheme, args) => Type::Apply(
                Box::new(scheme.substitute(target, by)),
                Box::new(args.substitute(target, by)),
            ),
            _ => self.clone(),
        }
    }
}

impl Types {
    /// The list of types with `by` in place of every free occurrence of the type
    /// name `target`.
    pub open spec fn subst(self, target: Name, by: Type) -> Types
        decreases self,
    {
        match self {
            Types::Cons(ty, rest) => Types::Cons(
                ty.subst(target, by),
                Box::new(rest.subst(target, by)),
            ),
            _ => self,
        }
    }

    /// Replaces every free occurrence of the type name `target` by `by`.
    pub fn substitute(&self, target: &Name, by: &Type) -> (r: Types)
        ensures
            r == self.subst(*target, *by),
        decreases self,
    {
        match self {
            Types::Cons(ty, rest) => Types::Cons(
                ty.substitute(target, by),
                Box::new(rest.substitute(target, by)),
            ),
            _ => self.clone(),
        }
    }
}

impl Fields {
    /// Does the list define the name?
    pub open spec fn defines(self, name: Name) -> bool
        decreases self,
    {
        match self {
            Fields::Nil => false,
            Fields::Cons(n, _, rest) => n == name || rest.defines(name),
        }
    }

    /// Does the list define the name?
    pub fn has_name(&self, name: &Name) -> (r: bool)
        ensures
            r == self.defines(*name),
        decreases self,
    {
        match self {
            Fields::Nil => false,
            Fields::Cons(n, _, rest) => n.is_same(name) || rest.has_name(name),
        }
    }

    /// The list of named types with `by` in place of every free occurrence of the type
    /// name `target`.
    pub open spec fn subst(self, target: Name, by: Type) -> Fields
        decreases self,
    {
        match self {
            Fields::Cons(name, ty, rest) => Fields::Cons(
                name,
                ty.subst(target, by),
                Box::new(rest.subst(target, by)),
            ),
            _ => self,
        }
    }

    /// Replaces every free occurrence of the type name `target` by `by`.
    pub fn substitute(&self, target: &Name, by: &Type) -> (r: Fields)
        ensures
            r == self.subst(*target, *by),
        decreases self,
    {
        match self {
            Fields::Cons(name, ty, rest) => Fields::Cons(
                name.clone(),
                ty.substitute(target, by),
                Box::new(rest.substitute(target, by)),
            ),
            _ => self.clone(),
        }
    }
}

impl Params {
    /// The list of parameters with `by` in place of every free occurrence of the type
    /// name `target`.
    pub open spec fn subst(self, target: Name, by: Type) -> Params
        decreases self,
    {
        match self {
            Params::Cons(name, mutability, ty, rest) => Params::Cons(
                name,
                mutability,
                ty.subst(target, by),
                Box::new(rest.subst(target, by)),
            ),
            _ => self,
        }
    }

    /// Replaces every free occurrence of the type name `target` by `by`.
    pub fn substitute(&self, target: &Name, by: &Type) -> (r: Params)
        ensures
            r == self.subst(*target, *by),
        decreases self,
    {
        match self {
            Params::Cons(name, mutability, ty, rest) => Params::Cons(
                name.clone(),
                *mutability,
                ty.substitute(target, by),
                Box::new(rest.substitute(target, by)),
            ),
            _ => self.clone(),
        }
    }
}

impl Builtin {
    /// The builtin with `by` in place of every free occurrence of the type
    /// name `target`.
    pub open spec fn subst(self, target: Name, by: Type) -> Builtin
        decreases self,
    {
        Builtin {
            args: self.args.subst(target, by),
            ret: self.ret.subst(target, by),
            ..self
        }
    }

    /// Replaces every free occurrence of the type name `target` by `by`.
    pub fn substitute(&self, target: &Name, by: &Type) -> (r: Builtin)
        ensures
            r == self.subst(*target, *by),
        decreases self,
    {
        Builtin {
            name: self.name.clone(),
            args: self.args.substitute(target, by),
            ret: self.ret.substitute(target, by),
        }
    }
}

impl Procedure {
    /// The procedure with `by` in place of every free occurrence of the type
    /// name `target`.
    pub open spec fn subst(self, target: Name, by: Type) -> Procedure
        decreases self,
    {
        Procedure {
            args: self.args.subst(target, by),
            ret: self.ret.subst(target, by),
            body: Box::new(self.body.subst(target, by)),
            ..self
        }
    }

    /// Replaces every free occurrence of the type name `target` by `by`.
    pub fn substitute(&self, target: &Name, by: &Type) -> (r: Procedure)
        ensures
            r == self.subst(*target, *by),
        decreases self,
    {
        Procedure {
            name: copy_label(&self.name),
            args: self.args.substitute(target, by),
            ret: self.ret.substitute(target, by),
            body: Box::new(self.body.substitute(target, by)),
        }
    }
}

impl PolyProcedure {
    /// The procedure template with `by` in place of every free occurrence of the type
    /// name `target`.
    pub open spec fn subst(self, target: Name, by: Type) -> PolyProcedure
        decreases self,
    {
        if self.ty_params.contains(target) {
            self
        } else {
            PolyProcedure {
                args: self.args.subst(target, by),
                ret: self.ret.subst(target, by),
                ..self
            }
        }
    }

    /// Replaces every free occurrence of the type name `target` by `by`.
    pub fn substitute(&self, target: &Name, by: &Type) -> (r: PolyProcedure)
        ensures
            r == self.subst(*target, *by),
        decreases self,
    {
        if self.ty_params.has(target) {
            self.clone()
        } else {
            PolyProcedure {
                id: self.id,
                name: self.name.clone(),
                ty_params: self.ty_params.clone(),
                args: self.args.substitute(target, by),
                ret: self.ret.substitute(target, by),
                body: Box::new((&*self.body).clone()),
            }
        }
    }
}

impl ConstExpr {
    /// The constant expression with `by` in place of every free occurrence of the type
    /// name `target`.
    pub open spec fn subst(self, target: Name, by: Type) -> ConstExpr
        decreases self,
    {
        match self {
            ConstExpr::SizeOfType(ty) => ConstExpr::SizeOfType(ty.subst(target, by)),
            ConstExpr::TypeOf(expr) => ConstExpr::TypeOf(Box::new(expr.subst(target, by))),
            ConstExpr::As(value, ty) => ConstExpr::As(
                Box::new(value.subst(target, by)),
                ty.subst(target, by),
            ),
            ConstExpr::SizeOfExpr(expr) => ConstExpr::SizeOfExpr(Box::new(expr.subst(target, by))),
            ConstExpr::CoreBuiltin(builtin) => ConstExpr::CoreBuiltin(builtin.subst(target, by)),
            ConstExpr::StandardBuiltin(builtin) => ConstExpr::StandardBuiltin(
                builtin.subst(target, by),
            ),
            ConstExpr::Proc(procedure) => ConstExpr::Proc(procedure.subst(target, by)),
            ConstExpr::PolyProc(template) => ConstExpr::PolyProc(template.subst(target, by)),
            ConstExpr::Monomorphize(template, args) => ConstExpr::Monomorphize(
                Box::new(template.subst(target, by)),
                args.subst(target, by),
            ),
            ConstExpr::Of(ty, variant) => ConstExpr::Of(ty.subst(target, by), variant),
            ConstExpr::Tuple(items) => ConstExpr::Tuple(Box::new(items.subst(target, by))),
            ConstExpr::Array(items) => ConstExpr::Array(Box::new(items.subst(target, by))),
            ConstExpr::Struct(fields) => ConstExpr::Struct(Box::new(fields.subst(target, by))),
            ConstExpr::Union(ty, variant, value) => ConstExpr::Union(
                ty.subst(target, by),
                variant,
                Box::new(value.subst(target, by)),
            ),
            _ => self,
        }
    }

    /// Replaces every free occurrence of the type name `target` by `by`.
    pub fn substitute(&self, target: &Name, by: &Type) -> (r: ConstExpr)
        ensures
            r == self.subst(*target, *by),
        decreases self,
    {
        match self {
            ConstExpr::SizeOfType(ty) => ConstExpr::SizeOfType(ty.substitute(target, by)),
            ConstExpr::TypeOf(expr) => ConstExpr::TypeOf(Box::new(expr.substitute(target, by))),
            ConstExpr::As(value, ty) => ConstExpr::As(
                Box::new(value.substitute(target, by)),
                ty.substitute(target, by),
            ),
            ConstExpr::SizeOfExpr(expr) => ConstExpr::SizeOfExpr(
                Box::new(expr.substitute(target, by)),
            ),
            ConstExpr::CoreBuiltin(builtin) => ConstExpr::CoreBuiltin(
                builtin.substitute(target, by),
            ),
            ConstExpr::StandardBuiltin(builtin) => ConstExpr::StandardBuiltin(
                builtin.substitute(target, by),
            ),
            ConstExpr::Proc(procedure) => ConstExpr::Proc(procedure.substitute(target, by)),
            ConstExpr::PolyProc(template) => ConstExpr::PolyProc(template.substitute(target, by)),
            ConstExpr::Monomorphize(template, args) => ConstExpr::Monomorphize(
                Box::new(template.substitute(target, by)),
                args.substitute(target, by),
            ),
            ConstExpr::Of(ty, variant) => ConstExpr::Of(ty.substitute(target, by), variant.clone()),
            ConstExpr::Tuple(items) => ConstExpr::Tuple(Box::new(items.substitute(target, by))),
            ConstExpr::Array(items) => ConstExpr::Array(Box::new(items.substitute(target, by))),
            ConstExpr::Struct(fields) => ConstExpr::Struct(Box::new(fields.substitute(target, by))),
            ConstExpr::Union(ty, variant, value) => ConstExpr::Union(
                ty.substitute(target, by),
                variant.clone(),
                Box::new(value.substitute(target, by)),
            ),
            _ => self.clone(),
        }
    }
}

impl ConstExprs {
    /// The list of constant expressions with `by` in place of every free occurrence of the type
    /// name `target`.
    pub open spec fn subst(self, target: Name, by: Type) -> ConstExprs
        decreases self,
    {
        match self {
            ConstExprs::Cons(item, rest) => ConstExprs::Cons(
                item.subst(target, by),
                Box::new(rest.subst(target, by)),
            ),
            _ => self,
        }
    }

    /// Replaces every free occurrence of the type name `target` by `by`.
    pub fn substitute(&self, target: &Name, by: &Type) -> (r: ConstExprs)
        ensures
            r == self.subst(*target, *by),
        decreases self,
    {
        match self {
            ConstExprs::Cons(item, rest) => ConstExprs::Cons(
                item.substitute(target, by),
                Box::new(rest.substitute(target, by)),
            ),
            _ => self.clone(),
        }
    }
}

impl ConstFields {
    /// The list of named constants with `by` in place of every free occurrence of the type
    /// name `target`.
    pub open spec fn subst(self, target: Name, by: Type) -> ConstFields
        decreases self,
    {
        match self {
            ConstFields::Cons(name, value, rest) => ConstFields::Cons(
                name,
                value.subst(target, by),
                Box::new(rest.subst(target, by)),
            ),
            _ => self,
        }
    }

    /// Replaces every free occurrence of the type name `target` by `by`.
    pub fn substitute(&self, target: &Name, by: &Type) -> (r: ConstFields)
        ensures
            r == self.subst(*target, *by),
        decreases self,
    {
        match self {
            ConstFields::Cons(name, value, rest) => ConstFields::Cons(
                name.clone(),
                value.substitute(target, by),
                Box::new(rest.substitute(target, by)),
            ),
            _ => self.clone(),
        }
    }
}

impl Expr {
    /// The expression with `by` in place of every free occurrence of the type
    /// name `target`.
    pub open spec fn subst(self, target: Name, by: Type) -> Expr
        decreases self,
    {
        match self {
            Expr::UnaryOp(op, x) => Expr::UnaryOp(op, Box::new(x.subst(target, by))),
            Expr::BinaryOp(op, x, y) => Expr::BinaryOp(
                op,
                Box::new(x.subst(target, by)),
                Box::new(y.subst(target, by)),
            ),
            Expr::TernaryOp(op, x, y, z) => Expr::TernaryOp(
                op,
                Box::new(x.subst(target, by)),
                Box::new(y.subst(target, by)),
                Box::new(z.subst(target, by)),
            ),
            Expr::AssignOp(op, x, y) => Expr::AssignOp(
                op,
                Box::new(x.subst(target, by)),
                Box::new(y.subst(target, by)),
            ),
            Expr::ConstExpr(value) => Expr::ConstExpr(value.subst(target, by)),
            Expr::Many(items) => Expr::Many(Box::new(items.subst(target, by))),
            Expr::LetConst(name, value, body) => Expr::LetConst(
                name,
                value.subst(target, by),
                Box::new(body.subst(target, by)),
            ),
            Expr::LetConsts(defs, body) => Expr::LetConsts(
                Box::new(defs.subst(target, by)),
                Box::new(body.subst(target, by)),
            ),
            Expr::LetProc(name, value, body) => Expr::LetProc(
                name,
                value.subst(target, by),
                Box::new(body.subst(target, by)),
            ),
            Expr::LetProcs(defs, body) => Expr::LetProcs(
                Box::new(defs.subst(target, by)),
                Box::new(body.subst(target, by)),
            ),
            Expr::LetType(name, ty, body) => if name == target {
                self
            } else {
                Expr::LetType(name, ty.subst(target, by), Box::new(body.subst(target, by)))
            },
            Expr::LetTypes(defs, body) => if defs.defines(target) {
                self
            } else {
                Expr::LetTypes(Box::new(defs.subst(target, by)), Box::new(body.subst(target, by)))
            },
            Expr::LetVar(name, mutability, annotation, init, body) => Expr::LetVar(
                name,
                mutability,
                subst_option(annotation, target, by),
                Box::new(init.subst(target, by)),
                Box::new(body.subst(target, by)),
            ),
            Expr::LetVars(defs, body) => Expr::LetVars(
                Box::new(defs.subst(target, by)),
                Box::new(body.subst(target, by)),
            ),
            Expr::While(cond, body) => Expr::While(
                Box::new(cond.subst(target, by)),
                Box::new(body.subst(target, by)),
            ),
            Expr::If(cond, first, second) => Expr::If(
                Box::new(cond.subst(target, by)),
                Box::new(first.subst(target, by)),
                Box::new(second.subst(target, by)),
            ),
            Expr::When(cond, first, second) => Expr::When(
                cond.subst(target, by),
                Box::new(first.subst(target, by)),
                Box::new(second.subst(target, by)),
            ),
            Expr::Refer(x) => Expr::Refer(Box::new(x.subst(target, by))),
            Expr::Deref(x) => Expr::Deref(Box::new(x.subst(target, by))),
            Expr::DerefMut(pointer, value) => Expr::DerefMut(
                Box::new(pointer.subst(target, by)),
                Box::new(value.subst(target, by)),
            ),
            Expr::Apply(f, args) => Expr::Apply(
                Box::new(f.subst(target, by)),
                Box::new(args.subst(target, by)),
            ),
            Expr::Return(x) => Expr::Return(Box::new(x.subst(target, by))),
            Expr::Array(items) => Expr::Array(Box::new(items.subst(target, by))),
            Expr::Tuple(items) => Expr::Tuple(Box::new(items.subst(target, by))),
            Expr::Struct(fields) => Expr::Struct(Box::new(fields.subst(target, by))),
            Expr::Union(ty, variant, value) => Expr::Union(
                ty.subst(target, by),
                variant,
                Box::new(value.subst(target, by)),
            ),
            Expr::As(x, ty) => Expr::As(Box::new(x.subst(target, by)), ty.subst(target, by)),
            Expr::Member(x, member) => Expr::Member(
                Box::new(x.subst(target, by)),
                member.subst(target, by),
            ),
            Expr::Index(x, index) => Expr::Index(
                Box::new(x.subst(target, by)),
                Box::new(index.subst(target, by)),
            ),
        }
    }

    /// Replaces every free occurrence of the type name `target` by `by`.
    pub fn substitute(&self, target: &Name, by: &Type) -> (r: Expr)
        ensures
            r == self.subst(*target, *by),
        decreases self,
    {
        match self {
            Expr::UnaryOp(op, x) => Expr::UnaryOp(op.clone(), Box::new(x.substitute(target, by))),
            Expr::BinaryOp(op, x, y) => Expr::BinaryOp(
                op.clone(),
                Box::new(x.substitute(target, by)),
                Box::new(y.substitute(target, by)),
            ),
            Expr::TernaryOp(op, x, y, z) => Expr::TernaryOp(
                op.clone(),
                Box::new(x.substitute(target, by)),
                Box::new(y.substitute(target, by)),
                Box::new(z.substitute(target, by)),
            ),
            Expr::AssignOp(op, x, y) => Expr::AssignOp(
                op.clone(),
                Box::new(x.substitute(target, by)),
                Box::new(y.substitute(target, by)),
            ),
            Expr::ConstExpr(value) => Expr::ConstExpr(value.substitute(target, by)),
            Expr::Many(items) => Expr::Many(Box::new(items.substitute(target, by))),
            Expr::LetConst(name, value, body) => Expr::LetConst(
                name.clone(),
                value.substitute(target, by),
                Box::new(body.substitute(target, by)),
            ),
            Expr::LetConsts(defs, body) => Expr::LetConsts(
                Box::new(defs.substitute(target, by)),
                Box::new(body.substitute(target, by)),
            ),
            Expr::LetProc(name, value, body) => Expr::LetProc(
                name.clone(),
                value.substitute(target, by),
                Box::new(body.substitute(target, by)),
            ),
            Expr::LetProcs(defs, body) => Expr::LetProcs(
                Box::new(defs.substitute(target, by)),
                Box::new(body.substitute(target, by)),
            ),
            Expr::LetType(name, ty, body) => if name.is_same(target) {
                self.clone()
            } else {
                Expr::LetType(
                    name.clone(),
                    ty.substitute(target, by),
                    Box::new(body.substitute(target, by)),
                )
            },
            Expr::LetTypes(defs, body) => if defs.has_name(target) {
                self.clone()
            } else {
                Expr::LetTypes(
                    Box::new(defs.substitute(target, by)),
                    Box::new(body.substitute(target, by)),
                )
            },
            Expr::LetVar(name, mutability, annotation, init, body) => Expr::LetVar(
                name.clone(),
                *mutability,
                substitute_option(annotation, target, by),
                Box::new(init.substitute(target, by)),
                Box::new(body.substitute(target, by)),
            ),
            Expr::LetVars(defs, body) => Expr::LetVars(
                Box::new(defs.substitute(target, by)),
                Box::new(body.substitute(target, by)),
            ),
            Expr::While(cond, body) => Expr::While(
                Box::new(cond.substitute(target, by)),
                Box::new(body.substitute(target, by)),
            ),
            Expr::If(cond, first, second) => Expr::If(
                Box::new(cond.substitute(target, by)),
                Box::new(first.substitute(target, by)),
                Box::new(second.substitute(target, by)),
            ),
            Expr::When(cond, first, second) => Expr::When(
                cond.substitute(target, by),
                Box::new(first.substitute(target, by)),
                Box::new(second.substitute(target, by)),
            ),
            Expr::Refer(x) => Expr::Refer(Box::new(x.substitute(target, by))),
            Expr::Deref(x) => Expr::Deref(Box::new(x.substitute(target, by))),
            Expr::DerefMut(pointer, value) => Expr::DerefMut(
                Box::new(pointer.substitute(target, by)),
                Box::new(value.substitute(target, by)),
            ),
            Expr::Apply(f, args) => Expr::Apply(
                Box::new(f.substitute(target, by)),
                Box::new(args.substitute(target, by)),
            ),
            Expr::Return(x) => Expr::Return(Box::new(x.substitute(target, by))),
            Expr::Array(items) => Expr::Array(Box::new(items.substitute(target, by))),
            Expr::Tuple(items) => Expr::Tuple(Box::new(items.substitute(target, by))),
            Expr::Struct(fields) => Expr::Struct(Box::new(fields.substitute(target, by))),
            Expr::Union(ty, variant, value) => Expr::Union(
                ty.substitute(target, by),
                variant.clone(),
                Box::new(value.substitute(target, by)),
            ),
            Expr::As(x, ty) => Expr::As(
                Box::new(x.substitute(target, by)),
                ty.substitute(target, by),
            ),
            Expr::Member(x, member) => Expr::Member(
                Box::new(x.substitute(target, by)),
                member.substitute(target, by),
            ),
            Expr::Index(x, index) => Expr::Index(
                Box::new(x.substitute(target, by)),
                Box::new(index.substitute(target, by)),
            ),
        }
    }
}

impl Exprs {
    /// The list of expressions with `by` in place of every free occurrence of the type
    /// name `target`.
    pub open spec fn subst(self, target: Name, by: Type) -> Exprs
        decreases self,
    {
        match self {
            Exprs::Cons(item, rest) => Exprs::Cons(
                item.subst(target, by),
                Box::new(rest.subst(target, by)),
            ),
            _ => self,
        }
    }

    /// Replaces every free occurrence of the type name `target` by `by`.
    pub fn substitute(&self, target: &Name, by: &Type) -> (r: Exprs)
        ensures
            r == self.subst(*target, *by),
        decreases self,
    {
        match self {
            Exprs::Cons(item, rest) => Exprs::Cons(
                item.substitute(target, by),
                Box::new(rest.substitute(target, by)),
            ),
            _ => self.clone(),
        }
    }
}

impl ExprFields {
    /// The list of named expressions with `by` in place of every free occurrence of the type
    /// name `target`.
    pub open spec fn subst(self, target: Name, by: Type) -> ExprFields
        decreases self,
    {
        match self {
            ExprFields::Cons(name, value, rest) => ExprFields::Cons(
                name,
                value.subst(target, by),
                Box::new(rest.subst(target, by)),
            ),
            _ => self,
        }
    }

    /// Replaces every free occurrence of the type name `target` by `by`.
    pub fn substitute(&self, target: &Name, by: &Type) -> (r: ExprFields)
        ensures
            r == self.subst(*target, *by),
        decreases self,
    {
        match self {
            ExprFields::Cons(name, value, rest) => ExprFields::Cons(
                name.clone(),
                value.substitute(target, by),
                Box::new(rest.substitute(target, by)),
            ),
            _ => self.clone(),
        }
    }
}

impl ProcDefs {
    /// The list of named procedures with `by` in place of every free occurrence of the type
    /// name `target`.
    pub open spec fn subst(self, target: Name, by: Type) -> ProcDefs
        decreases self,
    {
        match self {
            ProcDefs::Cons(name, value, rest) => ProcDefs::Cons(
                name,
                value.subst(target, by),
                Box::new(rest.subst(target, by)),
            ),
            _ => self,
        }
    }

    /// Replaces every free occurrence of the type name `target` by `by`.
    pub fn substitute(&self, target: &Name, by: &Type) -> (r: ProcDefs)
        ensures
            r == self.subst(*target, *by),
        decreases self,
    {
        match self {
            ProcDefs::Cons(name, value, rest) => ProcDefs::Cons(
                name.clone(),
                value.substitute(target, by),
                Box::new(rest.substitute(target, by)),
            ),
            _ => self.clone(),
        }
    }
}

impl VarDefs {
    /// The list of variable definitions with `by` in place of every free occurrence of the type
    /// name `target`.
    pub open spec fn subst(self, target: Name, by: Type) -> VarDefs
        decreases self,
    {
        match self {
            VarDefs::Cons(name, mutability, annotation, init, rest) => VarDefs::Cons(
                name,
                mutability,
                subst_option(annotation, target, by),
                init.subst(target, by),
                Box::new(rest.subst(target, by)),
            ),
            _ => self,
        }
    }

    /// Replaces every free occurrence of the type name `target` by `by`.
    pub fn substitute(&self, target: &Name, by: &Type) -> (r: VarDefs)
        ensures
            r == self.subst(*target, *by),
        decreases self,
    {
        match self {
            VarDefs::Cons(name, mutability, annotation, init, rest) => VarDefs::Cons(
                name.clone(),
                *mutability,
                substitute_option(annotation, target, by),
                init.substitute(target, by),
                Box::new(rest.substitute(target, by)),
            ),
            _ => self.clone(),
        }
    }
}

} // verus!
