//! Deep copies of syntax trees. A copy equals the tree it was made from.
use vstd::prelude::*;
use crate::syntax::{
    Builtin, ConstExpr, ConstExprs, ConstFields, Expr, ExprFields, Exprs, Fields, Name, Names,
    Operator, Params, PolyProcedure, ProcDefs, Procedure, Signatures, Type, Types, VarDefs,
};

verus! {

fn copy_annotation(annotation: &Option<Type>) -> (r: Option<Type>)
    ensures
        r == *annotation,
    decreases annotation,
{
    match annotation {
        Some(ty) => Some(ty.clone()),
        None => None,
    }
}

impl Clone for Name {
    fn clone(&self) -> (r: Self)
        ensures
            r == *self,
        decreases self,
    {
        match self {
            Name::Nil => Name::Nil,
            Name::Cons(c, rest) => Name::Cons(*c, Box::new((&**rest).clone())),
        }
    }
}

impl Clone for Names {
    fn clone(&self) -> (r: Self)
        ensures
            r == *self,
        decreases self,
    {
        match self {
            Names::Nil => Names::Nil,
            Names::Cons(name, rest) => Names::Cons(name.clone(), Box::new((&**rest).clone())),
        }
    }
}

impl Clone for Type {
    fn clone(&self) -> (r: Self)
        ensures
            r == *self,
        decreases self,
    {
        match self {
            Type::Any => Type::Any,
            Type::Never => Type::Never,
            Type::Void => Type::Void,
            Type::Cell => Type::Cell,
            Type::Int => Type::Int,
            Type::Float => Type::Float,
            Type::Bool => Type::Bool,
            Type::Char => Type::Char,
            Type::Enum(variants) => Type::Enum(variants.clone()),
            Type::Unit(name, inner) => Type::Unit(name.clone(), Box::new((&**inner).clone())),
            Type::Symbol(name) => Type::Symbol(name.clone()),
            Type::Let(name, bound, body) => Type::Let(
                name.clone(),
                Box::new((&**bound).clone()),
                Box::new((&**body).clone()),
            ),
            Type::Array(elem, len) => Type::Array(
                Box::new((&**elem).clone()),
                Box::new((&**len).clone()),
            ),
            Type::Tuple(items) => Type::Tuple(Box::new((&**items).clone())),
            Type::Struct(fields) => Type::Struct(Box::new((&**fields).clone())),
            Type::Union(fields) => Type::Union(Box::new((&**fields).clone())),
            Type::Proc(args, ret) => Type::Proc(
                Box::new((&**args).clone()),
                Box::new((&**ret).clone()),
            ),
            Type::Pointer(inner) => Type::Pointer(Box::new((&**inner).clone())),
            Type::Poly(params, body) => Type::Poly(params.clone(), Box::new((&**body).clone())),
            Type::Apply(scheme, args) => Type::Apply(
                Box::new((&**scheme).clone()),
                Box::new((&**args).clone()),
            ),
        }
    }
}

impl Clone for Types {
    fn clone(&self) -> (r: Self)
        ensures
            r == *self,
        decreases self,
    {
        match self {
            Types::Nil => Types::Nil,
            Types::Cons(ty, rest) => Types::Cons(ty.clone(), Box::new((&**rest).clone())),
        }
    }
}

impl Clone for Fields {
    fn clone(&self) -> (r: Self)
        ensures
            r == *self,
        decreases self,
    {
        match self {
            Fields::Nil => Fields::Nil,
            Fields::Cons(name, ty, rest) => Fields::Cons(
                name.clone(),
                ty.clone(),
                Box::new((&**rest).clone()),
            ),
        }
    }
}

impl Clone for Params {
    fn clone(&self) -> (r: Self)
        ensures
            r == *self,
        decreases self,
    {
        match self {
            Params::Nil => Params::Nil,
            Params::Cons(name, mutability, ty, rest) => Params::Cons(
                name.clone(),
                *mutability,
                ty.clone(),
                Box::new((&**rest).clone()),
            ),
        }
    }
}

impl Clone for Signatures {
    fn clone(&self) -> (r: Self)
        ensures
            r == *self,
        decreases self,
    {
        match self {
            Signatures::Nil => Signatures::Nil,
            Signatures::Cons(params, ret, rest) => Signatures::Cons(
                params.clone(),
                ret.clone(),
                Box::new((&**rest).clone()),
            ),
        }
    }
}

impl Clone for Operator {
    fn clone(&self) -> (r: Self)
        ensures
            r == *self,
        decreases self,
    {
        Operator {
            name: self.name.clone(),
            rules: self.rules.clone(),
        }
    }
}

impl Clone for Builtin {
    fn clone(&self) -> (r: Self)
        ensures
            r == *self,
        decreases self,
    {
        Builtin {
            name: self.name.clone(),
            args: self.args.clone(),
            ret: self.ret.clone(),
        }
    }
}

impl Clone for Procedure {
    fn clone(&self) -> (r: Self)
        ensures
            r == *self,
        decreases self,
    {
        Procedure {
            name: match &self.name {
                Some(n) => Some(n.clone()),
                None => None,
            },
            args: self.args.clone(),
            ret: self.ret.clone(),
            body: Box::new((&*self.body).clone()),
        }
    }
}

impl Clone for PolyProcedure {
    fn clone(&self) -> (r: Self)
        ensures
            r == *self,
        decreases self,
    {
        PolyProcedure {
            id: self.id,
            name: self.name.clone(),
            ty_params: self.ty_params.clone(),
            args: self.args.clone(),
            ret: self.ret.clone(),
            body: Box::new((&*self.body).clone()),
        }
    }
}

impl Clone for ConstExpr {
    fn clone(&self) -> (r: Self)
        ensures
            r == *self,
        decreases self,
    {
        match self {
            ConstExpr::Void => ConstExpr::Void,
            ConstExpr::Null => ConstExpr::Null,
            ConstExpr::Int(n) => ConstExpr::Int(*n),
            ConstExpr::Float(bits) => ConstExpr::Float(*bits),
            ConstExpr::Char(c) => ConstExpr::Char(*c),
            ConstExpr::Bool(b) => ConstExpr::Bool(*b),
            ConstExpr::SizeOfType(ty) => ConstExpr::SizeOfType(ty.clone()),
            ConstExpr::TypeOf(expr) => ConstExpr::TypeOf(Box::new((&**expr).clone())),
            ConstExpr::As(value, ty) => ConstExpr::As(Box::new((&**value).clone()), ty.clone()),
            ConstExpr::SizeOfExpr(expr) => ConstExpr::SizeOfExpr(Box::new((&**expr).clone())),
            ConstExpr::CoreBuiltin(builtin) => ConstExpr::CoreBuiltin(builtin.clone()),
            ConstExpr::StandardBuiltin(builtin) => ConstExpr::StandardBuiltin(builtin.clone()),
            ConstExpr::Proc(procedure) => ConstExpr::Proc(procedure.clone()),
            ConstExpr::PolyProc(template) => ConstExpr::PolyProc(template.clone()),
            ConstExpr::Monomorphize(template, args) => ConstExpr::Monomorphize(
                Box::new((&**template).clone()),
                args.clone(),
            ),
            ConstExpr::Symbol(name) => ConstExpr::Symbol(name.clone()),
            ConstExpr::Of(ty, variant) => ConstExpr::Of(ty.clone(), variant.clone()),
            ConstExpr::Tuple(items) => ConstExpr::Tuple(Box::new((&**items).clone())),
            ConstExpr::Array(items) => ConstExpr::Array(Box::new((&**items).clone())),
            ConstExpr::Struct(fields) => ConstExpr::Struct(Box::new((&**fields).clone())),
            ConstExpr::Union(ty, variant, value) => ConstExpr::Union(
                ty.clone(),
                variant.clone(),
                Box::new((&**value).clone()),
            ),
        }
    }
}

impl Clone for ConstExprs {
    fn clone(&self) -> (r: Self)
        ensures
            r == *self,
        decreases self,
    {
        match self {
            ConstExprs::Nil => ConstExprs::Nil,
            ConstExprs::Cons(item, rest) => ConstExprs::Cons(
                item.clone(),
                Box::new((&**rest).clone()),
            ),
        }
    }
}

impl Clone for ConstFields {
    fn clone(&self) -> (r: Self)
        ensures
            r == *self,
        decreases self,
    {
        match self {
            ConstFields::Nil => ConstFields::Nil,
            ConstFields::Cons(name, value, rest) => ConstFields::Cons(
                name.clone(),
                value.clone(),
                Box::new((&**rest).clone()),
            ),
        }
    }
}

impl Clone for Expr {
    fn clone(&self) -> (r: Self)
        ensures
            r == *self,
        decreases self,
    {
        match self {
            Expr::UnaryOp(op, x) => Expr::UnaryOp(op.clone(), Box::new((&**x).clone())),
            Expr::BinaryOp(op, x, y) => Expr::BinaryOp(
                op.clone(),
                Box::new((&**x).clone()),
                Box::new((&**y).clone()),
            ),
            Expr::TernaryOp(op, x, y, z) => Expr::TernaryOp(
                op.clone(),
                Box::new((&**x).clone()),
                Box::new((&**y).clone()),
                Box::new((&**z).clone()),
            ),
            Expr::AssignOp(op, x, y) => Expr::AssignOp(
                op.clone(),
                Box::new((&**x).clone()),
                Box::new((&**y).clone()),
            ),
            Expr::ConstExpr(value) => Expr::ConstExpr(value.clone()),
            Expr::Many(items) => Expr::Many(Box::new((&**items).clone())),
            Expr::LetConst(name, value, body) => Expr::LetConst(
                name.clone(),
                value.clone(),
                Box::new((&**body).clone()),
            ),
            Expr::LetConsts(defs, body) => Expr::LetConsts(
                Box::new((&**defs).clone()),
                Box::new((&**body).clone()),
            ),
            Expr::LetProc(name, value, body) => Expr::LetProc(
                name.clone(),
                value.clone(),
                Box::new((&**body).clone()),
            ),
            Expr::LetProcs(defs, body) => Expr::LetProcs(
                Box::new((&**defs).clone()),
                Box::new((&**body).clone()),
            ),
            Expr::LetType(name, ty, body) => Expr::LetType(
                name.clone(),
                ty.clone(),
                Box::new((&**body).clone()),
            ),
            Expr::LetTypes(defs, body) => Expr::LetTypes(
                Box::new((&**defs).clone()),
                Box::new((&**body).clone()),
            ),
            Expr::LetVar(name, mutability, annotation, init, body) => Expr::LetVar(
                name.clone(),
                *mutability,
                copy_annotation(annotation),
                Box::new((&**init).clone()),
                Box::new((&**body).clone()),
            ),
            Expr::LetVars(defs, body) => Expr::LetVars(
                Box::new((&**defs).clone()),
                Box::new((&**body).clone()),
            ),
            Expr::While(cond, body) => Expr::While(
                Box::new((&**cond).clone()),
                Box::new((&**body).clone()),
            ),
            Expr::If(cond, first, second) => Expr::If(
                Box::new((&**cond).clone()),
                Box::new((&**first).clone()),
                Box::new((&**second).clone()),
            ),
            Expr::When(cond, first, second) => Expr::When(
                cond.clone(),
                Box::new((&**first).clone()),
                Box::new((&**second).clone()),
            ),
            Expr::Refer(x) => Expr::Refer(Box::new((&**x).clone())),
            Expr::Deref(x) => Expr::Deref(Box::new((&**x).clone())),
            Expr::DerefMut(pointer, value) => Expr::DerefMut(
                Box::new((&**pointer).clone()),
                Box::new((&**value).clone()),
            ),
            Expr::Apply(f, args) => Expr::Apply(
                Box::new((&**f).clone()),
                Box::new((&**args).clone()),
            ),
            Expr::Return(x) => Expr::Return(Box::new((&**x).clone())),
            Expr::Array(items) => Expr::Array(Box::new((&**items).clone())),
            Expr::Tuple(items) => Expr::Tuple(Box::new((&**items).clone())),
            Expr::Struct(fields) => Expr::Struct(Box::new((&**fields).clone())),
            Expr::Union(ty, variant, value) => Expr::Union(
                ty.clone(),
                variant.clone(),
                Box::new((&**value).clone()),
            ),
            Expr::As(x, ty) => Expr::As(Box::new((&**x).clone()), ty.clone()),
            Expr::Member(x, member) => Expr::Member(Box::new((&**x).clone()), member.clone()),
            Expr::Index(x, index) => Expr::Index(
                Box::new((&**x).clone()),
                Box::new((&**index).clone()),
            ),
        }
    }
}

impl Clone for Exprs {
    fn clone(&self) -> (r: Self)
        ensures
            r == *self,
        decreases self,
    {
        match self {
            Exprs::Nil => Exprs::Nil,
            Exprs::Cons(item, rest) => Exprs::Cons(item.clone(), Box::new((&**rest).clone())),
        }
    }
}

impl Clone for ExprFields {
    fn clone(&self) -> (r: Self)
        ensures
            r == *self,
        decreases self,
    {
        match self {
            ExprFields::Nil => ExprFields::Nil,
            ExprFields::Cons(name, value, rest) => ExprFields::Cons(
                name.clone(),
                value.clone(),
                Box::new((&**rest).clone()),
            ),
        }
    }
}

impl Clone for ProcDefs {
    fn clone(&self) -> (r: Self)
        ensures
            r == *self,
        decreases self,
    {
        match self {
            ProcDefs::Nil => ProcDefs::Nil,
            ProcDefs::Cons(name, value, rest) => ProcDefs::Cons(
                name.clone(),
                value.clone(),
                Box::new((&**rest).clone()),
            ),
        }
    }
}

impl Clone for VarDefs {
    fn clone(&self) -> (r: Self)
        ensures
            r == *self,
        decreases self,
    {
        match self {
            VarDefs::Nil => VarDefs::Nil,
            VarDefs::Cons(name, mutability, annotation, init, rest) => VarDefs::Cons(
                name.clone(),
                *mutability,
                copy_annotation(annotation),
                init.clone(),
                Box::new((&**rest).clone()),
            ),
        }
    }
}

} // verus!
