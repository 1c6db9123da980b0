//! Sameness of syntax trees, decided: two trees are the same when they
//! are built from the same constructors over the same names and numbers,
//! which is when they are equal. Two templates by themselves are compared
//! for what they say, not for the number of their table.
use vstd::prelude::*;
use crate::syntax::{
    Builtin, ConstExpr, ConstExprs, ConstFields, Expr, ExprFields, Exprs, Fields, Name, Names,
    Operator, Params, PolyProcedure, ProcDefs, Procedure, Signatures, Type, Types, VarDefs,
};

verus! {

fn is_same_option(a: &Option<Type>, b: &Option<Type>) -> (r: bool)
    ensures
        r == (*a == *b),
    decreases a,
{
    match (a, b) {
        (Some(x), Some(y)) => x.is_same(y),
        (None, None) => true,
        _ => false,
    }
}

fn is_same_label(a: &Option<Name>, b: &Option<Name>) -> (r: bool)
    ensures
        r == (*a == *b),
{
    match (a, b) {
        (Some(x), Some(y)) => x.is_same(y),
        (None, None) => true,
        _ => false,
    }
}

impl Name {
    /// Are the two equal?
    pub fn is_same(&self, other: &Name) -> (r: bool)
        ensures
            r == (*self == *other),
        decreases self,
    {
        match (self, other) {
            (Name::Nil, Name::Nil) => true,
            (Name::Cons(c, rest), Name::Cons(other_c, other_rest)) => {
                *c == *other_c
                    && rest.is_same(other_rest)
            },
            _ => false,
        }
    }
}

impl Names {
    /// Are the two equal?
    pub fn is_same(&self, other: &Names) -> (r: bool)
        ensures
            r == (*self == *other),
        decreases self,
    {
        match (self, other) {
            (Names::Nil, Names::Nil) => true,
            (Names::Cons(name, rest), Names::Cons(other_name, other_rest)) => {
                name.is_same(other_name)
                    && rest.is_same(other_rest)
            },
            _ => false,
        }
    }
}

impl Type {
    /// Are the two equal?
    pub fn is_same(&self, other: &Type) -> (r: bool)
        ensures
            r == (*self == *other),
        decreases self,
    {
        match (self, other) {
            (Type::Any, Type::Any) => true,
            (Type::Never, Type::Never) => true,
            (Type::Void, Type::Void) => true,
            (Type::Cell, Type::Cell) => true,
            (Type::Int, Type::Int) => true,
            (Type::Float, Type::Float) => true,
            (Type::Bool, Type::Bool) => true,
            (Type::Char, Type::Char) => true,
            (Type::Enum(variants), Type::Enum(other_variants)) => variants.is_same(other_variants),
            (Type::Unit(name, inner), Type::Unit(other_name, other_inner)) => {
                name.is_same(other_name)
                    && inner.is_same(other_inner)
            },
            (Type::Symbol(name), Type::Symbol(other_name)) => name.is_same(other_name),
            (Type::Let(name, bound, body), Type::Let(other_name, other_bound, other_body)) => {
                name.is_same(other_name)
                    && bound.is_same(other_bound)
                    && body.is_same(other_body)
            },
            (Type::Array(elem, len), Type::Array(other_elem, other_len)) => {
                elem.is_same(other_elem)
                    && len.is_same(other_len)
            },
            (Type::Tuple(items), Type::Tuple(other_items)) => items.is_same(other_items),
            (Type::Struct(fields), Type::Struct(other_fields)) => fields.is_same(other_fields),
            (Type::Union(fields), Type::Union(other_fields)) => fields.is_same(other_fields),
            (Type::Proc(args, ret), Type::Proc(other_args, other_ret)) => {
                args.is_same(other_args)
                    && ret.is_same(other_ret)
            },
            (Type::Pointer(inner), Type::Pointer(other_inner)) => inner.is_same(other_inner),
            (Type::Poly(params, body), Type::Poly(other_params, other_body)) => {
                params.is_same(other_params)
                    && body.is_same(other_body)
            },
            (Type::Apply(scheme, args), Type::Apply(other_scheme, other_args)) => {
                scheme.is_same(other_scheme)
                    && args.is_same(other_args)
            },
            _ => false,
        }
    }
}

impl Types {
    /// Are the two equal?
    pub fn is_same(&self, other: &Types) -> (r: bool)
        ensures
            r == (*self == *other),
        decreases self,
    {
        match (self, other) {
            (Types::Nil, Types::Nil) => true,
            (Types::Cons(ty, rest), Types::Cons(other_ty, other_rest)) => {
                ty.is_same(other_ty)
                    && rest.is_same(other_rest)
            },
            _ => false,
        }
    }
}

impl Fields {
    /// Are the two equal?
    pub fn is_same(&self, other: &Fields) -> (r: bool)
        ensures
            r == (*self == *other),
        decreases self,
    {
        match (self, other) {
            (Fields::Nil, Fields::Nil) => true,
            (Fields::Cons(name, ty, rest), Fields::Cons(other_name, other_ty, other_rest)) => {
                name.is_same(other_name)
                    && ty.is_same(other_ty)
                    && rest.is_same(other_rest)
            },
            _ => false,
        }
    }
}

impl Params {
    /// Are the two equal?
    pub fn is_same(&self, other: &Params) -> (r: bool)
        ensures
            r == (*self == *other),
        decreases self,
    {
        match (self, other) {
            (Params::Nil, Params::Nil) => true,
            (
                Params::Cons(name, mutability, ty, rest),
                Params::Cons(other_name, other_mutability, other_ty, other_rest),
            ) => {
                name.is_same(other_name)
                    && *mutability == *other_mutability
                    && ty.is_same(other_ty)
                    && rest.is_same(other_rest)
            },
            _ => false,
        }
    }
}

impl Signatures {
    /// Are the two equal?
    pub fn is_same(&self, other: &Signatures) -> (r: bool)
        ensures
            r == (*self == *other),
        decreases self,
    {
        match (self, other) {
            (Signatures::Nil, Signatures::Nil) => true,
            (
                Signatures::Cons(params, ret, rest),
                Signatures::Cons(other_params, other_ret, other_rest),
            ) => {
                params.is_same(other_params)
                    && ret.is_same(other_ret)
                    && rest.is_same(other_rest)
            },
            _ => false,
        }
    }
}

impl Operator {
    /// Are the two equal?
    pub fn is_same(&self, other: &Operator) -> (r: bool)
        ensures
            r == (*self == *other),
        decreases self,
    {
        self.name.is_same(&other.name)
            && self.rules.is_same(&other.rules)
    }
}

impl Builtin {
    /// Are the two equal?
    pub fn is_same(&self, other: &Builtin) -> (r: bool)
        ensures
            r == (*self == *other),
        decreases self,
    {
        self.name.is_same(&other.name)
            && self.args.is_same(&other.args)
            && self.ret.is_same(&other.ret)
    }
}

impl Procedure {
    /// Are the two equal?
    pub fn is_same(&self, other: &Procedure) -> (r: bool)
        ensures
            r == (*self == *other),
        decreases self,
    {
        is_same_label(&self.name, &other.name)
            && self.args.is_same(&other.args)
            && self.ret.is_same(&other.ret)
            && self.body.is_same(&other.body)
    }
}

impl PolyProcedure {
    /// Are the two templates alike: do they have the same name, type
    /// parameters, parameters, return type and body? The number of a
    /// template, and so what its table holds, does not count.
    pub open spec fn alike(self, other: PolyProcedure) -> bool {
        self.name == other.name && self.ty_params == other.ty_params && self.args == other.args
            && self.ret == other.ret && *self.body == *other.body
    }

    /// Are the two templates alike, whatever their tables hold?
    pub fn is_same(&self, other: &PolyProcedure) -> (r: bool)
        ensures
            r == self.alike(*other),
            r == (self.name == other.name && self.ty_params == other.ty_params && self.args
                == other.args && self.ret == other.ret && *self.body == *other.body),
        decreases self,
    {
        self.name.is_same(&other.name)
            && self.ty_params.is_same(&other.ty_params)
            && self.args.is_same(&other.args)
            && self.ret.is_same(&other.ret)
            && self.body.is_same(&other.body)
    }
}

impl ConstExpr {
    /// Are the two equal?
    pub fn is_same(&self, other: &ConstExpr) -> (r: bool)
        ensures
            r == (*self == *other),
        decreases self,
    {
        match (self, other) {
            (ConstExpr::Void, ConstExpr::Void) => true,
            (ConstExpr::Null, ConstExpr::Null) => true,
            (ConstExpr::Int(n), ConstExpr::Int(other_n)) => *n == *other_n,
            (ConstExpr::Float(bits), ConstExpr::Float(other_bits)) => *bits == *other_bits,
            (ConstExpr::Char(c), ConstExpr::Char(other_c)) => *c == *other_c,
            (ConstExpr::Bool(b), ConstExpr::Bool(other_b)) => *b == *other_b,
            (ConstExpr::SizeOfType(ty), ConstExpr::SizeOfType(other_ty)) => ty.is_same(other_ty),
            (ConstExpr::TypeOf(expr), ConstExpr::TypeOf(other_expr)) => expr.is_same(other_expr),
            (ConstExpr::As(value, ty), ConstExpr::As(other_value, other_ty)) => {
                value.is_same(other_value)
                    && ty.is_same(other_ty)
            },
            (ConstExpr::SizeOfExpr(expr), ConstExpr::SizeOfExpr(other_expr)) => {
                expr.is_same(other_expr)
            },
            (ConstExpr::CoreBuiltin(builtin), ConstExpr::CoreBuiltin(other_builtin)) => {
                builtin.is_same(other_builtin)
            },
            (ConstExpr::StandardBuiltin(builtin), ConstExpr::StandardBuiltin(other_builtin)) => {
                builtin.is_same(other_builtin)
            },
            (ConstExpr::Proc(procedure), ConstExpr::Proc(other_procedure)) => {
                procedure.is_same(other_procedure)
            },
            (ConstExpr::PolyProc(template), ConstExpr::PolyProc(other_template)) => {
                template.id == other_template.id && template.is_same(other_template)
            },
            (
                ConstExpr::Monomorphize(template, args),
                ConstExpr::Monomorphize(other_template, other_args),
            ) => {
                template.is_same(other_template)
                    && args.is_same(other_args)
            },
            (ConstExpr::Symbol(name), ConstExpr::Symbol(other_name)) => name.is_same(other_name),
            (ConstExpr::Of(ty, variant), ConstExpr::Of(other_ty, other_variant)) => {
                ty.is_same(other_ty)
                    && variant.is_same(other_variant)
            },
            (ConstExpr::Tuple(items), ConstExpr::Tuple(other_items)) => items.is_same(other_items),
            (ConstExpr::Array(items), ConstExpr::Array(other_items)) => items.is_same(other_items),
            (ConstExpr::Struct(fields), ConstExpr::Struct(other_fields)) => {
                fields.is_same(other_fields)
            },
            (
                ConstExpr::Union(ty, variant, value),
                ConstExpr::Union(other_ty, other_variant, other_value),
            ) => {
                ty.is_same(other_ty)
                    && variant.is_same(other_variant)
                    && value.is_same(other_value)
            },
            _ => false,
        }
    }
}

impl ConstExprs {
    /// Are the two equal?
    pub fn is_same(&self, other: &ConstExprs) -> (r: bool)
        ensures
            r == (*self == *other),
        decreases self,
    {
        match (self, other) {
            (ConstExprs::Nil, ConstExprs::Nil) => true,
            (ConstExprs::Cons(item, rest), ConstExprs::Cons(other_item, other_rest)) => {
                item.is_same(other_item)
                    && rest.is_same(other_rest)
            },
            _ => false,
        }
    }
}

impl ConstFields {
    /// Are the two equal?
    pub fn is_same(&self, other: &ConstFields) -> (r: bool)
        ensures
            r == (*self == *other),
        decreases self,
    {
        match (self, other) {
            (ConstFields::Nil, ConstFields::Nil) => true,
            (
                ConstFields::Cons(name, value, rest),
                ConstFields::Cons(other_name, other_value, other_rest),
            ) => {
                name.is_same(other_name)
                    && value.is_same(other_value)
                    && rest.is_same(other_rest)
            },
            _ => false,
        }
    }
}

impl Expr {
    /// Are the two equal?
    pub fn is_same(&self, other: &Expr) -> (r: bool)
        ensures
            r == (*self == *other),
        decreases self,
    {
        match (self, other) {
            (Expr::UnaryOp(op, x), Expr::UnaryOp(other_op, other_x)) => {
                op.is_same(other_op)
                    && x.is_same(other_x)
            },
            (Expr::BinaryOp(op, x, y), Expr::BinaryOp(other_op, other_x, other_y)) => {
                op.is_same(other_op)
                    && x.is_same(other_x)
                    && y.is_same(other_y)
            },
            (Expr::TernaryOp(op, x, y, z), Expr::TernaryOp(other_op, other_x, other_y, other_z)) => {
                op.is_same(other_op)
                    && x.is_same(other_x)
                    && y.is_same(other_y)
                    && z.is_same(other_z)
            },
            (Expr::AssignOp(op, x, y), Expr::AssignOp(other_op, other_x, other_y)) => {
                op.is_same(other_op)
                    && x.is_same(other_x)
                    && y.is_same(other_y)
            },
            (Expr::ConstExpr(value), Expr::ConstExpr(other_value)) => value.is_same(other_value),
            (Expr::Many(items), Expr::Many(other_items)) => items.is_same(other_items),
            (
                Expr::LetConst(name, value, body),
                Expr::LetConst(other_name, other_value, other_body),
            ) => {
                name.is_same(other_name)
                    && value.is_same(other_value)
                    && body.is_same(other_body)
            },
            (Expr::LetConsts(defs, body), Expr::LetConsts(other_defs, other_body)) => {
                defs.is_same(other_defs)
                    && body.is_same(other_body)
            },
            (
                Expr::LetProc(name, value, body),
                Expr::LetProc(other_name, other_value, other_body),
            ) => {
                name.is_same(other_name)
                    && value.is_same(other_value)
                    && body.is_same(other_body)
            },
            (Expr::LetProcs(defs, body), Expr::LetProcs(other_defs, other_body)) => {
                defs.is_same(other_defs)
                    && body.is_same(other_body)
            },
            (Expr::LetType(name, ty, body), Expr::LetType(other_name, other_ty, other_body)) => {
                name.is_same(other_name)
                    && ty.is_same(other_ty)
                    && body.is_same(other_body)
            },
            (Expr::LetTypes(defs, body), Expr::LetTypes(other_defs, other_body)) => {
                defs.is_same(other_defs)
                    && body.is_same(other_body)
            },
            (
                Expr::LetVar(name, mutability, annotation, init, body),
                Expr::LetVar(other_name, other_mutability, other_annotation, other_init, other_body),
            ) => {
                name.is_same(other_name)
                    && *mutability == *other_mutability
                    && is_same_option(annotation, other_annotation)
                    && init.is_same(other_init)
                    && body.is_same(other_body)
            },
            (Expr::LetVars(defs, body), Expr::LetVars(other_defs, other_body)) => {
                defs.is_same(other_defs)
                    && body.is_same(other_body)
            },
            (Expr::While(cond, body), Expr::While(other_cond, other_body)) => {
                cond.is_same(other_cond)
                    && body.is_same(other_body)
            },
            (Expr::If(cond, first, second), Expr::If(other_cond, other_first, other_second)) => {
                cond.is_same(other_cond)
                    && first.is_same(other_first)
                    && second.is_same(other_second)
            },
            (Expr::When(cond, first, second), Expr::When(other_cond, other_first, other_second)) => {
                cond.is_same(other_cond)
                    && first.is_same(other_first)
                    && second.is_same(other_second)
            },
            (Expr::Refer(x), Expr::Refer(other_x)) => x.is_same(other_x),
            (Expr::Deref(x), Expr::Deref(other_x)) => x.is_same(other_x),
            (Expr::DerefMut(pointer, value), Expr::DerefMut(other_pointer, other_value)) => {
                pointer.is_same(other_pointer)
                    && value.is_same(other_value)
            },
            (Expr::Apply(f, args), Expr::Apply(other_f, other_args)) => {
                f.is_same(other_f)
                    && args.is_same(other_args)
            },
            (Expr::Return(x), Expr::Return(other_x)) => x.is_same(other_x),
            (Expr::Array(items), Expr::Array(other_items)) => items.is_same(other_items),
            (Expr::Tuple(items), Expr::Tuple(other_items)) => items.is_same(other_items),
            (Expr::Struct(fields), Expr::Struct(other_fields)) => fields.is_same(other_fields),
            (Expr::Union(ty, variant, value), Expr::Union(other_ty, other_variant, other_value)) => {
                ty.is_same(other_ty)
                    && variant.is_same(other_variant)
                    && value.is_same(other_value)
            },
            (Expr::As(x, ty), Expr::As(other_x, other_ty)) => {
                x.is_same(other_x)
                    && ty.is_same(other_ty)
            },
            (Expr::Member(x, member), Expr::Member(other_x, other_member)) => {
                x.is_same(other_x)
                    && member.is_same(other_member)
            },
            (Expr::Index(x, index), Expr::Index(other_x, other_index)) => {
                x.is_same(other_x)
                    && index.is_same(other_index)
            },
            _ => false,
        }
    }
}

impl Exprs {
    /// Are the two equal?
    pub fn is_same(&self, other: &Exprs) -> (r: bool)
        ensures
            r == (*self == *other),
        decreases self,
    {
        match (self, other) {
            (Exprs::Nil, Exprs::Nil) => true,
            (Exprs::Cons(item, rest), Exprs::Cons(other_item, other_rest)) => {
                item.is_same(other_item)
                    && rest.is_same(other_rest)
            },
            _ => false,
        }
    }
}

impl ExprFields {
    /// Are the two equal?
    pub fn is_same(&self, other: &ExprFields) -> (r: bool)
        ensures
            r == (*self == *other),
        decreases self,
    {
        match (self, other) {
            (ExprFields::Nil, ExprFields::Nil) => true,
            (
                ExprFields::Cons(name, value, rest),
                ExprFields::Cons(other_name, other_value, other_rest),
            ) => {
                name.is_same(other_name)
                    && value.is_same(other_value)
                    && rest.is_same(other_rest)
            },
            _ => false,
        }
    }
}

impl ProcDefs {
    /// Are the two equal?
    pub fn is_same(&self, other: &ProcDefs) -> (r: bool)
        ensures
            r == (*self == *other),
        decreases self,
    {
        match (self, other) {
            (ProcDefs::Nil, ProcDefs::Nil) => true,
            (
                ProcDefs::Cons(name, value, rest),
                ProcDefs::Cons(other_name, other_value, other_rest),
            ) => {
                name.is_same(other_name)
                    && value.is_same(other_value)
                    && rest.is_same(other_rest)
            },
            _ => false,
        }
    }
}

impl VarDefs {
    /// Are the two equal?
    pub fn is_same(&self, other: &VarDefs) -> (r: bool)
        ensures
            r == (*self == *other),
        decreases self,
    {
        match (self, other) {
            (VarDefs::Nil, VarDefs::Nil) => true,
            (
                VarDefs::Cons(name, mutability, annotation, init, rest),
                VarDefs::Cons(other_name, other_mutability, other_annotation, other_init, other_rest),
            ) => {
                name.is_same(other_name)
                    && *mutability == *other_mutability
                    && is_same_option(annotation, other_annotation)
                    && init.is_same(other_init)
                    && rest.is_same(other_rest)
            },
            _ => false,
        }
    }
}

impl PartialEq for PolyProcedure {
    fn eq(&self, other: &PolyProcedure) -> (r: bool) {
        self.is_same(other)
    }
}

impl vstd::std_specs::cmp::PartialEqSpecImpl for PolyProcedure {
    open spec fn obeys_eq_spec() -> bool {
        true
    }

    open spec fn eq_spec(&self, other: &PolyProcedure) -> bool {
        self.alike(*other)
    }
}

} // verus!
