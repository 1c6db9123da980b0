//! The expected return type of a scope decides nothing yet: no judgment
//! of the type algebra or of the checker reads it. It is kept for the
//! `return` expressions of a body, which are checked for their value only.
//!
//! So a procedure or a template whose return type is replaced by an equal
//! one, in a body that is sound either way, stays sound.
use vstd::prelude::*;
use crate::check::{
    check_const, check_const_fields, check_const_items, check_consts, check_expr,
    check_expr_fields, check_exprs, check_fields, check_items, check_params, check_poly,
    check_proc, check_procs, check_same_type, check_type, check_types, check_vars,
};
use crate::env::Env;
use crate::error::Error;
use crate::eval::{const_bool, const_int};
use crate::infer::{
    env_with_vars, fields_of_consts, fields_of_exprs, type_of_const, type_of_expr, type_of_last,
    types_of_consts, types_of_exprs,
};
use crate::laws::lemma_equal_types_decay;
use crate::layout::{
    field_place, item_place, member_of, member_of_head, size_of, size_of_all, size_of_fields,
    size_of_head, size_of_largest,
};
use crate::relate::{
    accepts, casts, decay_heads, decays, equal_fields, equal_heads, equal_lists, equal_types,
    fields_within, operator_result,
};
use crate::simplify::{instantiated, simplified, unrolled};
use crate::syntax::{
    ConstExpr, ConstExprs, ConstFields, Expr, ExprFields, Exprs, Fields, Name, Names, Params,
    PolyProcedure, ProcDefs, Procedure, Signatures, Type, Types, VarDefs,
};

verus! {

/// The environment with another expected return type.
pub open spec fn relabelled(env: Env, slot: Option<Type>) -> Env {
    Env { expected_ret: slot, ..env }
}

/// The outcome that carries an environment, with another expected return
/// type.
pub open spec fn relabelled_outcome(r: Result<Env, Error>, slot: Option<Type>) -> Result<
    Env,
    Error,
> {
    match r {
        Ok(env) => Ok(relabelled(env, slot)),
        Err(e) => Err(e),
    }
}

/// The head-simple form of a type does not depend on the expected return
/// type.
pub proof fn lemma_simplified_ignores_return(t: Type, env: Env, slot: Option<Type>, fuel: nat)
    ensures
        simplified(t, relabelled(env, slot), fuel) == simplified(t, env, fuel),
    decreases fuel,
{
    match t {
        Type::Symbol(name) => match env.types.lookup(name) {
            None => {},
            Some(u) => {
                if fuel > 0 {
                    lemma_simplified_ignores_return(u, env, slot, (fuel - 1) as nat);
                }
            },
        },
        Type::Let(name, bound, body) => {
            if fuel > 0 {
                lemma_simplified_ignores_return(
                    unrolled(name, *bound, *body),
                    env,
                    slot,
                    (fuel - 1) as nat,
                );
            }
        },
        Type::Apply(scheme, args) => {
            if fuel > 0 {
                lemma_simplified_ignores_return(*scheme, env, slot, (fuel - 1) as nat);
                match simplified(*scheme, env, (fuel - 1) as nat) {
                    Ok(Type::Poly(params, body)) => match instantiated(params, *args, *body) {
                        None => {},
                        Some(u) => {
                            lemma_simplified_ignores_return(u, env, slot, (fuel - 1) as nat);
                        },
                    },
                    _ => {},
                }
            }
        },
        _ => {},
    }
}

/// Opaque type parameters and the expected return type do not touch each
/// other.
pub proof fn lemma_opaque_relabelled(names: Names, env: Env, slot: Option<Type>)
    ensures
        relabelled(env, slot).with_opaque(names) == relabelled(env.with_opaque(names), slot),
    decreases names,
{
    match names {
        Names::Nil => {},
        Names::Cons(n, rest) => {
            lemma_opaque_relabelled(
                *rest,
                env.with_type(n, Type::Unit(n, Box::new(Type::Void))),
                slot,
            );
        },
    }
}

/// Parameters and the expected return type do not touch each other.
pub proof fn lemma_params_relabelled(args: Params, env: Env, slot: Option<Type>)
    ensures
        relabelled(env, slot).with_params(args) == relabelled(env.with_params(args), slot),
    decreases args,
{
    match args {
        Params::Nil => {},
        Params::Cons(n, m, t, rest) => {
            lemma_params_relabelled(*rest, env.with_var(n, m, t), slot);
        },
    }
}

/// The size of a type does not depend on the expected return type.
pub proof fn lemma_size_of_ignores_return(t: Type, env: Env, slot: Option<Type>, fuel: nat)
    ensures
        size_of(t, relabelled(env, slot), fuel) == size_of(t, env, fuel),
    decreases fuel, 0nat, t, 1nat,
{
    lemma_simplified_ignores_return(t, env, slot, fuel);
    match simplified(t, env, fuel) {
        Err(_) => {},
        Ok(head) => {
            if fuel > 0 {
                lemma_size_of_head_ignores_return(head, env, slot, (fuel - 1) as nat);
            }
        },
    }
}

/// The size of a head-simple type does not depend on the expected return type.
pub proof fn lemma_size_of_head_ignores_return(head: Type, env: Env, slot: Option<Type>, fuel: nat)
    ensures
        size_of_head(head, relabelled(env, slot), fuel) == size_of_head(head, env, fuel),
    decreases fuel, 1nat, head, 0nat,
{
    match head {
        Type::Unit(_, inner) => {
            lemma_size_of_ignores_return(*inner, env, slot, fuel);
        },
        Type::Tuple(items) => {
            lemma_size_of_all_ignores_return(*items, head, env, slot, fuel);
        },
        Type::Struct(fields) => {
            lemma_size_of_fields_ignores_return(fields.canonical(), head, env, slot, fuel);
        },
        Type::Union(fields) => {
            lemma_size_of_largest_ignores_return(fields.canonical(), env, slot, fuel);
        },
        Type::Array(elem, len) => {
            lemma_size_of_ignores_return(*elem, env, slot, fuel);
            if size_of(*elem, env, fuel) is Ok {
                lemma_const_int_ignores_return(*len, env, slot, fuel);
            }
        },
        _ => {},
    }
}

/// The size of a list of types does not depend on the expected return type.
pub proof fn lemma_size_of_all_ignores_return(
    items: Types,
    whole: Type,
    env: Env,
    slot: Option<Type>,
    fuel: nat,
)
    ensures
        size_of_all(items, whole, relabelled(env, slot), fuel) == size_of_all(items, whole, env, fuel),
    decreases fuel, 0nat, items, 0nat,
{
    match items {
        Types::Nil => {},
        Types::Cons(t, rest) => {
            lemma_size_of_ignores_return(t, env, slot, fuel);
            if size_of(t, env, fuel) is Ok {
                lemma_size_of_all_ignores_return(*rest, whole, env, slot, fuel);
            }
        },
    }
}

/// The size of a list of fields does not depend on the expected return type.
pub proof fn lemma_size_of_fields_ignores_return(
    fields: Fields,
    whole: Type,
    env: Env,
    slot: Option<Type>,
    fuel: nat,
)
    ensures
        size_of_fields(fields, whole, relabelled(env, slot), fuel) == size_of_fields(fields, whole, env, fuel),
    decreases fuel, 0nat, fields, 0nat,
{
    match fields {
        Fields::Nil => {},
        Fields::Cons(_, t, rest) => {
            lemma_size_of_ignores_return(t, env, slot, fuel);
            if size_of(t, env, fuel) is Ok {
                lemma_size_of_fields_ignores_return(*rest, whole, env, slot, fuel);
            }
        },
    }
}

/// The size of the largest field does not depend on the expected return type.
pub proof fn lemma_size_of_largest_ignores_return(fields: Fields, env: Env, slot: Option<Type>, fuel: nat)
    ensures
        size_of_largest(fields, relabelled(env, slot), fuel) == size_of_largest(fields, env, fuel),
    decreases fuel, 0nat, fields, 0nat,
{
    match fields {
        Fields::Nil => {},
        Fields::Cons(_, t, rest) => {
            lemma_size_of_ignores_return(t, env, slot, fuel);
            if size_of(t, env, fuel) is Ok {
                lemma_size_of_largest_ignores_return(*rest, env, slot, fuel);
            }
        },
    }
}

/// The place of a field does not depend on the expected return type.
pub proof fn lemma_field_place_ignores_return(
    fields: Fields,
    name: Name,
    whole: Type,
    env: Env,
    slot: Option<Type>,
    fuel: nat,
)
    ensures
        field_place(fields, name, whole, relabelled(env, slot), fuel) == field_place(fields, name, whole, env, fuel),
    decreases fuel, 0nat, fields, 0nat,
{
    match fields {
        Fields::Nil => {},
        Fields::Cons(n, t, rest) => {
            if n != name {
                lemma_size_of_ignores_return(t, env, slot, fuel);
                if size_of(t, env, fuel) is Ok {
                    lemma_field_place_ignores_return(*rest, name, whole, env, slot, fuel);
                }
            }
        },
    }
}

/// The place of an item does not depend on the expected return type.
pub proof fn lemma_item_place_ignores_return(
    items: Types,
    index: int,
    whole: Type,
    env: Env,
    slot: Option<Type>,
    fuel: nat,
)
    ensures
        item_place(items, index, whole, relabelled(env, slot), fuel) == item_place(items, index, whole, env, fuel),
    decreases fuel, 0nat, items, 0nat,
{
    match items {
        Types::Nil => {},
        Types::Cons(t, rest) => {
            if index != 0 {
                lemma_size_of_ignores_return(t, env, slot, fuel);
                if size_of(t, env, fuel) is Ok {
                    lemma_item_place_ignores_return(*rest, index - 1, whole, env, slot, fuel);
                }
            }
        },
    }
}

/// The member of a type does not depend on the expected return type.
pub proof fn lemma_member_of_ignores_return(
    t: Type,
    member: ConstExpr,
    context: Expr,
    env: Env,
    slot: Option<Type>,
    fuel: nat,
)
    ensures
        member_of(t, member, context, relabelled(env, slot), fuel) == member_of(t, member, context, env, fuel),
    decreases fuel, 0nat, t, 1nat,
{
    lemma_simplified_ignores_return(t, env, slot, fuel);
    match simplified(t, env, fuel) {
        Err(_) => {},
        Ok(head) => {
            if fuel > 0 {
                lemma_member_of_head_ignores_return(
                    head,
                    member,
                    context,
                    env,
                    slot, (fuel - 1) as nat,
                );
            }
        },
    }
}

/// The member of a head-simple type does not depend on the expected return type.
pub proof fn lemma_member_of_head_ignores_return(
    head: Type,
    member: ConstExpr,
    context: Expr,
    env: Env,
    slot: Option<Type>,
    fuel: nat,
)
    ensures
        member_of_head(head, member, context, relabelled(env, slot), fuel) == member_of_head(
            head,
            member,
            context,
            env,
            fuel,
        ),
    decreases fuel, 1nat, head, 0nat,
{
    match head {
        Type::Pointer(inner) => {
            lemma_member_of_ignores_return(*inner, member, context, env, slot, fuel);
        },
        Type::Struct(fields) => match member {
            ConstExpr::Symbol(name) => {
                lemma_field_place_ignores_return(fields.canonical(), name, head, env, slot, fuel);
            },
            _ => {},
        },
        Type::Tuple(items) => match member {
            ConstExpr::Int(index) => {
                if index >= 0 {
                    lemma_item_place_ignores_return(*items, index as int, head, env, slot, fuel);
                }
            },
            _ => {},
        },
        _ => {},
    }
}

/// The integer that a constant evaluates to does not depend on the expected return type.
pub proof fn lemma_const_int_ignores_return(c: ConstExpr, env: Env, slot: Option<Type>, fuel: nat)
    ensures
        const_int(c, relabelled(env, slot), fuel) == const_int(c, env, fuel),
    decreases fuel, 0nat, c, 0nat,
{
    match c {
        ConstExpr::Symbol(name) => match env.consts.lookup(name) {
            None => {},
            Some(d) => {
                if fuel > 0 {
                    lemma_const_int_ignores_return(d, env, slot, (fuel - 1) as nat);
                }
            },
        },
        ConstExpr::SizeOfType(t) => {
            lemma_size_of_ignores_return(t, env, slot, fuel);
        },
        ConstExpr::SizeOfExpr(e) => {
            lemma_type_of_expr_ignores_return(*e, env, slot, fuel);
            match type_of_expr(*e, env, fuel) {
                Err(_) => {},
                Ok(t) => {
                    if fuel > 0 {
                        lemma_size_of_ignores_return(t, env, slot, (fuel - 1) as nat);
                    }
                },
            }
        },
        _ => {},
    }
}

/// The boolean that a constant evaluates to does not depend on the expected return type.
pub proof fn lemma_const_bool_ignores_return(c: ConstExpr, env: Env, slot: Option<Type>, fuel: nat)
    ensures
        const_bool(c, relabelled(env, slot), fuel) == const_bool(c, env, fuel),
    decreases fuel,
{
    match c {
        ConstExpr::Symbol(name) => match env.consts.lookup(name) {
            None => {},
            Some(d) => {
                if fuel > 0 {
                    lemma_const_bool_ignores_return(d, env, slot, (fuel - 1) as nat);
                }
            },
        },
        _ => {},
    }
}

/// Whether two types are equal does not depend on the expected return type.
pub proof fn lemma_equal_types_ignores_return(a: Type, b: Type, env: Env, slot: Option<Type>, fuel: nat)
    ensures
        equal_types(a, b, relabelled(env, slot), fuel) == equal_types(a, b, env, fuel),
    decreases fuel, 0nat, a, 1nat,
{
    if a != b {
        lemma_simplified_ignores_return(a, env, slot, fuel);
        match simplified(a, env, fuel) {
            Err(_) => {},
            Ok(x) => {
                lemma_simplified_ignores_return(b, env, slot, fuel);
                match simplified(b, env, fuel) {
                    Err(_) => {},
                    Ok(y) => {
                        if fuel > 0 {
                            lemma_equal_heads_ignores_return(
                                x,
                                y,
                                env,
                                slot, (fuel - 1) as nat,
                            );
                        }
                    },
                }
            },
        }
    }
}

/// Whether two head-simple types are equal does not depend on the expected return type.
pub proof fn lemma_equal_heads_ignores_return(x: Type, y: Type, env: Env, slot: Option<Type>, fuel: nat)
    ensures
        equal_heads(x, y, relabelled(env, slot), fuel) == equal_heads(x, y, env, fuel),
    decreases fuel, 1nat, x, 0nat,
{
    match (x, y) {
        (Type::Unit(n, t), Type::Unit(m, u)) => {
            if n == m {
                lemma_equal_types_ignores_return(*t, *u, env, slot, fuel);
            }
        },
        (Type::Array(t, n), Type::Array(u, m)) => {
            lemma_equal_types_ignores_return(*t, *u, env, slot, fuel);
            if equal_types(*t, *u, env, fuel) == Ok::<bool, Error>(true) {
                lemma_const_int_ignores_return(*n, env, slot, fuel);
                if const_int(*n, env, fuel) is Ok {
                    lemma_const_int_ignores_return(*m, env, slot, fuel);
                }
            }
        },
        (Type::Tuple(ts), Type::Tuple(us)) => {
            lemma_equal_lists_ignores_return(*ts, *us, env, slot, fuel);
        },
        (Type::Struct(fs), Type::Struct(gs)) => {
            lemma_equal_fields_ignores_return(*fs, *gs, env, slot, fuel);
        },
        (Type::Union(fs), Type::Union(gs)) => {
            lemma_equal_fields_ignores_return(*fs, *gs, env, slot, fuel);
        },
        (Type::Proc(ps, r), Type::Proc(qs, s)) => {
            lemma_equal_lists_ignores_return(*ps, *qs, env, slot, fuel);
            if equal_lists(*ps, *qs, env, fuel) == Ok::<bool, Error>(true) {
                lemma_equal_types_ignores_return(*r, *s, env, slot, fuel);
            }
        },
        (Type::Pointer(t), Type::Pointer(u)) => {
            lemma_equal_types_ignores_return(*t, *u, env, slot, fuel);
        },
        (Type::Poly(ps, t), Type::Poly(qs, u)) => {
            if ps == qs {
                lemma_opaque_relabelled(ps, env, slot);
                lemma_equal_types_ignores_return(*t, *u, env.with_opaque(ps), slot, fuel);
            }
        },
        _ => {},
    }
}

/// Whether two lists of types are equal does not depend on the expected return type.
pub proof fn lemma_equal_lists_ignores_return(ts: Types, us: Types, env: Env, slot: Option<Type>, fuel: nat)
    ensures
        equal_lists(ts, us, relabelled(env, slot), fuel) == equal_lists(ts, us, env, fuel),
    decreases fuel, 0nat, ts, 0nat,
{
    match (ts, us) {
        (Types::Cons(t, rest), Types::Cons(u, tail)) => {
            lemma_equal_types_ignores_return(t, u, env, slot, fuel);
            if equal_types(t, u, env, fuel) == Ok::<bool, Error>(true) {
                lemma_equal_lists_ignores_return(*rest, *tail, env, slot, fuel);
            }
        },
        _ => {},
    }
}

/// Whether two lists of fields are equal does not depend on the expected return type.
pub proof fn lemma_equal_fields_ignores_return(fs: Fields, gs: Fields, env: Env, slot: Option<Type>, fuel: nat)
    ensures
        equal_fields(fs, gs, relabelled(env, slot), fuel) == equal_fields(fs, gs, env, fuel),
    decreases fuel, 1nat, fs, 0nat,
{
    lemma_fields_within_ignores_return(fs, gs, env, slot, fuel);
    if fields_within(fs, gs, env, fuel) == Ok::<bool, Error>(true) {
        lemma_fields_within_ignores_return(gs, fs, env, slot, fuel);
    }
}

/// Whether one list of fields lies within another does not depend on
/// the expected return type.
pub proof fn lemma_fields_within_ignores_return(
    fs: Fields,
    gs: Fields,
    env: Env,
    slot: Option<Type>,
    fuel: nat,
)
    ensures
        fields_within(fs, gs, relabelled(env, slot), fuel) == fields_within(fs, gs, env, fuel),
    decreases fuel, 0nat, fs, 0nat,
{
    match fs {
        Fields::Nil => {},
        Fields::Cons(n, t, rest) => match gs.lookup(n) {
            None => {},
            Some(u) => {
                lemma_equal_types_ignores_return(t, u, env, slot, fuel);
                if equal_types(t, u, env, fuel) == Ok::<bool, Error>(true) {
                    lemma_fields_within_ignores_return(*rest, gs, env, slot, fuel);
                }
            },
        },
    }
}

/// Whether a type decays to another does not depend on the expected return type.
pub proof fn lemma_decays_ignores_return(a: Type, b: Type, env: Env, slot: Option<Type>, fuel: nat)
    ensures
        decays(a, b, relabelled(env, slot), fuel) == decays(a, b, env, fuel),
    decreases fuel, 2nat, b, 1nat,
{
    if !(b is Any) {
        lemma_equal_types_ignores_return(a, b, env, slot, fuel);
        if equal_types(a, b, env, fuel) == Ok::<bool, Error>(false) {
            lemma_simplified_ignores_return(a, env, slot, fuel);
            match simplified(a, env, fuel) {
                Err(_) => {},
                Ok(x) => {
                    lemma_simplified_ignores_return(b, env, slot, fuel);
                    match simplified(b, env, fuel) {
                        Err(_) => {},
                        Ok(y) => {
                            if fuel > 0 {
                                lemma_decay_heads_ignores_return(
                                    x,
                                    y,
                                    env,
                                    slot, (fuel - 1) as nat,
                                );
                            }
                        },
                    }
                },
            }
        }
    }
}

/// Whether a head-simple type decays to another does not depend on the
/// expected return type.
pub proof fn lemma_decay_heads_ignores_return(x: Type, y: Type, env: Env, slot: Option<Type>, fuel: nat)
    ensures
        decay_heads(x, y, relabelled(env, slot), fuel) == decay_heads(x, y, env, fuel),
    decreases fuel, 2nat, y, 0nat,
{
    match (x, y) {
        (Type::Never, _) => {},
        (_, Type::Any) => {},
        (Type::Pointer(t), Type::Pointer(u)) => {
            lemma_decays_ignores_return(*t, *u, env, slot, fuel);
        },
        _ => {},
    }
}

/// Whether a type can be cast to another does not depend on the expected return type.
pub proof fn lemma_casts_ignores_return(a: Type, b: Type, env: Env, slot: Option<Type>, fuel: nat)
    ensures
        casts(a, b, relabelled(env, slot), fuel) == casts(a, b, env, fuel),
{
    lemma_decays_ignores_return(a, b, env, slot, fuel);
    if decays(a, b, env, fuel) == Ok::<bool, Error>(false) {
        lemma_simplified_ignores_return(a, env, slot, fuel);
        if simplified(a, env, fuel) is Ok {
            lemma_simplified_ignores_return(b, env, slot, fuel);
        }
    }
}

/// Whether a rule accepts operands does not depend on the expected return type.
pub proof fn lemma_accepts_ignores_return(
    params: Types,
    operands: Types,
    env: Env,
    slot: Option<Type>,
    fuel: nat,
)
    ensures
        accepts(params, operands, relabelled(env, slot), fuel) == accepts(params, operands, env, fuel),
    decreases fuel, 3nat, params, 0nat,
{
    match (params, operands) {
        (Types::Cons(p, ps), Types::Cons(a, rest)) => {
            lemma_decays_ignores_return(a, p, env, slot, fuel);
            if decays(a, p, env, fuel) == Ok::<bool, Error>(true) {
                lemma_accepts_ignores_return(*ps, *rest, env, slot, fuel);
            }
        },
        _ => {},
    }
}

/// The type of an operator application does not depend on the expected return type.
pub proof fn lemma_operator_result_ignores_return(
    rules: Signatures,
    operands: Types,
    name: Name,
    env: Env,
    slot: Option<Type>,
    fuel: nat,
)
    ensures
        operator_result(rules, operands, name, relabelled(env, slot), fuel) == operator_result(
            rules,
            operands,
            name,
            env,
            fuel,
        ),
    decreases fuel, 0nat, rules, 0nat,
{
    match rules {
        Signatures::Nil => {},
        Signatures::Cons(params, ret, rest) => {
            if fuel > 0 {
                lemma_accepts_ignores_return(
                    params,
                    operands,
                    env,
                    slot, (fuel - 1) as nat,
                );
            }
            if accepts(params, operands, env, (fuel - 1) as nat) == Ok::<bool, Error>(false) {
                lemma_operator_result_ignores_return(*rest, operands, name, env, slot, fuel);
            }
        },
    }
}

/// The type of an expression does not depend on the expected return type.
pub proof fn lemma_type_of_expr_ignores_return(e: Expr, env: Env, slot: Option<Type>, fuel: nat)
    ensures
        type_of_expr(e, relabelled(env, slot), fuel) == type_of_expr(e, env, fuel),
    decreases fuel, 0nat, e, 0nat,
{
    match e {
        Expr::UnaryOp(op, x) => {
            lemma_type_of_expr_ignores_return(*x, env, slot, fuel);
            match type_of_expr(*x, env, fuel) {
                Err(_) => {},
                Ok(a) => {
                    lemma_operator_result_ignores_return(
                        op.rules,
                        Types::Cons(a, Box::new(Types::Nil)),
                        op.name,
                        env,
                        slot, fuel,
                    );
                },
            }
        },
        Expr::BinaryOp(op, x, y) => {
            lemma_type_of_expr_ignores_return(*x, env, slot, fuel);
            match type_of_expr(*x, env, fuel) {
                Err(_) => {},
                Ok(a) => {
                    lemma_type_of_expr_ignores_return(*y, env, slot, fuel);
                    match type_of_expr(*y, env, fuel) {
                        Err(_) => {},
                        Ok(b) => {
                            lemma_operator_result_ignores_return(
                                op.rules,
                                Types::Cons(a, Box::new(Types::Cons(b, Box::new(Types::Nil)))),
                                op.name,
                                env,
                                slot, fuel,
                            );
                        },
                    }
                },
            }
        },
        Expr::AssignOp(op, x, y) => {
            lemma_type_of_expr_ignores_return(*x, env, slot, fuel);
            match type_of_expr(*x, env, fuel) {
                Err(_) => {},
                Ok(a) => {
                    lemma_type_of_expr_ignores_return(*y, env, slot, fuel);
                    match type_of_expr(*y, env, fuel) {
                        Err(_) => {},
                        Ok(b) => {
                            lemma_operator_result_ignores_return(
                                op.rules,
                                Types::Cons(a, Box::new(Types::Cons(b, Box::new(Types::Nil)))),
                                op.name,
                                env,
                                slot, fuel,
                            );
                        },
                    }
                },
            }
        },
        Expr::TernaryOp(op, x, y, z) => {
            lemma_type_of_expr_ignores_return(*x, env, slot, fuel);
            match type_of_expr(*x, env, fuel) {
                Err(_) => {},
                Ok(a) => {
                    lemma_type_of_expr_ignores_return(*y, env, slot, fuel);
                    match type_of_expr(*y, env, fuel) {
                        Err(_) => {},
                        Ok(b) => {
                            lemma_type_of_expr_ignores_return(*z, env, slot, fuel);
                            match type_of_expr(*z, env, fuel) {
                                Err(_) => {},
                                Ok(c) => {
                                    lemma_operator_result_ignores_return(
                                        op.rules,
                                        Types::Cons(
                                            a,
                                            Box::new(
                                                Types::Cons(
                                                    b,
                                                    Box::new(
                                                        Types::Cons(c, Box::new(Types::Nil)),
                                                    ),
                                                ),
                                            ),
                                        ),
                                        op.name,
                                        env,
                                        slot, fuel,
                                    );
                                },
                            }
                        },
                    }
                },
            }
        },
        Expr::ConstExpr(c) => {
            lemma_type_of_const_ignores_return(c, env, slot, fuel);
        },
        Expr::Many(items) => {
            lemma_type_of_last_ignores_return(*items, env, slot, fuel);
        },
        Expr::LetConst(name, value, body) => {
            lemma_type_of_expr_ignores_return(*body, env.with_const(name, value), slot, fuel);
        },
        Expr::LetConsts(defs, body) => {
            lemma_type_of_expr_ignores_return(*body, env.with_consts(*defs), slot, fuel);
        },
        Expr::LetProc(name, value, body) => {
            lemma_type_of_expr_ignores_return(*body, env.with_proc(name, value), slot, fuel);
        },
        Expr::LetProcs(defs, body) => {
            lemma_type_of_expr_ignores_return(*body, env.with_procs(*defs), slot, fuel);
        },
        Expr::LetType(name, ty, body) => {
            lemma_type_of_expr_ignores_return(*body, env.with_type(name, ty), slot, fuel);
        },
        Expr::LetTypes(defs, body) => {
            lemma_type_of_expr_ignores_return(*body, env.with_types(*defs), slot, fuel);
        },
        Expr::LetVar(name, mutability, annotation, init, body) => match annotation {
            Some(t) => {
                lemma_type_of_expr_ignores_return(
                    *body,
                    env.with_var(name, mutability, t),
                    slot, fuel,
                );
            },
            None => {
                lemma_type_of_expr_ignores_return(*init, env, slot, fuel);
                match type_of_expr(*init, env, fuel) {
                    Err(_) => {},
                    Ok(t) => {
                        lemma_type_of_expr_ignores_return(
                            *body,
                            env.with_var(name, mutability, t),
                            slot, fuel,
                        );
                    },
                }
            },
        },
        Expr::LetVars(defs, body) => {
            lemma_env_with_vars_ignores_return(*defs, env, slot, fuel);
            match env_with_vars(*defs, env, fuel) {
                Err(_) => {},
                Ok(inner) => {
                    lemma_type_of_expr_ignores_return(*body, inner, slot, fuel);
                },
            }
        },
        Expr::If(_, first, _) => {
            lemma_type_of_expr_ignores_return(*first, env, slot, fuel);
        },
        Expr::When(cond, first, second) => {
            lemma_const_bool_ignores_return(cond, env, slot, fuel);
            match const_bool(cond, env, fuel) {
                Err(_) => {},
                Ok(true) => {
                    lemma_type_of_expr_ignores_return(*first, env, slot, fuel);
                },
                Ok(false) => {
                    lemma_type_of_expr_ignores_return(*second, env, slot, fuel);
                },
            }
        },
        Expr::Refer(x) => {
            lemma_type_of_expr_ignores_return(*x, env, slot, fuel);
        },
        Expr::Deref(x) => {
            lemma_type_of_expr_ignores_return(*x, env, slot, fuel);
            match type_of_expr(*x, env, fuel) {
                Err(_) => {},
                Ok(t) => {
                    lemma_simplified_ignores_return(t, env, slot, fuel);
                },
            }
        },
        Expr::Apply(f, args) => {
            lemma_type_of_expr_ignores_return(*f, env, slot, fuel);
            match type_of_expr(*f, env, fuel) {
                Err(_) => {},
                Ok(t) => {
                    lemma_simplified_ignores_return(t, env, slot, fuel);
                    match simplified(t, env, fuel) {
                        Err(_) => {},
                        Ok(Type::Proc(_, _)) => {},
                        Ok(_) => {
                            lemma_types_of_exprs_ignores_return(*args, env, slot, fuel);
                        },
                    }
                },
            }
        },
        Expr::Array(items) => match *items {
            Exprs::Nil => {},
            Exprs::Cons(first, _) => {
                lemma_type_of_expr_ignores_return(first, env, slot, fuel);
            },
        },
        Expr::Tuple(items) => {
            lemma_types_of_exprs_ignores_return(*items, env, slot, fuel);
        },
        Expr::Struct(fields) => {
            lemma_fields_of_exprs_ignores_return(*fields, env, slot, fuel);
        },
        Expr::Member(x, member) => {
            lemma_type_of_expr_ignores_return(*x, env, slot, fuel);
            match type_of_expr(*x, env, fuel) {
                Err(_) => {},
                Ok(t) => {
                    if fuel > 0 {
                        lemma_member_of_ignores_return(
                            t,
                            member,
                            *x,
                            env,
                            slot, (fuel - 1) as nat,
                        );
                    }
                },
            }
        },
        Expr::Index(x, _) => {
            lemma_type_of_expr_ignores_return(*x, env, slot, fuel);
            match type_of_expr(*x, env, fuel) {
                Err(_) => {},
                Ok(t) => {
                    lemma_simplified_ignores_return(t, env, slot, fuel);
                },
            }
        },
        _ => {},
    }
}

/// The type of a constant does not depend on the expected return type.
pub proof fn lemma_type_of_const_ignores_return(c: ConstExpr, env: Env, slot: Option<Type>, fuel: nat)
    ensures
        type_of_const(c, relabelled(env, slot), fuel) == type_of_const(c, env, fuel),
    decreases fuel, 0nat, c, 0nat,
{
    match c {
        ConstExpr::TypeOf(e) => {
            lemma_type_of_expr_ignores_return(*e, env, slot, fuel);
        },
        ConstExpr::Monomorphize(template, _) => {
            lemma_type_of_const_ignores_return(*template, env, slot, fuel);
        },
        ConstExpr::Symbol(name) => match env.vars.lookup(name) {
            Some(_) => {},
            None => match env.consts.lookup(name) {
                Some(d) => {
                    if fuel > 0 {
                        lemma_type_of_const_ignores_return(d, env, slot, (fuel - 1) as nat);
                    }
                },
                None => {},
            },
        },
        ConstExpr::Tuple(items) => {
            lemma_types_of_consts_ignores_return(*items, env, slot, fuel);
        },
        ConstExpr::Array(items) => match *items {
            ConstExprs::Nil => {},
            ConstExprs::Cons(first, _) => {
                lemma_type_of_const_ignores_return(first, env, slot, fuel);
            },
        },
        ConstExpr::Struct(fields) => {
            lemma_fields_of_consts_ignores_return(*fields, env, slot, fuel);
        },
        _ => {},
    }
}

/// The type of a block does not depend on the expected return type.
pub proof fn lemma_type_of_last_ignores_return(items: Exprs, env: Env, slot: Option<Type>, fuel: nat)
    ensures
        type_of_last(items, relabelled(env, slot), fuel) == type_of_last(items, env, fuel),
    decreases fuel, 0nat, items, 0nat,
{
    match items {
        Exprs::Nil => {},
        Exprs::Cons(e, rest) => match *rest {
            Exprs::Nil => {
                lemma_type_of_expr_ignores_return(e, env, slot, fuel);
            },
            _ => {
                lemma_type_of_last_ignores_return(*rest, env, slot, fuel);
            },
        },
    }
}

/// The types of a list of expressions do not depend on the expected return type.
pub proof fn lemma_types_of_exprs_ignores_return(items: Exprs, env: Env, slot: Option<Type>, fuel: nat)
    ensures
        types_of_exprs(items, relabelled(env, slot), fuel) == types_of_exprs(items, env, fuel),
    decreases fuel, 0nat, items, 0nat,
{
    match items {
        Exprs::Nil => {},
        Exprs::Cons(e, rest) => {
            lemma_type_of_expr_ignores_return(e, env, slot, fuel);
            if type_of_expr(e, env, fuel) is Ok {
                lemma_types_of_exprs_ignores_return(*rest, env, slot, fuel);
            }
        },
    }
}

/// The types of a list of constants do not depend on the expected return type.
pub proof fn lemma_types_of_consts_ignores_return(items: ConstExprs, env: Env, slot: Option<Type>, fuel: nat)
    ensures
        types_of_consts(items, relabelled(env, slot), fuel) == types_of_consts(items, env, fuel),
    decreases fuel, 0nat, items, 0nat,
{
    match items {
        ConstExprs::Nil => {},
        ConstExprs::Cons(c, rest) => {
            lemma_type_of_const_ignores_return(c, env, slot, fuel);
            if type_of_const(c, env, fuel) is Ok {
                lemma_types_of_consts_ignores_return(*rest, env, slot, fuel);
            }
        },
    }
}

/// The types of the fields of a structure literal do not depend on the
/// expected return type.
pub proof fn lemma_fields_of_exprs_ignores_return(fields: ExprFields, env: Env, slot: Option<Type>, fuel: nat)
    ensures
        fields_of_exprs(fields, relabelled(env, slot), fuel) == fields_of_exprs(fields, env, fuel),
    decreases fuel, 0nat, fields, 0nat,
{
    match fields {
        ExprFields::Nil => {},
        ExprFields::Cons(_, e, rest) => {
            lemma_type_of_expr_ignores_return(e, env, slot, fuel);
            if type_of_expr(e, env, fuel) is Ok {
                lemma_fields_of_exprs_ignores_return(*rest, env, slot, fuel);
            }
        },
    }
}

/// The types of the fields of a constant structure do not depend on the
/// expected return type.
pub proof fn lemma_fields_of_consts_ignores_return(
    fields: ConstFields,
    env: Env,
    slot: Option<Type>,
    fuel: nat,
)
    ensures
        fields_of_consts(fields, relabelled(env, slot), fuel) == fields_of_consts(fields, env, fuel),
    decreases fuel, 0nat, fields, 0nat,
{
    match fields {
        ConstFields::Nil => {},
        ConstFields::Cons(_, c, rest) => {
            lemma_type_of_const_ignores_return(c, env, slot, fuel);
            if type_of_const(c, env, fuel) is Ok {
                lemma_fields_of_consts_ignores_return(*rest, env, slot, fuel);
            }
        },
    }
}

/// The environment behind a block of variables does not depend on the
/// expected return type.
pub proof fn lemma_env_with_vars_ignores_return(defs: VarDefs, env: Env, slot: Option<Type>, fuel: nat)
    ensures
        env_with_vars(defs, relabelled(env, slot), fuel) == relabelled_outcome(
            env_with_vars(defs, env, fuel),
            slot,
        ),
    decreases fuel, 0nat, defs, 0nat,
{
    match defs {
        VarDefs::Nil => {},
        VarDefs::Cons(name, mutability, annotation, init, rest) => match annotation {
            Some(t) => {
                lemma_env_with_vars_ignores_return(
                    *rest,
                    env.with_var(name, mutability, t),
                    slot, fuel,
                );
            },
            None => {
                lemma_type_of_expr_ignores_return(init, env, slot, fuel);
                match type_of_expr(init, env, fuel) {
                    Err(_) => {},
                    Ok(t) => {
                        lemma_env_with_vars_ignores_return(
                            *rest,
                            env.with_var(name, mutability, t),
                            slot, fuel,
                        );
                    },
                }
            },
        },
    }
}

/// Whether two types agree does not depend on the expected return type.
pub proof fn lemma_check_same_type_ignores_return(
    expected: Type,
    found: Type,
    expr: Expr,
    env: Env,
    slot: Option<Type>,
    fuel: nat,
)
    ensures
        check_same_type(expected, found, expr, relabelled(env, slot), fuel) == check_same_type(
            expected,
            found,
            expr,
            env,
            fuel,
        ),
{
    lemma_equal_types_ignores_return(expected, found, env, slot, fuel);
}

/// Whether a type is sound does not depend on the expected return type.
pub proof fn lemma_check_type_ignores_return(t: Type, env: Env, slot: Option<Type>, fuel: nat)
    ensures
        check_type(t, relabelled(env, slot), fuel) == check_type(t, env, fuel),
    decreases t,
{
    match t {
        Type::Unit(_, inner) => {
            lemma_check_type_ignores_return(*inner, env, slot, fuel);
        },
        Type::Let(name, bound, body) => {
            lemma_check_type_ignores_return(*bound, env.with_type(name, *bound), slot, fuel);
            if check_type(*bound, env.with_type(name, *bound), fuel) is Ok {
                lemma_check_type_ignores_return(*body, env.with_type(name, *bound), slot, fuel);
            }
        },
        Type::Array(elem, len) => {
            lemma_check_type_ignores_return(*elem, env, slot, fuel);
            if check_type(*elem, env, fuel) is Ok {
                lemma_check_const_ignores_return(*len, env, slot, fuel);
                if check_const(*len, env, fuel) is Ok {
                    lemma_const_int_ignores_return(*len, env, slot, fuel);
                }
            }
        },
        Type::Tuple(items) => {
            lemma_check_types_ignores_return(*items, env, slot, fuel);
        },
        Type::Struct(fields) => {
            lemma_check_fields_ignores_return(*fields, env, slot, fuel);
        },
        Type::Union(fields) => {
            lemma_check_fields_ignores_return(*fields, env, slot, fuel);
        },
        Type::Proc(args, ret) => {
            lemma_check_types_ignores_return(*args, env, slot, fuel);
            if check_types(*args, env, fuel) is Ok {
                lemma_check_type_ignores_return(*ret, env, slot, fuel);
            }
        },
        Type::Pointer(inner) => {
            lemma_check_type_ignores_return(*inner, env, slot, fuel);
        },
        Type::Poly(params, body) => {
            lemma_opaque_relabelled(params, env, slot);
            lemma_check_type_ignores_return(*body, env.with_opaque(params), slot, fuel);
        },
        Type::Apply(scheme, args) => {
            lemma_check_type_ignores_return(*scheme, env, slot, fuel);
            if check_type(*scheme, env, fuel) is Ok {
                lemma_check_types_ignores_return(*args, env, slot, fuel);
            }
        },
        _ => {},
    }
}

/// Whether the types of a list are sound does not depend on the expected return type.
pub proof fn lemma_check_types_ignores_return(items: Types, env: Env, slot: Option<Type>, fuel: nat)
    ensures
        check_types(items, relabelled(env, slot), fuel) == check_types(items, env, fuel),
    decreases items,
{
    match items {
        Types::Nil => {},
        Types::Cons(t, rest) => {
            lemma_check_type_ignores_return(t, env, slot, fuel);
            if check_type(t, env, fuel) is Ok {
                lemma_check_types_ignores_return(*rest, env, slot, fuel);
            }
        },
    }
}

/// Whether the fields of a list are sound does not depend on the expected return type.
pub proof fn lemma_check_fields_ignores_return(fields: Fields, env: Env, slot: Option<Type>, fuel: nat)
    ensures
        check_fields(fields, relabelled(env, slot), fuel) == check_fields(fields, env, fuel),
    decreases fields,
{
    match fields {
        Fields::Nil => {},
        Fields::Cons(_, t, rest) => {
            lemma_check_type_ignores_return(t, env, slot, fuel);
            if check_type(t, env, fuel) is Ok {
                lemma_check_fields_ignores_return(*rest, env, slot, fuel);
            }
        },
    }
}

/// Whether the parameters of a list are sound does not depend on the
/// expected return type.
pub proof fn lemma_check_params_ignores_return(args: Params, env: Env, slot: Option<Type>, fuel: nat)
    ensures
        check_params(args, relabelled(env, slot), fuel) == check_params(args, env, fuel),
    decreases args,
{
    match args {
        Params::Nil => {},
        Params::Cons(_, _, t, rest) => {
            lemma_check_type_ignores_return(t, env, slot, fuel);
            if check_type(t, env, fuel) is Ok {
                lemma_check_params_ignores_return(*rest, env, slot, fuel);
            }
        },
    }
}

/// Whether a constant is sound does not depend on the expected return type.
pub proof fn lemma_check_const_ignores_return(c: ConstExpr, env: Env, slot: Option<Type>, fuel: nat)
    ensures
        check_const(c, relabelled(env, slot), fuel) == check_const(c, env, fuel),
    decreases c,
{
    match c {
        ConstExpr::TypeOf(e) => {
            lemma_check_expr_ignores_return(*e, env, slot, fuel);
        },
        ConstExpr::As(inner, ty) => {
            lemma_type_of_const_ignores_return(*inner, env, slot, fuel);
            match type_of_const(*inner, env, fuel) {
                Err(_) => {},
                Ok(found) => {
                    lemma_casts_ignores_return(found, ty, env, slot, fuel);
                },
            }
        },
        ConstExpr::SizeOfExpr(e) => {
            lemma_check_expr_ignores_return(*e, env, slot, fuel);
        },
        ConstExpr::Proc(p) => {
            lemma_check_proc_ignores_return(p, env, slot, fuel);
        },
        ConstExpr::PolyProc(p) => {
            lemma_check_poly_ignores_return(p, env, slot, fuel);
        },
        ConstExpr::Monomorphize(template, args) => {
            lemma_check_const_ignores_return(*template, env, slot, fuel);
            if check_const(*template, env, fuel) is Ok {
                lemma_check_types_ignores_return(args, env, slot, fuel);
                if check_types(args, env, fuel) is Ok {
                    lemma_type_of_const_ignores_return(*template, env, slot, fuel);
                    match type_of_const(*template, env, fuel) {
                        Err(_) => {},
                        Ok(t) => {
                            lemma_simplified_ignores_return(t, env, slot, fuel);
                        },
                    }
                }
            }
        },
        ConstExpr::Of(ty, _) => {
            lemma_simplified_ignores_return(ty, env, slot, fuel);
        },
        ConstExpr::Tuple(items) => {
            lemma_check_consts_ignores_return(*items, env, slot, fuel);
        },
        ConstExpr::Array(items) => {
            lemma_check_const_items_ignores_return(*items, None, env, slot, fuel);
        },
        ConstExpr::Struct(fields) => {
            lemma_check_const_fields_ignores_return(*fields, env, slot, fuel);
        },
        ConstExpr::Union(ty, variant, value) => {
            lemma_simplified_ignores_return(ty, env, slot, fuel);
            match simplified(ty, env, fuel) {
                Ok(Type::Union(fields)) => match fields.lookup(variant) {
                    None => {},
                    Some(expected) => {
                        lemma_check_const_ignores_return(*value, env, slot, fuel);
                        if check_const(*value, env, fuel) is Ok {
                            lemma_type_of_const_ignores_return(*value, env, slot, fuel);
                            match type_of_const(*value, env, fuel) {
                                Err(_) => {},
                                Ok(found) => {
                                    lemma_check_same_type_ignores_return(
                                        expected,
                                        found,
                                        Expr::ConstExpr(c),
                                        env,
                                        slot, fuel,
                                    );
                                },
                            }
                        }
                    },
                },
                _ => {},
            }
        },
        _ => {},
    }
}

/// Whether the constants of a list are sound does not depend on the
/// expected return type.
pub proof fn lemma_check_consts_ignores_return(items: ConstExprs, env: Env, slot: Option<Type>, fuel: nat)
    ensures
        check_consts(items, relabelled(env, slot), fuel) == check_consts(items, env, fuel),
    decreases items,
{
    match items {
        ConstExprs::Nil => {},
        ConstExprs::Cons(c, rest) => {
            lemma_check_const_ignores_return(c, env, slot, fuel);
            if check_const(c, env, fuel) is Ok {
                lemma_check_consts_ignores_return(*rest, env, slot, fuel);
            }
        },
    }
}

/// Whether the items of a constant array are sound does not depend on the
/// expected return type.
pub proof fn lemma_check_const_items_ignores_return(
    items: ConstExprs,
    last: Option<Type>,
    env: Env,
    slot: Option<Type>,
    fuel: nat,
)
    ensures
        check_const_items(items, last, relabelled(env, slot), fuel) == check_const_items(items, last, env, fuel),
    decreases items,
{
    match items {
        ConstExprs::Nil => {},
        ConstExprs::Cons(c, rest) => {
            lemma_check_const_ignores_return(c, env, slot, fuel);
            if check_const(c, env, fuel) is Ok {
                lemma_type_of_const_ignores_return(c, env, slot, fuel);
                match type_of_const(c, env, fuel) {
                    Err(_) => {},
                    Ok(t) => match last {
                        None => {
                            lemma_check_const_items_ignores_return(*rest, Some(t), env, slot, fuel);
                        },
                        Some(l) => {
                            lemma_check_same_type_ignores_return(
                                l,
                                t,
                                Expr::ConstExpr(c),
                                env,
                                slot, fuel,
                            );
                            if check_same_type(l, t, Expr::ConstExpr(c), env, fuel) is Ok {
                                lemma_check_const_items_ignores_return(
                                    *rest,
                                    Some(t),
                                    env,
                                    slot, fuel,
                                );
                            }
                        },
                    },
                }
            }
        },
    }
}

/// Whether the named constants of a list are sound does not depend on the
/// expected return type.
pub proof fn lemma_check_const_fields_ignores_return(
    fields: ConstFields,
    env: Env,
    slot: Option<Type>,
    fuel: nat,
)
    ensures
        check_const_fields(fields, relabelled(env, slot), fuel) == check_const_fields(fields, env, fuel),
    decreases fields,
{
    match fields {
        ConstFields::Nil => {},
        ConstFields::Cons(_, c, rest) => {
            lemma_check_const_ignores_return(c, env, slot, fuel);
            if check_const(c, env, fuel) is Ok {
                lemma_check_const_fields_ignores_return(*rest, env, slot, fuel);
            }
        },
    }
}

/// Whether an expression is sound does not depend on the expected return type.
pub proof fn lemma_check_expr_ignores_return(e: Expr, env: Env, slot: Option<Type>, fuel: nat)
    ensures
        check_expr(e, relabelled(env, slot), fuel) == check_expr(e, env, fuel),
    decreases e,
{
    match e {
        Expr::UnaryOp(_, x) => {
            lemma_check_expr_ignores_return(*x, env, slot, fuel);
            if check_expr(*x, env, fuel) is Ok {
                lemma_type_of_expr_ignores_return(e, env, slot, fuel);
            }
        },
        Expr::BinaryOp(_, x, y) => {
            lemma_check_expr_ignores_return(*x, env, slot, fuel);
            if check_expr(*x, env, fuel) is Ok {
                lemma_check_expr_ignores_return(*y, env, slot, fuel);
                if check_expr(*y, env, fuel) is Ok {
                    lemma_type_of_expr_ignores_return(e, env, slot, fuel);
                }
            }
        },
        Expr::TernaryOp(_, x, y, z) => {
            lemma_check_expr_ignores_return(*x, env, slot, fuel);
            if check_expr(*x, env, fuel) is Ok {
                lemma_check_expr_ignores_return(*y, env, slot, fuel);
                if check_expr(*y, env, fuel) is Ok {
                    lemma_check_expr_ignores_return(*z, env, slot, fuel);
                    if check_expr(*z, env, fuel) is Ok {
                        lemma_type_of_expr_ignores_return(e, env, slot, fuel);
                    }
                }
            }
        },
        Expr::AssignOp(_, x, y) => {
            lemma_check_expr_ignores_return(*x, env, slot, fuel);
            if check_expr(*x, env, fuel) is Ok {
                lemma_check_expr_ignores_return(*y, env, slot, fuel);
                if check_expr(*y, env, fuel) is Ok {
                    lemma_type_of_expr_ignores_return(e, env, slot, fuel);
                }
            }
        },
        Expr::ConstExpr(c) => {
            lemma_check_const_ignores_return(c, env, slot, fuel);
        },
        Expr::Many(items) => {
            lemma_check_exprs_ignores_return(*items, env, slot, fuel);
        },
        Expr::LetConst(name, value, body) => {
            lemma_check_const_ignores_return(value, env.with_const(name, value), slot, fuel);
            if check_const(value, env.with_const(name, value), fuel) is Ok {
                lemma_check_expr_ignores_return(*body, env.with_const(name, value), slot, fuel);
            }
        },
        Expr::LetConsts(defs, body) => {
            lemma_check_const_fields_ignores_return(*defs, env.with_consts(*defs), slot, fuel);
            if check_const_fields(*defs, env.with_consts(*defs), fuel) is Ok {
                lemma_check_expr_ignores_return(*body, env.with_consts(*defs), slot, fuel);
            }
        },
        Expr::LetProc(name, value, body) => {
            lemma_check_proc_ignores_return(value, env.with_proc(name, value), slot, fuel);
            if check_proc(value, env.with_proc(name, value), fuel) is Ok {
                lemma_check_expr_ignores_return(*body, env.with_proc(name, value), slot, fuel);
            }
        },
        Expr::LetProcs(defs, body) => {
            lemma_check_procs_ignores_return(*defs, env.with_procs(*defs), slot, fuel);
            if check_procs(*defs, env.with_procs(*defs), fuel) is Ok {
                lemma_check_expr_ignores_return(*body, env.with_procs(*defs), slot, fuel);
            }
        },
        Expr::LetType(name, ty, body) => {
            lemma_check_type_ignores_return(ty, env.with_type(name, ty), slot, fuel);
            if check_type(ty, env.with_type(name, ty), fuel) is Ok {
                lemma_check_expr_ignores_return(*body, env.with_type(name, ty), slot, fuel);
            }
        },
        Expr::LetTypes(defs, body) => {
            lemma_check_fields_ignores_return(*defs, env.with_types(*defs), slot, fuel);
            if check_fields(*defs, env.with_types(*defs), fuel) is Ok {
                lemma_check_expr_ignores_return(*body, env.with_types(*defs), slot, fuel);
            }
        },
        Expr::LetVar(name, mutability, annotation, init, body) => {
            lemma_check_expr_ignores_return(*init, env, slot, fuel);
            if check_expr(*init, env, fuel) is Ok {
                lemma_type_of_expr_ignores_return(*init, env, slot, fuel);
                match type_of_expr(*init, env, fuel) {
                    Err(_) => {},
                    Ok(inferred) => match annotation {
                        None => {
                            lemma_check_expr_ignores_return(
                                *body,
                                env.with_var(name, mutability, inferred),
                                slot, fuel,
                            );
                        },
                        Some(t) => {
                            lemma_check_type_ignores_return(t, env, slot, fuel);
                            if check_type(t, env, fuel) is Ok {
                                lemma_equal_types_ignores_return(inferred, t, env, slot, fuel);
                                if equal_types(inferred, t, env, fuel) == Ok::<bool, Error>(true) {
                                    lemma_check_expr_ignores_return(
                                        *body,
                                        env.with_var(name, mutability, t),
                                        slot, fuel,
                                    );
                                }
                            }
                        },
                    },
                }
            }
        },
        Expr::LetVars(defs, body) => {
            lemma_check_vars_ignores_return(*defs, e, env, env, slot, fuel);
            match check_vars(*defs, e, env, env, fuel) {
                Err(_) => {},
                Ok(inner) => {
                    lemma_check_expr_ignores_return(*body, inner, slot, fuel);
                },
            }
        },
        Expr::While(cond, body) => {
            lemma_check_expr_ignores_return(*cond, env, slot, fuel);
            if check_expr(*cond, env, fuel) is Ok {
                lemma_check_expr_ignores_return(*body, env, slot, fuel);
            }
        },
        Expr::If(cond, first, second) => {
            lemma_check_expr_ignores_return(*cond, env, slot, fuel);
            if check_expr(*cond, env, fuel) is Ok {
                lemma_check_expr_ignores_return(*first, env, slot, fuel);
                if check_expr(*first, env, fuel) is Ok {
                    lemma_check_expr_ignores_return(*second, env, slot, fuel);
                    if check_expr(*second, env, fuel) is Ok {
                        lemma_type_of_expr_ignores_return(*first, env, slot, fuel);
                        match type_of_expr(*first, env, fuel) {
                            Err(_) => {},
                            Ok(t) => {
                                lemma_type_of_expr_ignores_return(*second, env, slot, fuel);
                                match type_of_expr(*second, env, fuel) {
                                    Err(_) => {},
                                    Ok(u) => {
                                        lemma_check_same_type_ignores_return(
                                            t,
                                            u,
                                            e,
                                            env,
                                            slot, fuel,
                                        );
                                    },
                                }
                            },
                        }
                    }
                }
            }
        },
        Expr::When(cond, first, second) => {
            lemma_check_const_ignores_return(cond, env, slot, fuel);
            if check_const(cond, env, fuel) is Ok {
                lemma_check_expr_ignores_return(*first, env, slot, fuel);
                if check_expr(*first, env, fuel) is Ok {
                    lemma_check_expr_ignores_return(*second, env, slot, fuel);
                }
            }
        },
        Expr::Refer(x) => {
            lemma_check_expr_ignores_return(*x, env, slot, fuel);
        },
        Expr::Deref(x) => {
            lemma_check_expr_ignores_return(*x, env, slot, fuel);
            if check_expr(*x, env, fuel) is Ok {
                lemma_type_of_expr_ignores_return(e, env, slot, fuel);
            }
        },
        Expr::DerefMut(pointer, value) => {
            lemma_check_expr_ignores_return(*pointer, env, slot, fuel);
            if check_expr(*pointer, env, fuel) is Ok {
                lemma_check_expr_ignores_return(*value, env, slot, fuel);
                if check_expr(*value, env, fuel) is Ok {
                    lemma_type_of_expr_ignores_return(*pointer, env, slot, fuel);
                    match type_of_expr(*pointer, env, fuel) {
                        Err(_) => {},
                        Ok(p) => {
                            lemma_type_of_expr_ignores_return(*value, env, slot, fuel);
                            match type_of_expr(*value, env, fuel) {
                                Err(_) => {},
                                Ok(v) => {
                                    lemma_simplified_ignores_return(p, env, slot, fuel);
                                    match simplified(p, env, fuel) {
                                        Ok(Type::Pointer(target)) => {
                                            lemma_equal_types_ignores_return(
                                                *target,
                                                v,
                                                env,
                                                slot, fuel,
                                            );
                                        },
                                        _ => {},
                                    }
                                },
                            }
                        },
                    }
                }
            }
        },
        Expr::Apply(f, args) => {
            lemma_check_expr_ignores_return(*f, env, slot, fuel);
            if check_expr(*f, env, fuel) is Ok {
                lemma_check_exprs_ignores_return(*args, env, slot, fuel);
                if check_exprs(*args, env, fuel) is Ok {
                    lemma_type_of_expr_ignores_return(*f, env, slot, fuel);
                    match type_of_expr(*f, env, fuel) {
                        Err(_) => {},
                        Ok(t) => {
                            lemma_types_of_exprs_ignores_return(*args, env, slot, fuel);
                            match types_of_exprs(*args, env, fuel) {
                                Err(_) => {},
                                Ok(inferred) => {
                                    lemma_simplified_ignores_return(t, env, slot, fuel);
                                    match simplified(t, env, fuel) {
                                        Ok(Type::Proc(params, _)) => {
                                            lemma_equal_lists_ignores_return(
                                                *params,
                                                inferred,
                                                env,
                                                slot, fuel,
                                            );
                                        },
                                        _ => {},
                                    }
                                },
                            }
                        },
                    }
                }
            }
        },
        Expr::Return(x) => {
            lemma_check_expr_ignores_return(*x, env, slot, fuel);
        },
        Expr::Array(items) => {
            lemma_check_items_ignores_return(*items, None, env, slot, fuel);
        },
        Expr::Tuple(items) => {
            lemma_check_exprs_ignores_return(*items, env, slot, fuel);
        },
        Expr::Struct(fields) => {
            lemma_check_expr_fields_ignores_return(*fields, env, slot, fuel);
        },
        Expr::Union(ty, variant, value) => {
            lemma_check_type_ignores_return(ty, env, slot, fuel);
            if check_type(ty, env, fuel) is Ok {
                lemma_simplified_ignores_return(ty, env, slot, fuel);
                match simplified(ty, env, fuel) {
                    Ok(Type::Union(fields)) => match fields.lookup(variant) {
                        None => {},
                        Some(expected) => {
                            lemma_check_expr_ignores_return(*value, env, slot, fuel);
                            if check_expr(*value, env, fuel) is Ok {
                                lemma_type_of_expr_ignores_return(*value, env, slot, fuel);
                                match type_of_expr(*value, env, fuel) {
                                    Err(_) => {},
                                    Ok(found) => {
                                        lemma_check_same_type_ignores_return(
                                            expected,
                                            found,
                                            e,
                                            env,
                                            slot, fuel,
                                        );
                                    },
                                }
                            }
                        },
                    },
                    _ => {},
                }
            }
        },
        Expr::As(x, ty) => {
            lemma_check_expr_ignores_return(*x, env, slot, fuel);
            if check_expr(*x, env, fuel) is Ok {
                lemma_type_of_expr_ignores_return(*x, env, slot, fuel);
                match type_of_expr(*x, env, fuel) {
                    Err(_) => {},
                    Ok(found) => {
                        lemma_casts_ignores_return(found, ty, env, slot, fuel);
                    },
                }
            }
        },
        Expr::Member(x, _) => {
            lemma_check_expr_ignores_return(*x, env, slot, fuel);
            if check_expr(*x, env, fuel) is Ok {
                lemma_type_of_expr_ignores_return(e, env, slot, fuel);
            }
        },
        Expr::Index(value, index) => {
            lemma_check_expr_ignores_return(*value, env, slot, fuel);
            if check_expr(*value, env, fuel) is Ok {
                lemma_check_expr_ignores_return(*index, env, slot, fuel);
                if check_expr(*index, env, fuel) is Ok {
                    lemma_type_of_expr_ignores_return(e, env, slot, fuel);
                    if type_of_expr(e, env, fuel) is Ok {
                        lemma_type_of_expr_ignores_return(*index, env, slot, fuel);
                        match type_of_expr(*index, env, fuel) {
                            Err(_) => {},
                            Ok(i) => {
                                lemma_simplified_ignores_return(i, env, slot, fuel);
                            },
                        }
                    }
                }
            }
        },
    }
}

/// Whether the expressions of a list are sound does not depend on the
/// expected return type.
pub proof fn lemma_check_exprs_ignores_return(items: Exprs, env: Env, slot: Option<Type>, fuel: nat)
    ensures
        check_exprs(items, relabelled(env, slot), fuel) == check_exprs(items, env, fuel),
    decreases items,
{
    match items {
        Exprs::Nil => {},
        Exprs::Cons(e, rest) => {
            lemma_check_expr_ignores_return(e, env, slot, fuel);
            if check_expr(e, env, fuel) is Ok {
                lemma_check_exprs_ignores_return(*rest, env, slot, fuel);
            }
        },
    }
}

/// Whether the items of an array literal are sound does not depend on the
/// expected return type.
pub proof fn lemma_check_items_ignores_return(
    items: Exprs,
    last: Option<Type>,
    env: Env,
    slot: Option<Type>,
    fuel: nat,
)
    ensures
        check_items(items, last, relabelled(env, slot), fuel) == check_items(items, last, env, fuel),
    decreases items,
{
    match items {
        Exprs::Nil => {},
        Exprs::Cons(e, rest) => {
            lemma_check_expr_ignores_return(e, env, slot, fuel);
            if check_expr(e, env, fuel) is Ok {
                lemma_type_of_expr_ignores_return(e, env, slot, fuel);
                match type_of_expr(e, env, fuel) {
                    Err(_) => {},
                    Ok(t) => match last {
                        None => {
                            lemma_check_items_ignores_return(*rest, Some(t), env, slot, fuel);
                        },
                        Some(l) => {
                            lemma_check_same_type_ignores_return(l, t, e, env, slot, fuel);
                            if check_same_type(l, t, e, env, fuel) is Ok {
                                lemma_check_items_ignores_return(*rest, Some(t), env, slot, fuel);
                            }
                        },
                    },
                }
            }
        },
    }
}

/// Whether the named expressions of a list are sound does not depend on
/// the expected return type.
pub proof fn lemma_check_expr_fields_ignores_return(
    fields: ExprFields,
    env: Env,
    slot: Option<Type>,
    fuel: nat,
)
    ensures
        check_expr_fields(fields, relabelled(env, slot), fuel) == check_expr_fields(fields, env, fuel),
    decreases fields,
{
    match fields {
        ExprFields::Nil => {},
        ExprFields::Cons(_, e, rest) => {
            lemma_check_expr_ignores_return(e, env, slot, fuel);
            if check_expr(e, env, fuel) is Ok {
                lemma_check_expr_fields_ignores_return(*rest, env, slot, fuel);
            }
        },
    }
}

/// Whether the procedures of a list are sound does not depend on the
/// expected return type.
pub proof fn lemma_check_procs_ignores_return(defs: ProcDefs, env: Env, slot: Option<Type>, fuel: nat)
    ensures
        check_procs(defs, relabelled(env, slot), fuel) == check_procs(defs, env, fuel),
    decreases defs,
{
    match defs {
        ProcDefs::Nil => {},
        ProcDefs::Cons(_, p, rest) => {
            lemma_check_proc_ignores_return(p, env, slot, fuel);
            if check_proc(p, env, fuel) is Ok {
                lemma_check_procs_ignores_return(*rest, env, slot, fuel);
            }
        },
    }
}

/// Whether the definitions of a block of variables are sound, and the
/// environment behind them, do not depend on the expected return type.
pub proof fn lemma_check_vars_ignores_return(
    defs: VarDefs,
    whole: Expr,
    outer: Env,
    env: Env,
    slot: Option<Type>,
    fuel: nat,
)
    ensures
        check_vars(defs, whole, relabelled(outer, slot), relabelled(env, slot), fuel)
            == relabelled_outcome(check_vars(defs, whole, outer, env, fuel), slot),
    decreases defs,
{
    match defs {
        VarDefs::Nil => {},
        VarDefs::Cons(name, mutability, annotation, init, rest) => {
            lemma_check_expr_ignores_return(init, env, slot, fuel);
            if check_expr(init, env, fuel) is Ok {
                lemma_type_of_expr_ignores_return(init, env, slot, fuel);
                match type_of_expr(init, env, fuel) {
                    Err(_) => {},
                    Ok(inferred) => match annotation {
                        None => {
                            lemma_check_vars_ignores_return(
                                *rest,
                                whole,
                                outer,
                                env.with_var(name, mutability, inferred),
                                slot, fuel,
                            );
                        },
                        Some(t) => {
                            lemma_check_type_ignores_return(t, outer, slot, fuel);
                            if check_type(t, outer, fuel) is Ok {
                                lemma_equal_types_ignores_return(inferred, t, outer, slot, fuel);
                                if equal_types(inferred, t, outer, fuel) == Ok::<bool, Error>(
                                    true,
                                ) {
                                    lemma_check_vars_ignores_return(
                                        *rest,
                                        whole,
                                        outer,
                                        env.with_var(name, mutability, t),
                                        slot, fuel,
                                    );
                                }
                            }
                        },
                    },
                }
            }
        },
    }
}

/// Whether a procedure is sound does not depend on the expected return
/// type of the environment around it: its body has a scope of its own.
pub proof fn lemma_check_proc_ignores_return(
    p: Procedure,
    env: Env,
    slot: Option<Type>,
    fuel: nat,
)
    ensures
        check_proc(p, relabelled(env, slot), fuel) == check_proc(p, env, fuel),
{
    lemma_params_relabelled(p.args, env.scope(), slot);
    assert(relabelled(env, slot).scope() == relabelled(env.scope(), slot));
    match env.scope().with_args(p.args) {
        Err(_) => {},
        Ok(scope) => {
            assert(relabelled(env, slot).scope().with_args(p.args)->Ok_0.with_expected_ret(p.ret)
                == scope.with_expected_ret(p.ret));
        },
    }
}

/// Whether a procedure template is sound does not depend on the expected
/// return type of the environment around it.
pub proof fn lemma_check_poly_ignores_return(
    p: PolyProcedure,
    env: Env,
    slot: Option<Type>,
    fuel: nat,
)
    ensures
        check_poly(p, relabelled(env, slot), fuel) == check_poly(p, env, fuel),
{
    lemma_opaque_relabelled(p.ty_params, env.scope(), slot);
    lemma_params_relabelled(p.args, env.scope().with_opaque(p.ty_params), slot);
    assert(relabelled(env, slot).scope() == relabelled(env.scope(), slot));
    match env.scope().with_opaque(p.ty_params).with_args(p.args) {
        Err(_) => {},
        Ok(scope) => {
            assert(relabelled(env, slot).scope().with_opaque(p.ty_params).with_args(
                p.args,
            )->Ok_0.with_expected_ret(p.ret) == scope.with_expected_ret(p.ret));
        },
    }
}

/// Two templates that differ in swapped, equal types are sound together:
/// let `f` and `g` have the same type parameters and parameters, let the
/// body of each have the return type of the other as its type, and let
/// the two return types be equal in the scope of the bodies. If `f` is
/// sound, and the return type and the body of `g` are sound in that scope,
/// then `g` is sound.
pub proof fn lemma_swapped_return_types(f: PolyProcedure, g: PolyProcedure, env: Env, fuel: nat)
    requires
        g.ty_params == f.ty_params,
        g.args == f.args,
        check_poly(f, env, fuel) is Ok,
        ({
            let scope = env.scope().with_opaque(f.ty_params).with_args(f.args)->Ok_0;
            &&& type_of_expr(*f.body, scope, fuel) == Ok::<Type, Error>(g.ret)
            &&& type_of_expr(*g.body, scope, fuel) == Ok::<Type, Error>(f.ret)
            &&& equal_types(g.ret, f.ret, scope, fuel) == Ok::<bool, Error>(true)
            &&& check_type(g.ret, scope, fuel) is Ok
            &&& check_expr(*g.body, scope, fuel) is Ok
        }),
    ensures
        check_poly(g, env, fuel) is Ok,
{
    let scope = env.scope().with_opaque(f.ty_params).with_args(f.args)->Ok_0;
    assert(scope.with_expected_ret(g.ret) == relabelled(scope, Some(g.ret)));
    assert(scope.with_expected_ret(f.ret) == relabelled(scope, Some(f.ret)));
    lemma_check_params_ignores_return(f.args, scope, Some(f.ret), fuel);
    lemma_check_params_ignores_return(f.args, scope, Some(g.ret), fuel);
    lemma_check_type_ignores_return(g.ret, scope, Some(g.ret), fuel);
    lemma_check_expr_ignores_return(*g.body, scope, Some(g.ret), fuel);
    lemma_type_of_expr_ignores_return(*g.body, scope, Some(g.ret), fuel);
    lemma_decays_ignores_return(f.ret, g.ret, scope, Some(g.ret), fuel);
    lemma_equal_types_decay(g.ret, f.ret, scope, fuel);
}

} // verus!
