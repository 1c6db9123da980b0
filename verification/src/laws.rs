//! Laws of the type algebra, of environments and of the checker.
//!
//! The laws hold in every environment and under every budget of nested
//! steps, so they hold of the public operations, which fix the budget.
use vstd::prelude::*;
use crate::check::{
    check_expr, check_items, check_params, check_poly, check_proc, check_type, mismatch,
};
use crate::env::Env;
use crate::error::Error;
use crate::infer::type_of_expr;
use crate::relate::{casts, decays, equal_heads, equal_lists, equal_types};
use crate::simplify::{lemma_simplified_is_simple, simplified};
use crate::syntax::{
    ConstExpr, Expr, Exprs, Fields, Mutability, Name, Names, PolyProcedure, Procedure, Type,
    Types,
};

verus! {

/// Every type equals itself.
pub proof fn lemma_equal_reflexive(t: Type, env: Env, fuel: nat)
    ensures
        equal_types(t, t, env, fuel) == Ok::<bool, Error>(true),
{
}

/// Equality of types does not depend on the side: if `a` equals `b`, then
/// `b` equals `a`.
pub proof fn lemma_equal_symmetric(a: Type, b: Type, env: Env, fuel: nat)
    requires
        equal_types(a, b, env, fuel) == Ok::<bool, Error>(true),
    ensures
        equal_types(b, a, env, fuel) == Ok::<bool, Error>(true),
    decreases fuel, 0nat, a, 1nat,
{
    if a != b {
        let x = simplified(a, env, fuel)->Ok_0;
        let y = simplified(b, env, fuel)->Ok_0;
        lemma_equal_heads_symmetric(x, y, env, (fuel - 1) as nat);
    }
}

/// Equality of head-simple types does not depend on the side.
pub proof fn lemma_equal_heads_symmetric(x: Type, y: Type, env: Env, fuel: nat)
    requires
        equal_heads(x, y, env, fuel) == Ok::<bool, Error>(true),
    ensures
        equal_heads(y, x, env, fuel) == Ok::<bool, Error>(true),
    decreases fuel, 1nat, x, 0nat,
{
    match (x, y) {
        (Type::Unit(_, t), Type::Unit(_, u)) => {
            lemma_equal_symmetric(*t, *u, env, fuel);
        },
        (Type::Array(t, _), Type::Array(u, _)) => {
            lemma_equal_symmetric(*t, *u, env, fuel);
        },
        (Type::Tuple(ts), Type::Tuple(us)) => {
            lemma_equal_lists_symmetric(*ts, *us, env, fuel);
        },
        (Type::Proc(ps, r), Type::Proc(qs, s)) => {
            lemma_equal_lists_symmetric(*ps, *qs, env, fuel);
            lemma_equal_symmetric(*r, *s, env, fuel);
        },
        (Type::Pointer(t), Type::Pointer(u)) => {
            lemma_equal_symmetric(*t, *u, env, fuel);
        },
        (Type::Poly(ps, t), Type::Poly(qs, u)) => {
            if ps == qs {
                lemma_equal_symmetric(*t, *u, env.with_opaque(ps), fuel);
            }
        },
        _ => {},
    }
}

/// Equality of lists of types does not depend on the side.
pub proof fn lemma_equal_lists_symmetric(ts: Types, us: Types, env: Env, fuel: nat)
    requires
        equal_lists(ts, us, env, fuel) == Ok::<bool, Error>(true),
    ensures
        equal_lists(us, ts, env, fuel) == Ok::<bool, Error>(true),
    decreases fuel, 0nat, ts, 0nat,
{
    match (ts, us) {
        (Types::Cons(t, rest), Types::Cons(u, more)) => {
            lemma_equal_symmetric(t, u, env, fuel);
            lemma_equal_lists_symmetric(*rest, *more, env, fuel);
        },
        _ => {},
    }
}

/// Decay is reflexive, and `Any` absorbs: every type decays to itself and
/// to `Any`.
pub proof fn lemma_decay_reflexive(t: Type, env: Env, fuel: nat)
    ensures
        decays(t, t, env, fuel) == Ok::<bool, Error>(true),
        decays(t, Type::Any, env, fuel) == Ok::<bool, Error>(true),
{
    lemma_equal_reflexive(t, env, fuel);
}

/// Equal types decay to each other.
pub proof fn lemma_equal_types_decay(a: Type, b: Type, env: Env, fuel: nat)
    requires
        equal_types(a, b, env, fuel) == Ok::<bool, Error>(true),
    ensures
        decays(a, b, env, fuel) == Ok::<bool, Error>(true),
        decays(b, a, env, fuel) == Ok::<bool, Error>(true),
{
    lemma_equal_symmetric(a, b, env, fuel);
}

/// Whatever decays can be cast.
pub proof fn lemma_decay_casts(a: Type, b: Type, env: Env, fuel: nat)
    requires
        decays(a, b, env, fuel) == Ok::<bool, Error>(true),
    ensures
        casts(a, b, env, fuel) == Ok::<bool, Error>(true),
{
}

/// Substitution stops at a scheme over the name: the scheme stays as it
/// is, whatever its body holds.
pub proof fn lemma_substitute_shadowed_by_scheme(
    params: Names,
    body: Type,
    name: Name,
    by: Type,
)
    requires
        params.contains(name),
    ensures
        Type::Poly(params, Box::new(body)).subst(name, by) == Type::Poly(params, Box::new(body)),
{
}

/// Substitution stops at a local binding of the name.
pub proof fn lemma_substitute_shadowed_by_let(name: Name, bound: Type, body: Type, by: Type)
    ensures
        Type::Let(name, Box::new(bound), Box::new(body)).subst(name, by) == Type::Let(
            name,
            Box::new(bound),
            Box::new(body),
        ),
{
}

/// Substitution stops at a definition of the name in an expression, be it
/// a single definition or one of a block.
pub proof fn lemma_substitute_shadowed_by_definition(
    name: Name,
    ty: Type,
    defs: Fields,
    body: Expr,
    by: Type,
)
    ensures
        Expr::LetType(name, ty, Box::new(body)).subst(name, by) == Expr::LetType(
            name,
            ty,
            Box::new(body),
        ),
        defs.defines(name) ==> Expr::LetTypes(Box::new(defs), Box::new(body)).subst(name, by)
            == Expr::LetTypes(Box::new(defs), Box::new(body)),
{
}

/// Substitution stops at a template with the name among its type
/// parameters.
pub proof fn lemma_substitute_shadowed_by_template(p: PolyProcedure, name: Name, by: Type)
    requires
        p.ty_params.contains(name),
    ensures
        p.subst(name, by) == p,
{
}

/// Below a scheme over other names, substitution goes on: only the body
/// changes, and the parameters stay.
pub proof fn lemma_substitute_under_scheme(params: Names, body: Type, name: Name, by: Type)
    requires
        !params.contains(name),
    ensures
        Type::Poly(params, Box::new(body)).subst(name, by) == Type::Poly(
            params,
            Box::new(body.subst(name, by)),
        ),
{
}

/// Simplifying twice gives what simplifying once gives.
pub proof fn lemma_simplified_twice(t: Type, env: Env, fuel: nat, again: nat)
    ensures
        simplified(t, env, fuel) matches Ok(s) ==> simplified(s, env, again) == Ok::<Type, Error>(
            s,
        ),
{
    lemma_simplified_is_simple(t, env, fuel);
}

/// `Never` decays to every type: a decay from `Never` that can be decided
/// holds.
pub proof fn lemma_never_decays(target: Type, env: Env, fuel: nat)
    ensures
        decays(Type::Never, target, env, fuel) is Ok ==> decays(Type::Never, target, env, fuel)
            == Ok::<bool, Error>(true),
{
}

/// A definition shadows what was defined before under its name and
/// leaves every other name, and every other table, as it was.
pub proof fn lemma_define_type_shadows(env: Env, name: Name, ty: Type, other: Name)
    ensures
        env.with_type(name, ty).types.lookup(name) == Some(ty),
        other != name ==> env.with_type(name, ty).types.lookup(other) == env.types.lookup(other),
        env.with_type(name, ty).consts == env.consts,
        env.with_type(name, ty).procs == env.procs,
        env.with_type(name, ty).vars == env.vars,
{
}

/// A constant shadows what was defined before under its name and leaves
/// every other name, and every other table, as it was.
pub proof fn lemma_define_const_shadows(env: Env, name: Name, value: ConstExpr, other: Name)
    ensures
        env.with_const(name, value).consts.lookup(name) == Some(value),
        other != name ==> env.with_const(name, value).consts.lookup(other) == env.consts.lookup(
            other,
        ),
        env.with_const(name, value).types == env.types,
        env.with_const(name, value).procs == env.procs,
        env.with_const(name, value).vars == env.vars,
{
}

/// A variable shadows what was defined before under its name and leaves
/// every other name, and every other table, as it was.
pub proof fn lemma_define_var_shadows(
    env: Env,
    name: Name,
    mutability: Mutability,
    ty: Type,
    other: Name,
)
    ensures
        env.with_var(name, mutability, ty).vars.lookup(name) == Some((mutability, ty)),
        other != name ==> env.with_var(name, mutability, ty).vars.lookup(other)
            == env.vars.lookup(other),
        env.with_var(name, mutability, ty).types == env.types,
        env.with_var(name, mutability, ty).consts == env.consts,
        env.with_var(name, mutability, ty).procs == env.procs,
{
}

/// Entering a scope hides nothing: every name means in the new scope what
/// it meant outside.
pub proof fn lemma_scope_keeps_definitions(env: Env)
    ensures
        env.scope().types == env.types,
        env.scope().consts == env.consts,
        env.scope().procs == env.procs,
        env.scope().vars == env.vars,
        env.scope().expected_ret == env.expected_ret,
        env.scope().frame == Names::Nil,
{
}

/// Are the items of a list sound, each with a type that equals the type
/// of the item before it? `last` is the type of the item before the list,
/// if there is one.
pub open spec fn homogeneous(items: Exprs, last: Option<Type>, env: Env, fuel: nat) -> bool
    decreases items,
{
    match items {
        Exprs::Nil => true,
        Exprs::Cons(e, rest) => {
            &&& check_expr(e, env, fuel) is Ok
            &&& type_of_expr(e, env, fuel) matches Ok(t)
            &&& last matches Some(l) ==> equal_types(l, t, env, fuel) == Ok::<bool, Error>(true)
            &&& homogeneous(*rest, Some(t), env, fuel)
        },
    }
}

/// An array literal is sound exactly when its items are sound and each
/// has a type that equals the type of the item before it.
pub proof fn lemma_array_items_agree(items: Exprs, last: Option<Type>, env: Env, fuel: nat)
    ensures
        check_items(items, last, env, fuel) is Ok <==> homogeneous(items, last, env, fuel),
    decreases items,
{
    match items {
        Exprs::Nil => {},
        Exprs::Cons(e, rest) => {
            match type_of_expr(e, env, fuel) {
                Ok(t) => {
                    lemma_array_items_agree(*rest, Some(t), env, fuel);
                },
                Err(_) => {},
            }
        },
    }
}

/// The branches of a sound conditional have equal types, and the
/// conditional has the type of its first branch. Where all parts are sound
/// and the types of the branches differ, the conditional is reported with
/// both types.
pub proof fn lemma_if_branches_agree(
    cond: Expr,
    first: Expr,
    second: Expr,
    env: Env,
    fuel: nat,
)
    ensures
        ({
            let whole = Expr::If(Box::new(cond), Box::new(first), Box::new(second));
            let parts_sound = check_expr(cond, env, fuel) is Ok && check_expr(first, env, fuel)
                is Ok && check_expr(second, env, fuel) is Ok;
            &&& check_expr(whole, env, fuel) is Ok <==> {
                &&& parts_sound
                &&& type_of_expr(first, env, fuel) matches Ok(t)
                &&& type_of_expr(second, env, fuel) matches Ok(u)
                &&& equal_types(t, u, env, fuel) == Ok::<bool, Error>(true)
            }
            &&& type_of_expr(whole, env, fuel) == type_of_expr(first, env, fuel)
            &&& forall|t: Type, u: Type|
                parts_sound && type_of_expr(first, env, fuel) == Ok::<Type, Error>(t)
                    && type_of_expr(second, env, fuel) == Ok::<Type, Error>(u) && equal_types(
                    t,
                    u,
                    env,
                    fuel,
                ) == Ok::<bool, Error>(false) ==> check_expr(whole, env, fuel) == Err::<
                    (),
                    Error,
                >(mismatch(t, u, whole))
        }),
{
}

/// Only pointers are dereferenced: a dereference is sound exactly when
/// its operand is sound and has a type that simplifies to a pointer, and
/// then it has the type that the pointer points to. Where the operand is
/// sound and its type simplifies to anything else, the dereference is
/// reported as found where a pointer to `Any` was expected.
pub proof fn lemma_deref_needs_pointer(x: Expr, env: Env, fuel: nat)
    ensures
        ({
            let whole = Expr::Deref(Box::new(x));
            &&& check_expr(whole, env, fuel) is Ok <==> {
                &&& check_expr(x, env, fuel) is Ok
                &&& type_of_expr(x, env, fuel) matches Ok(t)
                &&& simplified(t, env, fuel) matches Ok(Type::Pointer(_))
            }
            &&& forall|t: Type, inner: Type|
                type_of_expr(x, env, fuel) == Ok::<Type, Error>(t) && simplified(t, env, fuel)
                    == Ok::<Type, Error>(Type::Pointer(Box::new(inner))) ==> type_of_expr(
                    whole,
                    env,
                    fuel,
                ) == Ok::<Type, Error>(inner)
            &&& forall|t: Type, found: Type|
                check_expr(x, env, fuel) is Ok && type_of_expr(x, env, fuel) == Ok::<Type, Error>(
                    t,
                ) && simplified(t, env, fuel) == Ok::<Type, Error>(found) && !(found is Pointer)
                    ==> check_expr(whole, env, fuel) == Err::<(), Error>(
                    mismatch(Type::Pointer(Box::new(Type::Any)), found, whole),
                )
        }),
{
}

/// The return check of a template goes by equality in either direction: a
/// template with sound parameter types, a sound return type and a sound
/// body is sound when the type of its body equals its return type,
/// whichever of the two is compared with the other.
pub proof fn lemma_template_returns_equal_type(p: PolyProcedure, env: Env, fuel: nat)
    requires
        env.scope().with_opaque(p.ty_params).with_args(p.args) is Ok,
        ({
            let inner = env.scope().with_opaque(p.ty_params).with_args(
                p.args,
            )->Ok_0.with_expected_ret(p.ret);
            &&& check_params(p.args, inner, fuel) is Ok
            &&& check_type(p.ret, inner, fuel) is Ok
            &&& check_expr(*p.body, inner, fuel) is Ok
            &&& type_of_expr(*p.body, inner, fuel) matches Ok(found)
            &&& (equal_types(found, p.ret, inner, fuel) == Ok::<bool, Error>(true) || equal_types(
                p.ret,
                found,
                inner,
                fuel,
            ) == Ok::<bool, Error>(true))
        }),
    ensures
        check_poly(p, env, fuel) is Ok,
{
    let inner = env.scope().with_opaque(p.ty_params).with_args(p.args)->Ok_0.with_expected_ret(
        p.ret,
    );
    let found = type_of_expr(*p.body, inner, fuel)->Ok_0;
    if equal_types(found, p.ret, inner, fuel) == Ok::<bool, Error>(true) {
        lemma_equal_types_decay(found, p.ret, inner, fuel);
    } else {
        lemma_equal_types_decay(p.ret, found, inner, fuel);
    }
    assert(decays(found, p.ret, inner, fuel) == Ok::<bool, Error>(true));
}

/// The return check of a procedure goes by equality in either direction.
pub proof fn lemma_procedure_returns_equal_type(p: Procedure, env: Env, fuel: nat)
    requires
        env.scope().with_args(p.args) is Ok,
        ({
            let inner = env.scope().with_args(p.args)->Ok_0.with_expected_ret(p.ret);
            &&& check_params(p.args, inner, fuel) is Ok
            &&& check_type(p.ret, inner, fuel) is Ok
            &&& check_expr(*p.body, inner, fuel) is Ok
            &&& type_of_expr(*p.body, inner, fuel) matches Ok(found)
            &&& (equal_types(found, p.ret, inner, fuel) == Ok::<bool, Error>(true) || equal_types(
                p.ret,
                found,
                inner,
                fuel,
            ) == Ok::<bool, Error>(true))
        }),
    ensures
        check_proc(p, env, fuel) is Ok,
{
    let inner = env.scope().with_args(p.args)->Ok_0.with_expected_ret(p.ret);
    let found = type_of_expr(*p.body, inner, fuel)->Ok_0;
    if equal_types(found, p.ret, inner, fuel) == Ok::<bool, Error>(true) {
        lemma_equal_types_decay(found, p.ret, inner, fuel);
    } else {
        lemma_equal_types_decay(p.ret, found, inner, fuel);
    }
    assert(decays(found, p.ret, inner, fuel) == Ok::<bool, Error>(true));
}

/// In a sound structure or union no two fields share a name.
pub proof fn lemma_sound_fields_are_distinct(fields: Fields, env: Env, fuel: nat)
    ensures
        check_type(Type::Struct(Box::new(fields)), env, fuel) is Ok ==> fields.names().distinct(),
        check_type(Type::Union(Box::new(fields)), env, fuel) is Ok ==> fields.names().distinct(),
{
    fields.names().lemma_repeated();
}

/// The names of a list of fields are the names that lead to a type.
pub proof fn lemma_names_of_fields(fields: Fields, name: Name)
    ensures
        fields.names().contains(name) == (fields.lookup(name) is Some),
    decreases fields,
{
    match fields {
        Fields::Nil => {},
        Fields::Cons(_, _, rest) => {
            lemma_names_of_fields(*rest, name);
        },
    }
}

/// In a sorted list of fields, and so in every concrete structure and
/// union, no two fields share a name.
pub proof fn lemma_sorted_fields_are_distinct(fields: Fields)
    requires
        fields.sorted(),
    ensures
        fields.names().distinct(),
    decreases fields,
{
    match fields {
        Fields::Nil => {},
        Fields::Cons(n, _, rest) => {
            lemma_sorted_fields_are_distinct(*rest);
            lemma_names_of_fields(*rest, n);
            if rest.lookup(n) is Some {
                fields.lemma_first_is_least(n);
                n.lemma_order_total(n);
            }
        },
    }
}

} // verus!
