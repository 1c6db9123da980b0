//! Simplification: resolving the head of a type.
//!
//! A type is head-simple when its outermost constructor is neither
//! `Symbol`, `Let` nor `Apply`. Simplification resolves names through the
//! environment, unrolls local bindings and instantiates schemes until the
//! head is simple. Every resolution step uses up one unit of a budget, so
//! a cyclic definition ends in `Error::RecursionLimit` and never in a loop.
use vstd::prelude::*;
use crate::env::Env;
use crate::error::Error;
use crate::syntax::{Name, Names, Type, Types};

verus! {

/// The number of nested resolution steps that the public operations allow.
pub const RECURSION_LIMIT: usize = 64;

/// The body of `Let(name, bound, body)` with the binding carried into it.
///
/// Inside `bound` and `body` the name stands for `bound`, which may
/// mention the name again; so each free occurrence is replaced by the
/// binding itself, `Let(name, bound, Symbol(name))`, and a body that is
/// just the name is replaced by `bound`, unrolled once.
pub open spec fn unrolled(name: Name, bound: Type, body: Type) -> Type {
    let knot = Type::Let(name, Box::new(bound), Box::new(Type::Symbol(name)));
    match body {
        Type::Symbol(n) if n == name => bound.subst(name, knot),
        _ => body.subst(name, knot),
    }
}

/// The body of a scheme with the arguments in place of the parameters,
/// the first parameter replaced first; `None` when their numbers differ.
pub open spec fn instantiated(params: Names, args: Types, body: Type) -> Option<Type>
    decreases params,
{
    match (params, args) {
        (Names::Nil, Types::Nil) => Some(body),
        (Names::Cons(p, ps), Types::Cons(a, rest)) => instantiated(*ps, *rest, body.subst(p, a)),
        _ => None,
    }
}

/// The head-simple form of a type, found within `fuel` nested steps.
pub open spec fn simplified(t: Type, env: Env, fuel: nat) -> Result<Type, Error>
    decreases fuel,
{
    match t {
        Type::Symbol(name) => match env.types.lookup(name) {
            None => Err(Error::TypeNotDefined(name)),
            Some(u) => if fuel == 0 {
                Err(Error::RecursionLimit)
            } else {
                simplified(u, env, (fuel - 1) as nat)
            },
        },
        Type::Let(name, bound, body) => if fuel == 0 {
            Err(Error::RecursionLimit)
        } else {
            simplified(unrolled(name, *bound, *body), env, (fuel - 1) as nat)
        },
        Type::Apply(scheme, args) => if fuel == 0 {
            Err(Error::RecursionLimit)
        } else {
            match simplified(*scheme, env, (fuel - 1) as nat) {
                Err(e) => Err(e),
                Ok(Type::Poly(params, body)) => match instantiated(params, *args, *body) {
                    None => Err(Error::InvalidTemplateArgs(t)),
                    Some(u) => simplified(u, env, (fuel - 1) as nat),
                },
                Ok(_) => Err(Error::ApplyNonTemplate(t)),
            }
        },
        _ => Ok(t),
    }
}

/// A simplified type is head-simple.
pub proof fn lemma_simplified_is_simple(t: Type, env: Env, fuel: nat)
    ensures
        simplified(t, env, fuel) matches Ok(s) ==> s.is_simple(),
    decreases fuel,
{
    match t {
        Type::Symbol(name) => match env.types.lookup(name) {
            None => {},
            Some(u) => if fuel > 0 {
                lemma_simplified_is_simple(u, env, (fuel - 1) as nat);
            },
        },
        Type::Let(name, bound, body) => if fuel > 0 {
            lemma_simplified_is_simple(unrolled(name, *bound, *body), env, (fuel - 1) as nat);
        },
        Type::Apply(scheme, args) => if fuel > 0 {
            match simplified(*scheme, env, (fuel - 1) as nat) {
                Ok(Type::Poly(params, body)) => match instantiated(params, *args, *body) {
                    None => {},
                    Some(u) => {
                        lemma_simplified_is_simple(u, env, (fuel - 1) as nat);
                    },
                },
                _ => {},
            }
        },
        _ => {},
    }
}

/// A head-simple type is its own simplified form, whatever the budget.
pub proof fn lemma_simple_is_simplified(t: Type, env: Env, fuel: nat)
    requires
        t.is_simple(),
    ensures
        simplified(t, env, fuel) == Ok::<Type, Error>(t),
{
}

fn unroll(name: &Name, bound: &Type, body: &Type) -> (r: Type)
    ensures
        r == unrolled(*name, *bound, *body),
{
    let knot = Type::Let(
        name.clone(),
        Box::new(bound.clone()),
        Box::new(Type::Symbol(name.clone())),
    );
    match body {
        Type::Symbol(n) if n.is_same(name) => bound.substitute(name, &knot),
        _ => body.substitute(name, &knot),
    }
}

fn instantiate(params: &Names, args: &Types, body: Type) -> (r: Option<Type>)
    ensures
        r == instantiated(*params, *args, body),
    decreases params,
{
    match (params, args) {
        (Names::Nil, Types::Nil) => Some(body),
        (Names::Cons(p, ps), Types::Cons(a, rest)) => instantiate(ps, rest, body.substitute(p, a)),
        _ => None,
    }
}

impl Names {
    /// Are there as many names as types: can a scheme over the names be
    /// applied to the types?
    pub fn matches_arity(&self, args: &Types) -> (r: bool)
        ensures
            forall|body: Type| r == (#[trigger] instantiated(*self, *args, body) is Some),
        decreases self,
    {
        match (self, args) {
            (Names::Nil, Types::Nil) => true,
            (Names::Cons(p, ps), Types::Cons(a, rest)) => {
                let r = ps.matches_arity(rest);
                assert forall|body: Type| r == (#[trigger] instantiated(*self, *args, body)
                    is Some) by {
                    assert(r == (instantiated(**ps, **rest, body.subst(*p, *a)) is Some));
                }
                r
            },
            _ => false,
        }
    }
}

impl Type {
    /// Is the outermost constructor neither `Symbol`, `Let` nor `Apply`?
    pub open spec fn is_simple(self) -> bool {
        !(self is Symbol || self is Let || self is Apply)
    }

    /// The head-simple form of the type, found within `fuel` nested steps.
    pub fn simplify_within(&self, env: &Env, fuel: usize) -> (r: Result<Type, Error>)
        ensures
            r == simplified(*self, *env, fuel as nat),
        decreases fuel,
    {
        match self {
            Type::Symbol(name) => match env.types.get(name) {
                None => Err(Error::TypeNotDefined(name.clone())),
                Some(u) => if fuel == 0 {
                    Err(Error::RecursionLimit)
                } else {
                    u.simplify_within(env, fuel - 1)
                },
            },
            Type::Let(name, bound, body) => if fuel == 0 {
                Err(Error::RecursionLimit)
            } else {
                unroll(name, bound, body).simplify_within(env, fuel - 1)
            },
            Type::Apply(scheme, args) => if fuel == 0 {
                Err(Error::RecursionLimit)
            } else {
                match scheme.simplify_within(env, fuel - 1) {
                    Err(e) => Err(e),
                    Ok(Type::Poly(params, body)) => match instantiate(&params, args, *body) {
                        None => Err(Error::InvalidTemplateArgs(self.clone())),
                        Some(u) => u.simplify_within(env, fuel - 1),
                    },
                    Ok(_) => Err(Error::ApplyNonTemplate(self.clone())),
                }
            },
            _ => Ok(self.clone()),
        }
    }

    /// The head-simple form of the type.
    ///
    /// Names are resolved in `env`, local bindings are unrolled and schemes
    /// are instantiated, within `RECURSION_LIMIT` nested steps. A type that
    /// is head-simple already comes back unchanged.
    pub fn simplify(&self, env: &Env) -> (r: Result<Type, Error>)
        ensures
            r == simplified(*self, *env, RECURSION_LIMIT as nat),
            self.is_simple() ==> r == Ok::<Type, Error>(*self),
            r matches Ok(s) ==> s.is_simple(),
    {
        proof {
            lemma_simplified_is_simple(*self, *env, RECURSION_LIMIT as nat);
        }
        self.simplify_within(env, RECURSION_LIMIT)
    }
}

} // verus!
