//! Evaluation of constant expressions to integers and booleans.
use vstd::prelude::*;
use crate::env::Env;
use crate::error::Error;
use crate::infer::type_of_expr;
use crate::layout::size_of;
use crate::simplify::RECURSION_LIMIT;
use crate::syntax::{ConstExpr, Type};

verus! {

/// A size as a constant integer, or the overflow error for `t`.
pub open spec fn size_as_int(n: u64, t: Type) -> Result<i64, Error> {
    if n > i64::MAX {
        Err(Error::SizeOverflow(t))
    } else {
        Ok(n as i64)
    }
}

/// The integer that a constant expression evaluates to.
///
/// An integer literal is its value; a name is what the constant of that
/// name evaluates to; the size of a type or of an expression is its size
/// in cells. Nothing else is an integer.
pub open spec fn const_int(c: ConstExpr, env: Env, fuel: nat) -> Result<i64, Error>
    decreases fuel, 0nat, c, 0nat,
{
    match c {
        ConstExpr::Int(n) => Ok(n),
        ConstExpr::Symbol(name) => match env.consts.lookup(name) {
            None => Err(Error::SymbolNotDefined(name)),
            Some(d) => if fuel == 0 {
                Err(Error::RecursionLimit)
            } else {
                const_int(d, env, (fuel - 1) as nat)
            },
        },
        ConstExpr::SizeOfType(t) => match size_of(t, env, fuel) {
            Err(e) => Err(e),
            Ok(n) => size_as_int(n, t),
        },
        ConstExpr::SizeOfExpr(e) => match type_of_expr(*e, env, fuel) {
            Err(e) => Err(e),
            Ok(t) => if fuel == 0 {
                Err(Error::RecursionLimit)
            } else {
                match size_of(t, env, (fuel - 1) as nat) {
                    Err(e) => Err(e),
                    Ok(n) => size_as_int(n, t),
                }
            },
        },
        _ => Err(Error::NonIntegralConst(c)),
    }
}

/// The boolean that a constant expression evaluates to.
///
/// A boolean literal is its value; a name is what the constant of that
/// name evaluates to. Nothing else is a boolean.
pub open spec fn const_bool(c: ConstExpr, env: Env, fuel: nat) -> Result<bool, Error>
    decreases fuel,
{
    match c {
        ConstExpr::Bool(b) => Ok(b),
        ConstExpr::Symbol(name) => match env.consts.lookup(name) {
            None => Err(Error::SymbolNotDefined(name)),
            Some(d) => if fuel == 0 {
                Err(Error::RecursionLimit)
            } else {
                const_bool(d, env, (fuel - 1) as nat)
            },
        },
        _ => Err(Error::NonBooleanConst(c)),
    }
}

fn int_of_size(n: u64, t: &Type) -> (r: Result<i64, Error>)
    ensures
        r == size_as_int(n, *t),
{
    if n > 0x7fff_ffff_ffff_ffff {
        Err(Error::SizeOverflow(t.clone()))
    } else {
        Ok(n as i64)
    }
}

impl ConstExpr {
    /// The integer that the constant evaluates to, found within `fuel`
    /// nested steps.
    pub fn as_int_within(&self, env: &Env, fuel: usize) -> (r: Result<i64, Error>)
        ensures
            r == const_int(*self, *env, fuel as nat),
        decreases fuel, 0nat, self, 0nat,
    {
        match self {
            ConstExpr::Int(n) => Ok(*n),
            ConstExpr::Symbol(name) => match env.consts.get(name) {
                None => Err(Error::SymbolNotDefined(name.clone())),
                Some(d) => if fuel == 0 {
                    Err(Error::RecursionLimit)
                } else {
                    d.as_int_within(env, fuel - 1)
                },
            },
            ConstExpr::SizeOfType(t) => match t.size_within(env, fuel) {
                Err(e) => Err(e),
                Ok(n) => int_of_size(n, t),
            },
            ConstExpr::SizeOfExpr(e) => match e.get_type_within(env, fuel) {
                Err(e) => Err(e),
                Ok(t) => if fuel == 0 {
                    Err(Error::RecursionLimit)
                } else {
                    match t.size_within(env, fuel - 1) {
                        Err(e) => Err(e),
                        Ok(n) => int_of_size(n, &t),
                    }
                },
            },
            _ => Err(Error::NonIntegralConst(self.clone())),
        }
    }

    /// The integer that the constant evaluates to.
    pub fn as_int(&self, env: &Env) -> (r: Result<i64, Error>)
        ensures
            r == const_int(*self, *env, RECURSION_LIMIT as nat),
    {
        self.as_int_within(env, RECURSION_LIMIT)
    }

    /// The boolean that the constant evaluates to, found within `fuel`
    /// nested steps.
    pub fn as_bool_within(&self, env: &Env, fuel: usize) -> (r: Result<bool, Error>)
        ensures
            r == const_bool(*self, *env, fuel as nat),
        decreases fuel,
    {
        match self {
            ConstExpr::Bool(b) => Ok(*b),
            ConstExpr::Symbol(name) => match env.consts.get(name) {
                None => Err(Error::SymbolNotDefined(name.clone())),
                Some(d) => if fuel == 0 {
                    Err(Error::RecursionLimit)
                } else {
                    d.as_bool_within(env, fuel - 1)
                },
            },
            _ => Err(Error::NonBooleanConst(self.clone())),
        }
    }

    /// The boolean that the constant evaluates to.
    pub fn as_bool(&self, env: &Env) -> (r: Result<bool, Error>)
        ensures
            r == const_bool(*self, *env, RECURSION_LIMIT as nat),
    {
        self.as_bool_within(env, RECURSION_LIMIT)
    }
}

} // verus!
