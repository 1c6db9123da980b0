//! Relations between types: equality, decay and castability, and the
//! typing rules of operators, which are stated through decay.
//!
//! Equality is structural after simplification; only `Unit` is nominal.
//! Decay is the implicit conversion: every type decays to itself, to every
//! type that equals it and to `Any`. Casting is the explicit conversion
//! and allows whatever decay allows.
use vstd::prelude::*;
use crate::env::Env;
use crate::error::Error;
use crate::eval::const_int;
use crate::simplify::{simplified, RECURSION_LIMIT};
use crate::syntax::{Fields, Name, Names, Signatures, Type, Types};

verus! {

impl Names {
    /// Is every name of the list in `other`?
    pub open spec fn within(self, other: Names) -> bool
        decreases self,
    {
        match self {
            Names::Nil => true,
            Names::Cons(n, rest) => other.contains(n) && rest.within(other),
        }
    }

    /// A list within another holds nothing that the other does not.
    pub proof fn lemma_within(self, other: Names, name: Name)
        requires
            self.within(other),
        ensures
            self.contains(name) ==> other.contains(name),
        decreases self,
    {
        match self {
            Names::Nil => {},
            Names::Cons(_, rest) => {
                rest.lemma_within(other, name);
            },
        }
    }

    /// Is every name of the list in `other`?
    pub fn is_within(&self, other: &Names) -> (r: bool)
        ensures
            r == self.within(*other),
        decreases self,
    {
        match self {
            Names::Nil => true,
            Names::Cons(n, rest) => other.has(n) && rest.is_within(other),
        }
    }
}

/// Are the two types equal in the environment?
///
/// A type equals itself. Otherwise both types are simplified
/// and their heads compared.
pub open spec fn equal_types(a: Type, b: Type, env: Env, fuel: nat) -> Result<bool, Error>
    decreases fuel, 0nat, a, 1nat,
{
    if a == b {
        Ok(true)
    } else if fuel == 0 {
        Err(Error::RecursionLimit)
    } else {
        match simplified(a, env, fuel) {
            Err(e) => Err(e),
            Ok(x) => match simplified(b, env, fuel) {
                Err(e) => Err(e),
                Ok(y) => equal_heads(x, y, env, (fuel - 1) as nat),
            },
        }
    }
}

/// Are the two head-simple types equal in the environment?
///
/// The heads must be built by the same constructor. Units agree when
/// their names and inner types do; enumerations when they have the same
/// variants; arrays when their elements and lengths agree; tuples,
/// procedures and pointers when their parts agree in order; structures and
/// unions when each has every field of the other, with an equal type;
/// schemes when they have the same parameters and their bodies agree with
/// the parameters opaque.
pub open spec fn equal_heads(x: Type, y: Type, env: Env, fuel: nat) -> Result<bool, Error>
    decreases fuel, 1nat, x, 0nat,
{
    match (x, y) {
        (Type::Any, Type::Any) => Ok(true),
        (Type::Never, Type::Never) => Ok(true),
        (Type::Void, Type::Void) => Ok(true),
        (Type::Cell, Type::Cell) => Ok(true),
        (Type::Int, Type::Int) => Ok(true),
        (Type::Float, Type::Float) => Ok(true),
        (Type::Bool, Type::Bool) => Ok(true),
        (Type::Char, Type::Char) => Ok(true),
        (Type::Enum(v), Type::Enum(w)) => Ok(v.within(w) && w.within(v)),
        (Type::Unit(n, t), Type::Unit(m, u)) => if n == m {
            equal_types(*t, *u, env, fuel)
        } else {
            Ok(false)
        },
        (Type::Array(t, n), Type::Array(u, m)) => match equal_types(*t, *u, env, fuel) {
            Err(e) => Err(e),
            Ok(false) => Ok(false),
            Ok(true) => match const_int(*n, env, fuel) {
                Err(e) => Err(e),
                Ok(i) => match const_int(*m, env, fuel) {
                    Err(e) => Err(e),
                    Ok(j) => Ok(i == j),
                },
            },
        },
        (Type::Tuple(ts), Type::Tuple(us)) => equal_lists(*ts, *us, env, fuel),
        (Type::Struct(fs), Type::Struct(gs)) => equal_fields(*fs, *gs, env, fuel),
        (Type::Union(fs), Type::Union(gs)) => equal_fields(*fs, *gs, env, fuel),
        (Type::Proc(ps, r), Type::Proc(qs, s)) => match equal_lists(*ps, *qs, env, fuel) {
            Err(e) => Err(e),
            Ok(false) => Ok(false),
            Ok(true) => equal_types(*r, *s, env, fuel),
        },
        (Type::Pointer(t), Type::Pointer(u)) => equal_types(*t, *u, env, fuel),
        (Type::Poly(ps, t), Type::Poly(qs, u)) => if ps == qs {
            equal_types(*t, *u, env.with_opaque(ps), fuel)
        } else {
            Ok(false)
        },
        _ => Ok(false),
    }
}

/// Are the two lists equally long, with equal types at each position?
pub open spec fn equal_lists(ts: Types, us: Types, env: Env, fuel: nat) -> Result<bool, Error>
    decreases fuel, 0nat, ts, 0nat,
{
    match (ts, us) {
        (Types::Nil, Types::Nil) => Ok(true),
        (Types::Cons(t, rest), Types::Cons(u, more)) => match equal_types(t, u, env, fuel) {
            Err(e) => Err(e),
            Ok(false) => Ok(false),
            Ok(true) => equal_lists(*rest, *more, env, fuel),
        },
        _ => Ok(false),
    }
}

/// Does each list have every field of the other, with an equal type?
pub open spec fn equal_fields(fs: Fields, gs: Fields, env: Env, fuel: nat) -> Result<bool, Error>
    decreases fuel, 1nat, fs, 0nat,
{
    match fields_within(fs, gs, env, fuel) {
        Err(e) => Err(e),
        Ok(false) => Ok(false),
        Ok(true) => fields_within(gs, fs, env, fuel),
    }
}

/// Does `gs` have every field of `fs`, with an equal type?
pub open spec fn fields_within(fs: Fields, gs: Fields, env: Env, fuel: nat) -> Result<bool, Error>
    decreases fuel, 0nat, fs, 0nat,
{
    match fs {
        Fields::Nil => Ok(true),
        Fields::Cons(n, t, rest) => match gs.lookup(n) {
            None => Ok(false),
            Some(u) => match equal_types(t, u, env, fuel) {
                Err(e) => Err(e),
                Ok(false) => Ok(false),
                Ok(true) => fields_within(*rest, gs, env, fuel),
            },
        },
    }
}

/// Can a value of type `a` be used where `b` is expected?
///
/// Every type decays to `Any` and to every type that equals it. Beyond
/// that, the simplified heads decide.
pub open spec fn decays(a: Type, b: Type, env: Env, fuel: nat) -> Result<bool, Error>
    decreases fuel, 2nat, b, 1nat,
{
    if b is Any {
        Ok(true)
    } else {
        match equal_types(a, b, env, fuel) {
            Err(e) => Err(e),
            Ok(true) => Ok(true),
            Ok(false) => if fuel == 0 {
                Err(Error::RecursionLimit)
            } else {
                match simplified(a, env, fuel) {
                    Err(e) => Err(e),
                    Ok(x) => match simplified(b, env, fuel) {
                        Err(e) => Err(e),
                        Ok(y) => decay_heads(x, y, env, (fuel - 1) as nat),
                    },
                }
            },
        }
    }
}

/// Decay between two head-simple types that are not equal: `Never` decays
/// to everything, everything decays to `Any`, and a pointer decays to a
/// pointer whose target its own target decays to.
pub open spec fn decay_heads(x: Type, y: Type, env: Env, fuel: nat) -> Result<bool, Error>
    decreases fuel, 2nat, y, 0nat,
{
    match (x, y) {
        (Type::Never, _) => Ok(true),
        (_, Type::Any) => Ok(true),
        (Type::Pointer(t), Type::Pointer(u)) => decays(*t, *u, env, fuel),
        _ => Ok(false),
    }
}

impl Type {
    /// Is the type held in one cell as a plain value: a number, a
    /// character, a boolean, a raw cell or a variant of an enumeration?
    pub open spec fn is_scalar(self) -> bool {
        self is Cell || self is Int || self is Float || self is Bool || self is Char
            || self is Enum
    }

    /// Is the type held in one cell as a plain value?
    pub fn scalar(&self) -> (r: bool)
        ensures
            r == self.is_scalar(),
    {
        match self {
            Type::Cell | Type::Int | Type::Float | Type::Bool | Type::Char | Type::Enum(_) => true,
            _ => false,
        }
    }
}

/// Casts between two head-simple types beyond decay: a raw cell casts to
/// and from every scalar and every pointer, an integer to and from every
/// scalar, and every pointer to every pointer.
pub open spec fn cast_heads(x: Type, y: Type) -> bool {
    ||| x is Cell && (y.is_scalar() || y is Pointer)
    ||| y is Cell && (x.is_scalar() || x is Pointer)
    ||| x is Int && y.is_scalar()
    ||| y is Int && x.is_scalar()
    ||| x is Pointer && y is Pointer
}

/// Can a value of type `a` be cast to `b`?
pub open spec fn casts(a: Type, b: Type, env: Env, fuel: nat) -> Result<bool, Error> {
    match decays(a, b, env, fuel) {
        Err(e) => Err(e),
        Ok(true) => Ok(true),
        Ok(false) => match simplified(a, env, fuel) {
            Err(e) => Err(e),
            Ok(x) => match simplified(b, env, fuel) {
                Err(e) => Err(e),
                Ok(y) => Ok(cast_heads(x, y)),
            },
        },
    }
}

/// Does a rule with these parameters accept operands of these types: are
/// there as many, and does each operand decay to its parameter?
pub open spec fn accepts(params: Types, operands: Types, env: Env, fuel: nat) -> Result<
    bool,
    Error,
>
    decreases fuel, 3nat, params, 0nat,
{
    match (params, operands) {
        (Types::Nil, Types::Nil) => Ok(true),
        (Types::Cons(p, ps), Types::Cons(a, rest)) => match decays(a, p, env, fuel) {
            Err(e) => Err(e),
            Ok(false) => Ok(false),
            Ok(true) => accepts(*ps, *rest, env, fuel),
        },
        _ => Ok(false),
    }
}

/// The type of an operator applied to operands of the given types: the
/// result of its first rule that accepts them. `name` is the operator's
/// name, for the error when no rule does.
pub open spec fn operator_result(
    rules: Signatures,
    operands: Types,
    name: Name,
    env: Env,
    fuel: nat,
) -> Result<Type, Error>
    decreases fuel, 0nat, rules, 0nat,
{
    match rules {
        Signatures::Nil => Err(Error::InvalidOperands(name, operands)),
        Signatures::Cons(params, ret, rest) => if fuel == 0 {
            Err(Error::RecursionLimit)
        } else {
            match accepts(params, operands, env, (fuel - 1) as nat) {
                Err(e) => Err(e),
                Ok(true) => Ok(ret),
                Ok(false) => operator_result(*rest, operands, name, env, fuel),
            }
        },
    }
}

impl Types {
    /// Are the two lists equally long, with equal types at each position,
    /// as far as `fuel` nested steps show?
    pub fn equals_within(&self, other: &Types, env: &Env, fuel: usize) -> (r: Result<bool, Error>)
        ensures
            r == equal_lists(*self, *other, *env, fuel as nat),
        decreases fuel, 0nat, self, 0nat,
    {
        match (self, other) {
            (Types::Nil, Types::Nil) => Ok(true),
            (Types::Cons(t, rest), Types::Cons(u, more)) => match t.equals_within(u, env, fuel) {
                Err(e) => Err(e),
                Ok(false) => Ok(false),
                Ok(true) => rest.equals_within(more, env, fuel),
            },
            _ => Ok(false),
        }
    }
}

fn same_fields_within(fs: &Fields, gs: &Fields, env: &Env, fuel: usize) -> (r: Result<
    bool,
    Error,
>)
    ensures
        r == equal_fields(*fs, *gs, *env, fuel as nat),
    decreases fuel, 1nat, fs, 0nat,
{
    match has_fields_within(fs, gs, env, fuel) {
        Err(e) => Err(e),
        Ok(false) => Ok(false),
        Ok(true) => has_fields_within(gs, fs, env, fuel),
    }
}

fn has_fields_within(fs: &Fields, gs: &Fields, env: &Env, fuel: usize) -> (r: Result<
    bool,
    Error,
>)
    ensures
        r == fields_within(*fs, *gs, *env, fuel as nat),
    decreases fuel, 0nat, fs, 0nat,
{
    match fs {
        Fields::Nil => Ok(true),
        Fields::Cons(n, t, rest) => match gs.get(n) {
            None => Ok(false),
            Some(u) => match t.equals_within(u, env, fuel) {
                Err(e) => Err(e),
                Ok(false) => Ok(false),
                Ok(true) => has_fields_within(rest, gs, env, fuel),
            },
        },
    }
}

fn accepts_within(params: &Types, operands: &Types, env: &Env, fuel: usize) -> (r: Result<
    bool,
    Error,
>)
    ensures
        r == accepts(*params, *operands, *env, fuel as nat),
    decreases fuel, 3nat, params, 0nat,
{
    match (params, operands) {
        (Types::Nil, Types::Nil) => Ok(true),
        (Types::Cons(p, ps), Types::Cons(a, rest)) => match a.decays_within(p, env, fuel) {
            Err(e) => Err(e),
            Ok(false) => Ok(false),
            Ok(true) => accepts_within(ps, rest, env, fuel),
        },
        _ => Ok(false),
    }
}

impl Signatures {
    /// The result type of the first rule that accepts the operands.
    pub fn result_within(&self, operands: &Types, name: &Name, env: &Env, fuel: usize) -> (r:
        Result<Type, Error>)
        ensures
            r == operator_result(*self, *operands, *name, *env, fuel as nat),
        decreases fuel, 0nat, self, 0nat,
    {
        match self {
            Signatures::Nil => Err(Error::InvalidOperands(name.clone(), operands.clone())),
            Signatures::Cons(params, ret, rest) => if fuel == 0 {
                Err(Error::RecursionLimit)
            } else {
                match accepts_within(params, operands, env, fuel - 1) {
                    Err(e) => Err(e),
                    Ok(true) => Ok(ret.clone()),
                    Ok(false) => rest.result_within(operands, name, env, fuel),
                }
            },
        }
    }
}

impl Type {
    /// Are the two types equal in the environment, as far as `fuel`
    /// nested steps show?
    pub fn equals_within(&self, other: &Type, env: &Env, fuel: usize) -> (r: Result<bool, Error>)
        ensures
            r == equal_types(*self, *other, *env, fuel as nat),
        decreases fuel, 0nat, self, 1nat,
    {
        if self.is_same(other) {
            Ok(true)
        } else if fuel == 0 {
            Err(Error::RecursionLimit)
        } else {
            match self.simplify_within(env, fuel) {
                Err(e) => Err(e),
                Ok(x) => match other.simplify_within(env, fuel) {
                    Err(e) => Err(e),
                    Ok(y) => x.head_equals_within(&y, env, fuel - 1),
                },
            }
        }
    }

    fn head_equals_within(&self, other: &Type, env: &Env, fuel: usize) -> (r: Result<bool, Error>)
        ensures
            r == equal_heads(*self, *other, *env, fuel as nat),
        decreases fuel, 1nat, self, 0nat,
    {
        match (self, other) {
            (Type::Any, Type::Any) => Ok(true),
            (Type::Never, Type::Never) => Ok(true),
            (Type::Void, Type::Void) => Ok(true),
            (Type::Cell, Type::Cell) => Ok(true),
            (Type::Int, Type::Int) => Ok(true),
            (Type::Float, Type::Float) => Ok(true),
            (Type::Bool, Type::Bool) => Ok(true),
            (Type::Char, Type::Char) => Ok(true),
            (Type::Enum(v), Type::Enum(w)) => Ok(v.is_within(w) && w.is_within(v)),
            (Type::Unit(n, t), Type::Unit(m, u)) => if n.is_same(m) {
                t.equals_within(u, env, fuel)
            } else {
                Ok(false)
            },
            (Type::Array(t, n), Type::Array(u, m)) => match t.equals_within(u, env, fuel) {
                Err(e) => Err(e),
                Ok(false) => Ok(false),
                Ok(true) => match n.as_int_within(env, fuel) {
                    Err(e) => Err(e),
                    Ok(i) => match m.as_int_within(env, fuel) {
                        Err(e) => Err(e),
                        Ok(j) => Ok(i == j),
                    },
                },
            },
            (Type::Tuple(ts), Type::Tuple(us)) => ts.equals_within(us, env, fuel),
            (Type::Struct(fs), Type::Struct(gs)) => same_fields_within(fs, gs, env, fuel),
            (Type::Union(fs), Type::Union(gs)) => same_fields_within(fs, gs, env, fuel),
            (Type::Proc(ps, r), Type::Proc(qs, s)) => match ps.equals_within(qs, env, fuel) {
                Err(e) => Err(e),
                Ok(false) => Ok(false),
                Ok(true) => r.equals_within(s, env, fuel),
            },
            (Type::Pointer(t), Type::Pointer(u)) => t.equals_within(u, env, fuel),
            (Type::Poly(ps, t), Type::Poly(qs, u)) => if ps.is_same(qs) {
                let mut inner = env.clone();
                inner.define_opaque(ps);
                t.equals_within(u, &inner, fuel)
            } else {
                Ok(false)
            },
            _ => Ok(false),
        }
    }

    /// Are the two types equal in the environment?
    ///
    /// Equality is structural after simplification: only `Unit` is
    /// nominal, and the order of the fields of a structure or a union and
    /// of the variants of an enumeration does not matter.
    pub fn equals(&self, other: &Type, env: &Env) -> (r: Result<bool, Error>)
        ensures
            r == equal_types(*self, *other, *env, RECURSION_LIMIT as nat),
            *self == *other ==> r == Ok::<bool, Error>(true),
    {
        self.equals_within(other, env, RECURSION_LIMIT)
    }

    /// Can a value of this type be used where `target` is expected, as
    /// far as `fuel` nested steps show?
    pub fn decays_within(&self, target: &Type, env: &Env, fuel: usize) -> (r: Result<bool, Error>)
        ensures
            r == decays(*self, *target, *env, fuel as nat),
        decreases fuel, 2nat, target, 1nat,
    {
        if let Type::Any = target {
            Ok(true)
        } else {
            match self.equals_within(target, env, fuel) {
                Err(e) => Err(e),
                Ok(true) => Ok(true),
                Ok(false) => if fuel == 0 {
                    Err(Error::RecursionLimit)
                } else {
                    match self.simplify_within(env, fuel) {
                        Err(e) => Err(e),
                        Ok(x) => match target.simplify_within(env, fuel) {
                            Err(e) => Err(e),
                            Ok(y) => x.head_decays_within(&y, env, fuel - 1),
                        },
                    }
                },
            }
        }
    }

    fn head_decays_within(&self, target: &Type, env: &Env, fuel: usize) -> (r: Result<bool, Error>)
        ensures
            r == decay_heads(*self, *target, *env, fuel as nat),
        decreases fuel, 2nat, target, 0nat,
    {
        match (self, target) {
            (Type::Never, _) => Ok(true),
            (_, Type::Any) => Ok(true),
            (Type::Pointer(t), Type::Pointer(u)) => t.decays_within(u, env, fuel),
            _ => Ok(false),
        }
    }

    /// Can a value of this type be used where `target` is expected,
    /// without a cast?
    ///
    /// Decay is not symmetric: every type decays to `Any`, and `Any`
    /// decays to nothing but itself.
    pub fn can_decay_to(&self, target: &Type, env: &Env) -> (r: Result<bool, Error>)
        ensures
            r == decays(*self, *target, *env, RECURSION_LIMIT as nat),
            (*target is Any || *self == *target) ==> r == Ok::<bool, Error>(true),
    {
        self.decays_within(target, env, RECURSION_LIMIT)
    }

    /// Can a value of this type be cast to `target`, as far as `fuel`
    /// nested steps show?
    pub fn casts_within(&self, target: &Type, env: &Env, fuel: usize) -> (r: Result<bool, Error>)
        ensures
            r == casts(*self, *target, *env, fuel as nat),
    {
        match self.decays_within(target, env, fuel) {
            Err(e) => Err(e),
            Ok(true) => Ok(true),
            Ok(false) => match self.simplify_within(env, fuel) {
                Err(e) => Err(e),
                Ok(x) => match target.simplify_within(env, fuel) {
                    Err(e) => Err(e),
                    Ok(y) => {
                        let x_plain = x.scalar();
                        let y_plain = y.scalar();
                        let x_pointer = matches!(x, Type::Pointer(_));
                        let y_pointer = matches!(y, Type::Pointer(_));
                        Ok(
                            (matches!(x, Type::Cell) && (y_plain || y_pointer)) || (matches!(
                                y,
                                Type::Cell
                            ) && (x_plain || x_pointer)) || (matches!(x, Type::Int) && y_plain)
                                || (matches!(y, Type::Int) && x_plain) || (x_pointer && y_pointer),
                        )
                    },
                },
            },
        }
    }

    /// Can a value of this type be cast to `target`?
    ///
    /// Whatever decays can be cast.
    pub fn can_cast_to(&self, target: &Type, env: &Env) -> (r: Result<bool, Error>)
        ensures
            r == casts(*self, *target, *env, RECURSION_LIMIT as nat),
            decays(*self, *target, *env, RECURSION_LIMIT as nat) == Ok::<bool, Error>(true) ==> r
                == Ok::<bool, Error>(true),
    {
        self.casts_within(target, env, RECURSION_LIMIT)
    }
}

} // verus!
