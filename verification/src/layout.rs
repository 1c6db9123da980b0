//! The layout of types: sizes in cells, and the offsets of members.
//!
//! Sizes are counted in 64-bit machine words; a size that does not fit is
//! an error, never a wrapped number.
use vstd::prelude::*;
use crate::env::Env;
use crate::error::Error;
use crate::eval::const_int;
use crate::simplify::{simplified, RECURSION_LIMIT};
use crate::syntax::{ConstExpr, Expr, Fields, Name, Type, Types};

verus! {

/// The sum of two sizes, or the overflow error for `whole`.
pub open spec fn size_sum(a: u64, b: u64, whole: Type) -> Result<u64, Error> {
    if a + b > u64::MAX {
        Err(Error::SizeOverflow(whole))
    } else {
        Ok((a + b) as u64)
    }
}

/// The product of two sizes, or the overflow error for `whole`.
pub open spec fn size_product(a: u64, b: u64, whole: Type) -> Result<u64, Error> {
    if a * b > u64::MAX {
        Err(Error::SizeOverflow(whole))
    } else {
        Ok((a * b) as u64)
    }
}

/// The size of a type in cells.
pub open spec fn size_of(t: Type, env: Env, fuel: nat) -> Result<u64, Error>
    decreases fuel, 0nat, t, 1nat,
{
    if fuel == 0 {
        Err(Error::RecursionLimit)
    } else {
        match simplified(t, env, fuel) {
            Err(e) => Err(e),
            Ok(head) => size_of_head(head, env, (fuel - 1) as nat),
        }
    }
}

/// The size of a head-simple type in cells.
///
/// Scalars, pointers and procedures take one cell; `Void` and `Never` take
/// none; a tuple or a structure is as large as its parts together, a union
/// as large as its largest field, an array as large as its element times
/// its length. Of two fields of one name only the first counts. `Any` and
/// type schemes have no size.
pub open spec fn size_of_head(head: Type, env: Env, fuel: nat) -> Result<u64, Error>
    decreases fuel, 1nat, head, 0nat,
{
    match head {
        Type::Void | Type::Never => Ok(0),
        Type::Cell | Type::Int | Type::Float | Type::Bool | Type::Char => Ok(1),
        Type::Enum(_) | Type::Pointer(_) | Type::Proc(_, _) => Ok(1),
        Type::Unit(_, inner) => size_of(*inner, env, fuel),
        Type::Tuple(items) => size_of_all(*items, head, env, fuel),
        Type::Struct(fields) => size_of_fields(fields.canonical(), head, env, fuel),
        Type::Union(fields) => size_of_largest(fields.canonical(), env, fuel),
        Type::Array(elem, len) => match size_of(*elem, env, fuel) {
            Err(e) => Err(e),
            Ok(n) => match const_int(*len, env, fuel) {
                Err(e) => Err(e),
                Ok(k) => if k < 0 {
                    Err(Error::NegativeArrayLength(Expr::ConstExpr(*len)))
                } else {
                    size_product(n, k as u64, head)
                },
            },
        },
        _ => Err(Error::UnsizedType(head)),
    }
}

/// The sizes of the types of a list, added up.
pub open spec fn size_of_all(items: Types, whole: Type, env: Env, fuel: nat) -> Result<
    u64,
    Error,
>
    decreases fuel, 0nat, items, 0nat,
{
    match items {
        Types::Nil => Ok(0),
        Types::Cons(t, rest) => match size_of(t, env, fuel) {
            Err(e) => Err(e),
            Ok(a) => match size_of_all(*rest, whole, env, fuel) {
                Err(e) => Err(e),
                Ok(b) => size_sum(a, b, whole),
            },
        },
    }
}

/// The sizes of the fields of a list, added up.
pub open spec fn size_of_fields(fields: Fields, whole: Type, env: Env, fuel: nat) -> Result<
    u64,
    Error,
>
    decreases fuel, 0nat, fields, 0nat,
{
    match fields {
        Fields::Nil => Ok(0),
        Fields::Cons(_, t, rest) => match size_of(t, env, fuel) {
            Err(e) => Err(e),
            Ok(a) => match size_of_fields(*rest, whole, env, fuel) {
                Err(e) => Err(e),
                Ok(b) => size_sum(a, b, whole),
            },
        },
    }
}

/// The size of the largest field of a list.
pub open spec fn size_of_largest(fields: Fields, env: Env, fuel: nat) -> Result<u64, Error>
    decreases fuel, 0nat, fields, 0nat,
{
    match fields {
        Fields::Nil => Ok(0),
        Fields::Cons(_, t, rest) => match size_of(t, env, fuel) {
            Err(e) => Err(e),
            Ok(a) => match size_of_largest(*rest, env, fuel) {
                Err(e) => Err(e),
                Ok(b) => if a >= b {
                    Ok(a)
                } else {
                    Ok(b)
                },
            },
        },
    }
}

/// The type and offset of the field `name`, if the list has it: the
/// fields before it in the list lie in front of it.
pub open spec fn field_place(fields: Fields, name: Name, whole: Type, env: Env, fuel: nat)
    -> Result<Option<(Type, u64)>, Error>
    decreases fuel, 0nat, fields, 0nat,
{
    match fields {
        Fields::Nil => Ok(None),
        Fields::Cons(n, t, rest) => if n == name {
            Ok(Some((t, 0)))
        } else {
            match size_of(t, env, fuel) {
                Err(e) => Err(e),
                Ok(a) => match field_place(*rest, name, whole, env, fuel) {
                    Err(e) => Err(e),
                    Ok(None) => Ok(None),
                    Ok(Some((u, b))) => match size_sum(a, b, whole) {
                        Err(e) => Err(e),
                        Ok(offset) => Ok(Some((u, offset))),
                    },
                },
            }
        },
    }
}

/// The type and offset of the item at `index`, if the list has it.
pub open spec fn item_place(items: Types, index: int, whole: Type, env: Env, fuel: nat) -> Result<
    Option<(Type, u64)>,
    Error,
>
    decreases fuel, 0nat, items, 0nat,
{
    match items {
        Types::Nil => Ok(None),
        Types::Cons(t, rest) => if index == 0 {
            Ok(Some((t, 0)))
        } else {
            match size_of(t, env, fuel) {
                Err(e) => Err(e),
                Ok(a) => match item_place(*rest, index - 1, whole, env, fuel) {
                    Err(e) => Err(e),
                    Ok(None) => Ok(None),
                    Ok(Some((u, b))) => match size_sum(a, b, whole) {
                        Err(e) => Err(e),
                        Ok(offset) => Ok(Some((u, offset))),
                    },
                },
            }
        },
    }
}

/// The type and the offset of a member of a type.
pub open spec fn member_of(t: Type, member: ConstExpr, context: Expr, env: Env, fuel: nat)
    -> Result<(Type, u64), Error>
    decreases fuel, 0nat, t, 1nat,
{
    if fuel == 0 {
        Err(Error::RecursionLimit)
    } else {
        match simplified(t, env, fuel) {
            Err(e) => Err(e),
            Ok(head) => member_of_head(head, member, context, env, (fuel - 1) as nat),
        }
    }
}

/// The type and the offset of a member of a head-simple type.
///
/// A structure has its fields, found by name and laid out in the order of
/// their names, whatever the order they are written in; a union has its
/// fields, all at offset zero; a tuple has its items, found by a literal
/// index; a pointer has the members of what it points to. Nothing else has
/// members.
pub open spec fn member_of_head(head: Type, member: ConstExpr, context: Expr, env: Env, fuel: nat)
    -> Result<(Type, u64), Error>
    decreases fuel, 1nat, head, 0nat,
{
    match head {
        Type::Pointer(inner) => member_of(*inner, member, context, env, fuel),
        Type::Struct(fields) => match member {
            ConstExpr::Symbol(name) => match field_place(
                fields.canonical(),
                name,
                head,
                env,
                fuel,
            ) {
                Err(e) => Err(e),
                Ok(None) => Err(Error::MemberNotFound(context, member)),
                Ok(Some(place)) => Ok(place),
            },
            _ => Err(Error::MemberNotFound(context, member)),
        },
        Type::Union(fields) => match member {
            ConstExpr::Symbol(name) => match fields.lookup(name) {
                None => Err(Error::MemberNotFound(context, member)),
                Some(t) => Ok((t, 0)),
            },
            _ => Err(Error::MemberNotFound(context, member)),
        },
        Type::Tuple(items) => match member {
            ConstExpr::Int(index) => if index < 0 {
                Err(Error::MemberNotFound(context, member))
            } else {
                match item_place(*items, index as int, head, env, fuel) {
                    Err(e) => Err(e),
                    Ok(None) => Err(Error::MemberNotFound(context, member)),
                    Ok(Some(place)) => Ok(place),
                }
            },
            _ => Err(Error::MemberNotFound(context, member)),
        },
        _ => Err(Error::MemberNotFound(context, member)),
    }
}

fn add_sizes(a: u64, b: u64, whole: &Type) -> (r: Result<u64, Error>)
    ensures
        r == size_sum(a, b, *whole),
{
    if a > u64::MAX - b {
        Err(Error::SizeOverflow(whole.clone()))
    } else {
        Ok(a + b)
    }
}

fn multiply_sizes(a: u64, b: u64, whole: &Type) -> (r: Result<u64, Error>)
    ensures
        r == size_product(a, b, *whole),
{
    if a == 0 || b == 0 {
        assert(a * b == 0) by (nonlinear_arith)
            requires
                a == 0 || b == 0,
        ;
        Ok(0)
    } else if a > u64::MAX / b {
        assert(a * b > u64::MAX) by (nonlinear_arith)
            requires
                b > 0,
                a > u64::MAX / b,
        ;
        Err(Error::SizeOverflow(whole.clone()))
    } else {
        assert(a * b <= u64::MAX) by (nonlinear_arith)
            requires
                b > 0,
                a <= u64::MAX / b,
        ;
        Ok(a * b)
    }
}

fn size_all(items: &Types, whole: &Type, env: &Env, fuel: usize) -> (r: Result<u64, Error>)
    ensures
        r == size_of_all(*items, *whole, *env, fuel as nat),
    decreases fuel, 0nat, items, 0nat,
{
    match items {
        Types::Nil => Ok(0),
        Types::Cons(t, rest) => match t.size_within(env, fuel) {
            Err(e) => Err(e),
            Ok(a) => match size_all(rest, whole, env, fuel) {
                Err(e) => Err(e),
                Ok(b) => add_sizes(a, b, whole),
            },
        },
    }
}

fn size_fields(fields: &Fields, whole: &Type, env: &Env, fuel: usize) -> (r: Result<u64, Error>)
    ensures
        r == size_of_fields(*fields, *whole, *env, fuel as nat),
    decreases fuel, 0nat, fields, 0nat,
{
    match fields {
        Fields::Nil => Ok(0),
        Fields::Cons(_, t, rest) => match t.size_within(env, fuel) {
            Err(e) => Err(e),
            Ok(a) => match size_fields(rest, whole, env, fuel) {
                Err(e) => Err(e),
                Ok(b) => add_sizes(a, b, whole),
            },
        },
    }
}

fn size_largest(fields: &Fields, env: &Env, fuel: usize) -> (r: Result<u64, Error>)
    ensures
        r == size_of_largest(*fields, *env, fuel as nat),
    decreases fuel, 0nat, fields, 0nat,
{
    match fields {
        Fields::Nil => Ok(0),
        Fields::Cons(_, t, rest) => match t.size_within(env, fuel) {
            Err(e) => Err(e),
            Ok(a) => match size_largest(rest, env, fuel) {
                Err(e) => Err(e),
                Ok(b) => if a >= b {
                    Ok(a)
                } else {
                    Ok(b)
                },
            },
        },
    }
}

fn place_field(fields: &Fields, name: &Name, whole: &Type, env: &Env, fuel: usize) -> (r: Result<
    Option<(Type, u64)>,
    Error,
>)
    ensures
        r == field_place(*fields, *name, *whole, *env, fuel as nat),
    decreases fuel, 0nat, fields, 0nat,
{
    match fields {
        Fields::Nil => Ok(None),
        Fields::Cons(n, t, rest) => if n.is_same(name) {
            Ok(Some((t.clone(), 0)))
        } else {
            match t.size_within(env, fuel) {
                Err(e) => Err(e),
                Ok(a) => match place_field(rest, name, whole, env, fuel) {
                    Err(e) => Err(e),
                    Ok(None) => Ok(None),
                    Ok(Some((u, b))) => match add_sizes(a, b, whole) {
                        Err(e) => Err(e),
                        Ok(offset) => Ok(Some((u, offset))),
                    },
                },
            }
        },
    }
}

fn place_item(items: &Types, index: i64, whole: &Type, env: &Env, fuel: usize) -> (r: Result<
    Option<(Type, u64)>,
    Error,
>)
    requires
        index >= 0,
    ensures
        r == item_place(*items, index as int, *whole, *env, fuel as nat),
    decreases fuel, 0nat, items, 0nat,
{
    match items {
        Types::Nil => Ok(None),
        Types::Cons(t, rest) => if index == 0 {
            Ok(Some((t.clone(), 0)))
        } else {
            match t.size_within(env, fuel) {
                Err(e) => Err(e),
                Ok(a) => match place_item(rest, index - 1, whole, env, fuel) {
                    Err(e) => Err(e),
                    Ok(None) => Ok(None),
                    Ok(Some((u, b))) => match add_sizes(a, b, whole) {
                        Err(e) => Err(e),
                        Ok(offset) => Ok(Some((u, offset))),
                    },
                },
            }
        },
    }
}

impl Type {
    /// The size of the type in cells, found within `fuel` nested steps.
    pub fn size_within(&self, env: &Env, fuel: usize) -> (r: Result<u64, Error>)
        ensures
            r == size_of(*self, *env, fuel as nat),
        decreases fuel, 0nat, self, 1nat,
    {
        if fuel == 0 {
            Err(Error::RecursionLimit)
        } else {
            match self.simplify_within(env, fuel) {
                Err(e) => Err(e),
                Ok(head) => head.head_size_within(env, fuel - 1),
            }
        }
    }

    fn head_size_within(&self, env: &Env, fuel: usize) -> (r: Result<u64, Error>)
        ensures
            r == size_of_head(*self, *env, fuel as nat),
        decreases fuel, 1nat, self, 0nat,
    {
        match self {
            Type::Void | Type::Never => Ok(0),
            Type::Cell | Type::Int | Type::Float | Type::Bool | Type::Char => Ok(1),
            Type::Enum(_) | Type::Pointer(_) | Type::Proc(_, _) => Ok(1),
            Type::Unit(_, inner) => inner.size_within(env, fuel),
            Type::Tuple(items) => size_all(items, self, env, fuel),
            Type::Struct(fields) => size_fields(&fields.to_canonical(), self, env, fuel),
            Type::Union(fields) => size_largest(&fields.to_canonical(), env, fuel),
            Type::Array(elem, len) => match elem.size_within(env, fuel) {
                Err(e) => Err(e),
                Ok(n) => match len.as_int_within(env, fuel) {
                    Err(e) => Err(e),
                    Ok(k) => if k < 0 {
                        Err(Error::NegativeArrayLength(Expr::ConstExpr((&**len).clone())))
                    } else {
                        multiply_sizes(n, k as u64, self)
                    },
                },
            },
            _ => Err(Error::UnsizedType(self.clone())),
        }
    }

    /// The size of the type in cells.
    pub fn get_size(&self, env: &Env) -> (r: Result<u64, Error>)
        ensures
            r == size_of(*self, *env, RECURSION_LIMIT as nat),
    {
        self.size_within(env, RECURSION_LIMIT)
    }

    /// The type and the offset of a member, found within `fuel` nested
    /// steps.
    pub fn member_within(&self, member: &ConstExpr, context: &Expr, env: &Env, fuel: usize) -> (r:
        Result<(Type, u64), Error>)
        ensures
            r == member_of(*self, *member, *context, *env, fuel as nat),
        decreases fuel, 0nat, self, 1nat,
    {
        if fuel == 0 {
            Err(Error::RecursionLimit)
        } else {
            match self.simplify_within(env, fuel) {
                Err(e) => Err(e),
                Ok(head) => head.head_member_within(member, context, env, fuel - 1),
            }
        }
    }

    fn head_member_within(&self, member: &ConstExpr, context: &Expr, env: &Env, fuel: usize) -> (r:
        Result<(Type, u64), Error>)
        ensures
            r == member_of_head(*self, *member, *context, *env, fuel as nat),
        decreases fuel, 1nat, self, 0nat,
    {
        match self {
            Type::Pointer(inner) => inner.member_within(member, context, env, fuel),
            Type::Struct(fields) => match member {
                ConstExpr::Symbol(name) => match place_field(
                    &fields.to_canonical(),
                    name,
                    self,
                    env,
                    fuel,
                ) {
                    Err(e) => Err(e),
                    Ok(None) => Err(Error::MemberNotFound(context.clone(), member.clone())),
                    Ok(Some(place)) => Ok(place),
                },
                _ => Err(Error::MemberNotFound(context.clone(), member.clone())),
            },
            Type::Union(fields) => match member {
                ConstExpr::Symbol(name) => match fields.get(name) {
                    None => Err(Error::MemberNotFound(context.clone(), member.clone())),
                    Some(t) => Ok((t.clone(), 0)),
                },
                _ => Err(Error::MemberNotFound(context.clone(), member.clone())),
            },
            Type::Tuple(items) => match member {
                ConstExpr::Int(index) => if *index < 0 {
                    Err(Error::MemberNotFound(context.clone(), member.clone()))
                } else {
                    match place_item(items, *index, self, env, fuel) {
                        Err(e) => Err(e),
                        Ok(None) => Err(Error::MemberNotFound(context.clone(), member.clone())),
                        Ok(Some(place)) => Ok(place),
                    }
                },
                _ => Err(Error::MemberNotFound(context.clone(), member.clone())),
            },
            _ => Err(Error::MemberNotFound(context.clone(), member.clone())),
        }
    }

    /// The type of a member of this type and its offset in cells.
    ///
    /// `member` is a field name for a structure or a union and a literal
    /// index for a tuple; through a pointer the members of the pointee are
    /// reached. `context` is the expression whose member is taken: it is
    /// what `Error::MemberNotFound` reports.
    pub fn get_member_offset(&self, member: &ConstExpr, context: &Expr, env: &Env) -> (r: Result<
        (Type, u64),
        Error,
    >)
        ensures
            r == member_of(*self, *member, *context, *env, RECURSION_LIMIT as nat),
    {
        self.member_within(member, context, env, RECURSION_LIMIT)
    }
}

} // verus!
