//! Concrete types and the reduction of a type to its concrete form.
//!
//! A type is concrete when it holds no `Symbol`, `Let`, `Apply` or `Poly`
//! node, every array length in it is an integer literal, and the fields of
//! every structure and union and the variants of every enumeration stand
//! in canonical order, each name once and each before the next. A concrete
//! type means the same in every environment, and equal types have the same
//! concrete form. A recursive type has no concrete form; the reduction of
//! one ends in `Error::RecursionLimit`.
use vstd::prelude::*;
use crate::env::Env;
use crate::error::Error;
use crate::eval::const_int;
use crate::relate::{equal_fields, equal_heads, equal_lists, equal_types, fields_within};
use crate::simplify::{simplified, RECURSION_LIMIT};
use crate::syntax::{ConstExpr, Fields, Name, Type, Types};

verus! {

impl Type {
    /// Is the type free of names, bindings, schemes and applications, with
    /// literal array lengths?
    pub open spec fn is_concrete(self) -> bool
        decreases self,
    {
        match self {
            Type::Symbol(_) | Type::Let(_, _, _) | Type::Apply(_, _) | Type::Poly(_, _) => false,
            Type::Unit(_, inner) => inner.is_concrete(),
            Type::Array(elem, len) => elem.is_concrete() && *len is Int,
            Type::Enum(variants) => variants.sorted(),
            Type::Tuple(items) => items.all_concrete(),
            Type::Struct(fields) => fields.all_concrete() && fields.sorted(),
            Type::Union(fields) => fields.all_concrete() && fields.sorted(),
            Type::Proc(args, ret) => args.all_concrete() && ret.is_concrete(),
            Type::Pointer(inner) => inner.is_concrete(),
            _ => true,
        }
    }
}

impl Types {
    /// Is every type of the list concrete?
    pub open spec fn all_concrete(self) -> bool
        decreases self,
    {
        match self {
            Types::Nil => true,
            Types::Cons(t, rest) => t.is_concrete() && rest.all_concrete(),
        }
    }
}

impl Fields {
    /// Does the name of each field stand before the name of the next? Then
    /// no name occurs twice.
    pub open spec fn sorted(self) -> bool
        decreases self,
    {
        match self {
            Fields::Nil => true,
            Fields::Cons(n, _, rest) => rest.sorted() && (*rest matches Fields::Cons(m, _, _)
                ==> n.before(m)),
        }
    }

    /// The sorted list with the field in its place; a field of the same
    /// name gives way to it.
    pub open spec fn placed(self, name: Name, ty: Type) -> Fields
        decreases self,
    {
        match self {
            Fields::Nil => Fields::Cons(name, ty, Box::new(Fields::Nil)),
            Fields::Cons(n, t, rest) => if name == n {
                Fields::Cons(name, ty, rest)
            } else if name.before(n) {
                Fields::Cons(name, ty, Box::new(self))
            } else {
                Fields::Cons(n, t, Box::new(rest.placed(name, ty)))
            },
        }
    }

    /// The fields of the list in canonical order: each name once, with the
    /// type of its first occurrence, and each name before the next.
    pub open spec fn canonical(self) -> Fields
        decreases self,
    {
        match self {
            Fields::Nil => Fields::Nil,
            Fields::Cons(n, t, rest) => rest.canonical().placed(n, t),
        }
    }

    /// Puts the field in its place in a sorted list.
    pub fn place(self, name: Name, ty: Type) -> (r: Fields)
        ensures
            r == self.placed(name, ty),
        decreases self,
    {
        match self {
            Fields::Nil => Fields::Cons(name, ty, Box::new(Fields::Nil)),
            Fields::Cons(n, t, rest) => if name.is_same(&n) {
                Fields::Cons(name, ty, rest)
            } else if name.is_before(&n) {
                Fields::Cons(name, ty, Box::new(Fields::Cons(n, t, rest)))
            } else {
                Fields::Cons(n, t, Box::new((*rest).place(name, ty)))
            },
        }
    }

    /// The fields of the list in canonical order.
    pub fn to_canonical(&self) -> (r: Fields)
        ensures
            r == self.canonical(),
        decreases self,
    {
        match self {
            Fields::Nil => Fields::Nil,
            Fields::Cons(n, t, rest) => rest.to_canonical().place(n.clone(), t.clone()),
        }
    }

    /// Placing a field keeps a sorted list sorted and concrete types
    /// concrete; afterwards the name leads to the type, and every other
    /// name to what it led to before.
    pub proof fn lemma_placed(self, name: Name, ty: Type, other: Name)
        ensures
            self.sorted() ==> self.placed(name, ty).sorted(),
            self.all_concrete() && ty.is_concrete() ==> self.placed(name, ty).all_concrete(),
            self.placed(name, ty).lookup(other) == if other == name {
                Some(ty)
            } else {
                self.lookup(other)
            },
            self.placed(name, ty) matches Fields::Cons(first, _, _) && (first == name || (
            self matches Fields::Cons(n, _, _) && first == n)),
        decreases self,
    {
        match self {
            Fields::Nil => {},
            Fields::Cons(n, _, rest) => {
                rest.lemma_placed(name, ty, other);
                name.lemma_order_total(n);
            },
        }
    }

    /// The canonical order of a list is sorted, keeps concrete types
    /// concrete, and leads from every name to what the list leads to.
    pub proof fn lemma_canonical(self, other: Name)
        ensures
            self.canonical().sorted(),
            self.all_concrete() ==> self.canonical().all_concrete(),
            self.canonical().lookup(other) == self.lookup(other),
        decreases self,
    {
        match self {
            Fields::Nil => {},
            Fields::Cons(n, t, rest) => {
                rest.lemma_canonical(other);
                rest.canonical().lemma_placed(n, t, other);
            },
        }
    }

    /// In a sorted list, the first name stands before every other.
    pub proof fn lemma_first_is_least(self, other: Name)
        requires
            self.sorted(),
            self matches Fields::Cons(_, _, rest) && rest.lookup(other) is Some,
        ensures
            self matches Fields::Cons(n, _, _) && n.before(other),
        decreases self,
    {
        match self {
            Fields::Cons(n, _, rest) => match *rest {
                Fields::Cons(m, _, _) => {
                    if m != other {
                        rest.lemma_first_is_least(other);
                        n.lemma_order_transitive(m, other);
                    }
                },
                _ => {},
            },
            _ => {},
        }
    }

    /// Two sorted lists that lead from every name to the same type are
    /// equal.
    pub proof fn lemma_sorted_unique(self, other: Fields)
        requires
            self.sorted(),
            other.sorted(),
            forall|n: Name| self.lookup(n) == other.lookup(n),
        ensures
            self == other,
        decreases self,
    {
        match (self, other) {
            (Fields::Nil, Fields::Nil) => {},
            (Fields::Nil, Fields::Cons(m, _, _)) => {
                assert(other.lookup(m) is Some);
            },
            (Fields::Cons(n, _, _), Fields::Nil) => {
                assert(self.lookup(n) is Some);
            },
            (Fields::Cons(n, _, rest), Fields::Cons(m, _, tail)) => {
                assert(self.lookup(n) is Some);
                assert(other.lookup(m) is Some);
                n.lemma_order_total(m);
                if n != m {
                    assert(other.lookup(n) is Some);
                    assert(self.lookup(m) is Some);
                    other.lemma_first_is_least(n);
                    self.lemma_first_is_least(m);
                }
                assert forall|k: Name| rest.lookup(k) == tail.lookup(k) by {
                    n.lemma_order_total(k);
                    if rest.lookup(k) is Some {
                        self.lemma_first_is_least(k);
                    }
                    if tail.lookup(k) is Some {
                        other.lemma_first_is_least(k);
                    }
                    assert(self.lookup(k) == other.lookup(k));
                }
                rest.lemma_sorted_unique(*tail);
            },
        }
    }

    /// Is the type of every field concrete?
    pub open spec fn all_concrete(self) -> bool
        decreases self,
    {
        match self {
            Fields::Nil => true,
            Fields::Cons(_, t, rest) => t.is_concrete() && rest.all_concrete(),
        }
    }
}

/// The concrete form of a type: the type simplified at its head and in
/// all its parts, with every array length evaluated.
pub open spec fn concrete_form(t: Type, env: Env, fuel: nat) -> Result<Type, Error>
    decreases fuel, 0nat, t, 1nat,
{
    if fuel == 0 {
        Err(Error::RecursionLimit)
    } else {
        match simplified(t, env, fuel) {
            Err(e) => Err(e),
            Ok(head) => concrete_head(head, env, (fuel - 1) as nat),
        }
    }
}

/// The concrete form of a head-simple type: its parts in concrete form,
/// its array length evaluated, its fields or variants in canonical order.
/// Of two fields of one name the second is left out, unread. A scheme has
/// none.
pub open spec fn concrete_head(head: Type, env: Env, fuel: nat) -> Result<Type, Error>
    decreases fuel, 1nat, head, 0nat,
{
    match head {
        Type::Symbol(_) | Type::Let(_, _, _) | Type::Apply(_, _) | Type::Poly(_, _) => Err(
            Error::NotConcrete(head),
        ),
        Type::Unit(name, inner) => match concrete_form(*inner, env, fuel) {
            Err(e) => Err(e),
            Ok(t) => Ok(Type::Unit(name, Box::new(t))),
        },
        Type::Array(elem, len) => match concrete_form(*elem, env, fuel) {
            Err(e) => Err(e),
            Ok(t) => match const_int(*len, env, fuel) {
                Err(e) => Err(e),
                Ok(n) => Ok(Type::Array(Box::new(t), Box::new(ConstExpr::Int(n)))),
            },
        },
        Type::Tuple(items) => match concrete_forms(*items, env, fuel) {
            Err(e) => Err(e),
            Ok(ts) => Ok(Type::Tuple(Box::new(ts))),
        },
        Type::Enum(variants) => Ok(Type::Enum(variants.canonical())),
        Type::Struct(fields) => match concrete_fields(fields.canonical(), env, fuel) {
            Err(e) => Err(e),
            Ok(fs) => Ok(Type::Struct(Box::new(fs))),
        },
        Type::Union(fields) => match concrete_fields(fields.canonical(), env, fuel) {
            Err(e) => Err(e),
            Ok(fs) => Ok(Type::Union(Box::new(fs))),
        },
        Type::Proc(args, ret) => match concrete_forms(*args, env, fuel) {
            Err(e) => Err(e),
            Ok(ts) => match concrete_form(*ret, env, fuel) {
                Err(e) => Err(e),
                Ok(t) => Ok(Type::Proc(Box::new(ts), Box::new(t))),
            },
        },
        Type::Pointer(inner) => match concrete_form(*inner, env, fuel) {
            Err(e) => Err(e),
            Ok(t) => Ok(Type::Pointer(Box::new(t))),
        },
        _ => Ok(head),
    }
}

/// The concrete forms of the types of a list, in order.
pub open spec fn concrete_forms(items: Types, env: Env, fuel: nat) -> Result<Types, Error>
    decreases fuel, 0nat, items, 0nat,
{
    match items {
        Types::Nil => Ok(Types::Nil),
        Types::Cons(t, rest) => match concrete_form(t, env, fuel) {
            Err(e) => Err(e),
            Ok(c) => match concrete_forms(*rest, env, fuel) {
                Err(e) => Err(e),
                Ok(cs) => Ok(Types::Cons(c, Box::new(cs))),
            },
        },
    }
}

/// The fields of a list with the concrete forms of their types.
pub open spec fn concrete_fields(fields: Fields, env: Env, fuel: nat) -> Result<Fields, Error>
    decreases fuel, 0nat, fields, 0nat,
{
    match fields {
        Fields::Nil => Ok(Fields::Nil),
        Fields::Cons(n, t, rest) => match concrete_form(t, env, fuel) {
            Err(e) => Err(e),
            Ok(c) => match concrete_fields(*rest, env, fuel) {
                Err(e) => Err(e),
                Ok(cs) => Ok(Fields::Cons(n, c, Box::new(cs))),
            },
        },
    }
}

/// The concrete form of a type is concrete.
pub proof fn lemma_concrete_form_is_concrete(t: Type, env: Env, fuel: nat)
    ensures
        concrete_form(t, env, fuel) matches Ok(c) ==> c.is_concrete(),
    decreases fuel, 0nat, t, 1nat,
{
    if fuel > 0 {
        match simplified(t, env, fuel) {
            Err(_) => {},
            Ok(head) => {
                lemma_concrete_head_is_concrete(head, env, (fuel - 1) as nat);
            },
        }
    }
}

/// The concrete form of a head-simple type is concrete.
pub proof fn lemma_concrete_head_is_concrete(head: Type, env: Env, fuel: nat)
    ensures
        concrete_head(head, env, fuel) matches Ok(c) ==> c.is_concrete(),
    decreases fuel, 1nat, head, 0nat,
{
    match head {
        Type::Unit(_, inner) => {
            lemma_concrete_form_is_concrete(*inner, env, fuel);
        },
        Type::Array(elem, _) => {
            lemma_concrete_form_is_concrete(*elem, env, fuel);
        },
        Type::Tuple(items) => {
            lemma_concrete_forms_are_concrete(*items, env, fuel);
        },
        Type::Enum(variants) => {
            variants.lemma_canonical(Name::Nil);
        },
        Type::Struct(fields) => {
            fields.lemma_canonical(Name::Nil);
            lemma_concrete_fields_are_concrete(fields.canonical(), env, fuel);
            if concrete_fields(fields.canonical(), env, fuel) is Ok {
                lemma_concrete_fields_sorted(fields.canonical(), env, fuel);
            }
        },
        Type::Union(fields) => {
            fields.lemma_canonical(Name::Nil);
            lemma_concrete_fields_are_concrete(fields.canonical(), env, fuel);
            if concrete_fields(fields.canonical(), env, fuel) is Ok {
                lemma_concrete_fields_sorted(fields.canonical(), env, fuel);
            }
        },
        Type::Proc(args, ret) => {
            lemma_concrete_forms_are_concrete(*args, env, fuel);
            lemma_concrete_form_is_concrete(*ret, env, fuel);
        },
        Type::Pointer(inner) => {
            lemma_concrete_form_is_concrete(*inner, env, fuel);
        },
        _ => {},
    }
}

/// The concrete forms of a list are all concrete.
pub proof fn lemma_concrete_forms_are_concrete(items: Types, env: Env, fuel: nat)
    ensures
        concrete_forms(items, env, fuel) matches Ok(cs) ==> cs.all_concrete(),
    decreases fuel, 0nat, items, 0nat,
{
    match items {
        Types::Nil => {},
        Types::Cons(t, rest) => {
            lemma_concrete_form_is_concrete(t, env, fuel);
            lemma_concrete_forms_are_concrete(*rest, env, fuel);
        },
    }
}

/// The concrete fields of a list are all concrete.
pub proof fn lemma_concrete_fields_are_concrete(fields: Fields, env: Env, fuel: nat)
    ensures
        concrete_fields(fields, env, fuel) matches Ok(cs) ==> cs.all_concrete(),
    decreases fuel, 0nat, fields, 0nat,
{
    match fields {
        Fields::Nil => {},
        Fields::Cons(_, t, rest) => {
            lemma_concrete_form_is_concrete(t, env, fuel);
            lemma_concrete_fields_are_concrete(*rest, env, fuel);
        },
    }
}

/// The concrete fields of a list have the names of the list, in its
/// order.
pub proof fn lemma_concrete_fields_sorted(fields: Fields, env: Env, fuel: nat)
    requires
        fields.sorted(),
        concrete_fields(fields, env, fuel) is Ok,
    ensures
        concrete_fields(fields, env, fuel)->Ok_0.sorted(),
        match (fields, concrete_fields(fields, env, fuel)->Ok_0) {
            (Fields::Nil, Fields::Nil) => true,
            (Fields::Cons(n, _, _), Fields::Cons(m, _, _)) => n == m,
            _ => false,
        },
    decreases fields,
{
    match fields {
        Fields::Nil => {},
        Fields::Cons(_, _, rest) => {
            lemma_concrete_fields_sorted(*rest, env, fuel);
        },
    }
}

/// Where one list of fields lies within another, every name of the first
/// leads to a type that equals what it leads to in the other.
pub proof fn lemma_within_lookup(fs: Fields, gs: Fields, name: Name, env: Env, fuel: nat)
    requires
        fields_within(fs, gs, env, fuel) == Ok::<bool, Error>(true),
    ensures
        fs.lookup(name) matches Some(t) ==> gs.lookup(name) matches Some(u) && equal_types(
            t,
            u,
            env,
            fuel,
        ) == Ok::<bool, Error>(true),
    decreases fs,
{
    match fs {
        Fields::Nil => {},
        Fields::Cons(n, _, rest) => {
            if n != name {
                lemma_within_lookup(*rest, gs, name, env, fuel);
            }
        },
    }
}

/// Two sorted lists of fields with the same names, whose types have the
/// same concrete forms name by name, have the same concrete fields.
pub proof fn lemma_aligned_fields_concrete(first: Fields, second: Fields, env: Env, fuel: nat)
    requires
        first.sorted(),
        second.sorted(),
        forall|n: Name| first.lookup(n) is Some <==> second.lookup(n) is Some,
        forall|n: Name|
            first.lookup(n) is Some && concrete_form(first.lookup(n)->Some_0, env, fuel) is Ok
                ==> concrete_form(second.lookup(n)->Some_0, env, fuel) == concrete_form(
                first.lookup(n)->Some_0,
                env,
                fuel,
            ),
        concrete_fields(first, env, fuel) is Ok,
    ensures
        concrete_fields(second, env, fuel) == concrete_fields(first, env, fuel),
    decreases first,
{
    match (first, second) {
        (Fields::Nil, Fields::Nil) => {},
        (Fields::Nil, Fields::Cons(m, _, _)) => {
            assert(second.lookup(m) is Some);
        },
        (Fields::Cons(n, _, _), Fields::Nil) => {
            assert(first.lookup(n) is Some);
        },
        (Fields::Cons(n, t, rest), Fields::Cons(m, u, tail)) => {
            assert(first.lookup(n) is Some);
            assert(second.lookup(m) is Some);
            n.lemma_order_total(m);
            if n != m {
                assert(second.lookup(n) is Some);
                assert(first.lookup(m) is Some);
                second.lemma_first_is_least(n);
                first.lemma_first_is_least(m);
            }
            assert(first.lookup(n) == Some(t));
            assert(second.lookup(n) == Some(u));
            assert forall|k: Name| rest.lookup(k) is Some <==> tail.lookup(k) is Some by {
                n.lemma_order_total(k);
                if rest.lookup(k) is Some {
                    first.lemma_first_is_least(k);
                }
                if tail.lookup(k) is Some {
                    second.lemma_first_is_least(k);
                }
                assert(first.lookup(k) is Some <==> second.lookup(k) is Some);
            }
            assert forall|k: Name|
                rest.lookup(k) is Some && concrete_form(rest.lookup(k)->Some_0, env, fuel)
                    is Ok implies concrete_form(tail.lookup(k)->Some_0, env, fuel)
                == concrete_form(rest.lookup(k)->Some_0, env, fuel) by {
                n.lemma_order_total(k);
                first.lemma_first_is_least(k);
                assert(tail.lookup(k) is Some);
                second.lemma_first_is_least(k);
                assert(first.lookup(k) == rest.lookup(k));
                assert(second.lookup(k) == tail.lookup(k));
            }
            lemma_aligned_fields_concrete(*rest, *tail, env, fuel);
        },
    }
}

/// Equal types have the same concrete form: if one of two equal types
/// has a concrete form, it is the concrete form of the other.
pub proof fn lemma_equal_concrete(a: Type, b: Type, env: Env, fuel: nat)
    requires
        equal_types(a, b, env, fuel) == Ok::<bool, Error>(true),
        concrete_form(a, env, fuel) is Ok,
    ensures
        concrete_form(b, env, fuel) == concrete_form(a, env, fuel),
    decreases fuel, 0nat, a, 1nat,
{
    if a != b {
        let x = simplified(a, env, fuel)->Ok_0;
        let y = simplified(b, env, fuel)->Ok_0;
        lemma_equal_heads_concrete(x, y, env, (fuel - 1) as nat);
    }
}

/// Equal head-simple types have the same concrete form.
pub proof fn lemma_equal_heads_concrete(x: Type, y: Type, env: Env, fuel: nat)
    requires
        equal_heads(x, y, env, fuel) == Ok::<bool, Error>(true),
        concrete_head(x, env, fuel) is Ok,
    ensures
        concrete_head(y, env, fuel) == concrete_head(x, env, fuel),
    decreases fuel, 1nat, x, 0nat,
{
    match (x, y) {
        (Type::Enum(v), Type::Enum(w)) => {
            assert forall|n: Name| v.canonical().contains(n) == w.canonical().contains(n) by {
                v.lemma_canonical(n);
                w.lemma_canonical(n);
                v.lemma_within(w, n);
                w.lemma_within(v, n);
            }
            v.lemma_canonical(Name::Nil);
            w.lemma_canonical(Name::Nil);
            v.canonical().lemma_sorted_unique(w.canonical());
        },
        (Type::Unit(_, t), Type::Unit(_, u)) => {
            lemma_equal_concrete(*t, *u, env, fuel);
        },
        (Type::Array(t, _), Type::Array(u, _)) => {
            lemma_equal_concrete(*t, *u, env, fuel);
        },
        (Type::Tuple(ts), Type::Tuple(us)) => {
            lemma_equal_lists_concrete(*ts, *us, env, fuel);
        },
        (Type::Struct(fs), Type::Struct(gs)) => {
            lemma_equal_fields_concrete(*fs, *gs, env, fuel);
        },
        (Type::Union(fs), Type::Union(gs)) => {
            lemma_equal_fields_concrete(*fs, *gs, env, fuel);
        },
        (Type::Proc(ps, r), Type::Proc(qs, s)) => {
            lemma_equal_lists_concrete(*ps, *qs, env, fuel);
            lemma_equal_concrete(*r, *s, env, fuel);
        },
        (Type::Pointer(t), Type::Pointer(u)) => {
            lemma_equal_concrete(*t, *u, env, fuel);
        },
        _ => {},
    }
}

/// Lists of types that are equal one by one have the same concrete
/// forms.
pub proof fn lemma_equal_lists_concrete(ts: Types, us: Types, env: Env, fuel: nat)
    requires
        equal_lists(ts, us, env, fuel) == Ok::<bool, Error>(true),
        concrete_forms(ts, env, fuel) is Ok,
    ensures
        concrete_forms(us, env, fuel) == concrete_forms(ts, env, fuel),
    decreases fuel, 0nat, ts, 0nat,
{
    match (ts, us) {
        (Types::Cons(t, rest), Types::Cons(u, tail)) => {
            lemma_equal_concrete(t, u, env, fuel);
            lemma_equal_lists_concrete(*rest, *tail, env, fuel);
        },
        _ => {},
    }
}

/// Equal lists of fields have the same concrete fields in canonical
/// order.
pub proof fn lemma_equal_fields_concrete(fs: Fields, gs: Fields, env: Env, fuel: nat)
    requires
        equal_fields(fs, gs, env, fuel) == Ok::<bool, Error>(true),
        concrete_fields(fs.canonical(), env, fuel) is Ok,
    ensures
        concrete_fields(gs.canonical(), env, fuel) == concrete_fields(fs.canonical(), env, fuel),
    decreases fuel, 1nat, fs, 0nat,
{
    let first = fs.canonical();
    let second = gs.canonical();
    fs.lemma_canonical(Name::Nil);
    gs.lemma_canonical(Name::Nil);
    assert forall|n: Name| first.lookup(n) is Some <==> second.lookup(n) is Some by {
        fs.lemma_canonical(n);
        gs.lemma_canonical(n);
        lemma_within_lookup(fs, gs, n, env, fuel);
        lemma_within_lookup(gs, fs, n, env, fuel);
    }
    assert forall|n: Name|
        first.lookup(n) is Some && concrete_form(first.lookup(n)->Some_0, env, fuel)
            is Ok implies concrete_form(second.lookup(n)->Some_0, env, fuel) == concrete_form(
        first.lookup(n)->Some_0,
        env,
        fuel,
    ) by {
        fs.lemma_canonical(n);
        gs.lemma_canonical(n);
        lemma_within_lookup(fs, gs, n, env, fuel);
        lemma_equal_concrete(fs.lookup(n)->Some_0, gs.lookup(n)->Some_0, env, fuel);
    }
    lemma_aligned_fields_concrete(first, second, env, fuel);
}

impl Types {
    /// The concrete forms of the types of the list, found within `fuel`
    /// nested steps.
    pub fn concrete_within(&self, env: &Env, fuel: usize) -> (r: Result<Types, Error>)
        ensures
            r == concrete_forms(*self, *env, fuel as nat),
        decreases fuel, 0nat, self, 0nat,
    {
        match self {
            Types::Nil => Ok(Types::Nil),
            Types::Cons(t, rest) => match t.concrete_within(env, fuel) {
                Err(e) => Err(e),
                Ok(c) => match rest.concrete_within(env, fuel) {
                    Err(e) => Err(e),
                    Ok(cs) => Ok(Types::Cons(c, Box::new(cs))),
                },
            },
        }
    }
}

impl Fields {
    /// The fields of the list with the concrete forms of their types,
    /// found within `fuel` nested steps.
    pub fn concrete_within(&self, env: &Env, fuel: usize) -> (r: Result<Fields, Error>)
        ensures
            r == concrete_fields(*self, *env, fuel as nat),
        decreases fuel, 0nat, self, 0nat,
    {
        match self {
            Fields::Nil => Ok(Fields::Nil),
            Fields::Cons(n, t, rest) => match t.concrete_within(env, fuel) {
                Err(e) => Err(e),
                Ok(c) => match rest.concrete_within(env, fuel) {
                    Err(e) => Err(e),
                    Ok(cs) => Ok(Fields::Cons(n.clone(), c, Box::new(cs))),
                },
            },
        }
    }
}

impl Type {
    /// The concrete form of the type, found within `fuel` nested steps.
    pub fn concrete_within(&self, env: &Env, fuel: usize) -> (r: Result<Type, Error>)
        ensures
            r == concrete_form(*self, *env, fuel as nat),
        decreases fuel, 0nat, self, 1nat,
    {
        if fuel == 0 {
            Err(Error::RecursionLimit)
        } else {
            match self.simplify_within(env, fuel) {
                Err(e) => Err(e),
                Ok(head) => head.concrete_head_within(env, fuel - 1),
            }
        }
    }

    fn concrete_head_within(&self, env: &Env, fuel: usize) -> (r: Result<Type, Error>)
        ensures
            r == concrete_head(*self, *env, fuel as nat),
        decreases fuel, 1nat, self, 0nat,
    {
        match self {
            Type::Symbol(_) | Type::Let(_, _, _) | Type::Apply(_, _) | Type::Poly(_, _) => Err(
                Error::NotConcrete(self.clone()),
            ),
            Type::Unit(name, inner) => match inner.concrete_within(env, fuel) {
                Err(e) => Err(e),
                Ok(t) => Ok(Type::Unit(name.clone(), Box::new(t))),
            },
            Type::Array(elem, len) => match elem.concrete_within(env, fuel) {
                Err(e) => Err(e),
                Ok(t) => match len.as_int_within(env, fuel) {
                    Err(e) => Err(e),
                    Ok(n) => Ok(Type::Array(Box::new(t), Box::new(ConstExpr::Int(n)))),
                },
            },
            Type::Tuple(items) => match items.concrete_within(env, fuel) {
                Err(e) => Err(e),
                Ok(ts) => Ok(Type::Tuple(Box::new(ts))),
            },
            Type::Enum(variants) => Ok(Type::Enum(variants.to_canonical())),
            Type::Struct(fields) => match fields.to_canonical().concrete_within(env, fuel) {
                Err(e) => Err(e),
                Ok(fs) => Ok(Type::Struct(Box::new(fs))),
            },
            Type::Union(fields) => match fields.to_canonical().concrete_within(env, fuel) {
                Err(e) => Err(e),
                Ok(fs) => Ok(Type::Union(Box::new(fs))),
            },
            Type::Proc(args, ret) => match args.concrete_within(env, fuel) {
                Err(e) => Err(e),
                Ok(ts) => match ret.concrete_within(env, fuel) {
                    Err(e) => Err(e),
                    Ok(t) => Ok(Type::Proc(Box::new(ts), Box::new(t))),
                },
            },
            Type::Pointer(inner) => match inner.concrete_within(env, fuel) {
                Err(e) => Err(e),
                Ok(t) => Ok(Type::Pointer(Box::new(t))),
            },
            _ => Ok(self.clone()),
        }
    }

    /// The concrete form of the type: simplified at its head and in all
    /// its parts until no name, binding or application is left, with every
    /// array length evaluated.
    ///
    /// Fails where a name is not defined, where a scheme is left without
    /// arguments, and with `Error::RecursionLimit` where the reduction does
    /// not end within `RECURSION_LIMIT` nested steps, as for a recursive
    /// type.
    pub fn simplify_until_concrete(&self, env: &Env) -> (r: Result<Type, Error>)
        ensures
            r == concrete_form(*self, *env, RECURSION_LIMIT as nat),
            r matches Ok(c) ==> c.is_concrete(),
    {
        proof {
            lemma_concrete_form_is_concrete(*self, *env, RECURSION_LIMIT as nat);
        }
        self.concrete_within(env, RECURSION_LIMIT)
    }
}

} // verus!
