//! Monomorphization: turning a procedure template and concrete type
//! arguments into a procedure.
//!
//! Each template has a table of its own for its instances, and each
//! distinct instance is elaborated once. The tables live in one registry,
//! under the number that the template holds: a new template gets a new,
//! empty table, copies of a template share its table, and no template
//! touches the table of another. The exclusive borrow of the registry is
//! what keeps two requests for the same instance from both elaborating it.
//!
//! An instance is found under the concrete forms of its type arguments
//! together with its parameters and its return type, so two spellings of
//! one type lead to one instance, and one spelling read in two
//! environments leads to two.
use vstd::prelude::*;
use crate::concrete::{
    concrete_form, concrete_forms, lemma_concrete_form_is_concrete, lemma_equal_lists_concrete,
};
use crate::env::Env;
use crate::error::Error;
use crate::mangle::{mangle, mangled};
use crate::relate::equal_lists;
use crate::simplify::RECURSION_LIMIT;
use crate::syntax::{
    Expr, Fields, Mutability, Name, Names, Params, PolyProcedure, Procedure, Type, Types,
};

verus! {

/// The instances of one template, the newest first, each under the
/// concrete type arguments it was made for.
#[derive(Debug, PartialEq)]
pub enum Table {
    Nil,
    Cons(Types, Procedure, Box<Table>),
}

/// The tables of the templates, in the order of their numbers.
#[derive(Debug, PartialEq)]
pub enum Tables {
    Nil,
    Cons(Table, Box<Tables>),
}

/// The registry of the instances elaborated so far. It only ever grows.
#[derive(Debug, PartialEq)]
pub struct Monomorphs {
    tables: Tables,
}

/// What the elaboration of a template yields: the mangled name of the
/// instance and its parts.
pub ghost struct Instance {
    pub key: Name,
    pub args: Params,
    pub ret: Type,
    pub body: Expr,
}

impl Procedure {
    /// Is this procedure the given instance, under its mangled name?
    pub open spec fn is_instance(self, instance: Instance) -> bool {
        &&& self.name == Some(instance.key)
        &&& self.args == instance.args
        &&& self.ret == instance.ret
        &&& *self.body == instance.body
    }
}

impl Table {
    /// The instance for the concrete type arguments with the given
    /// parameters and return type, if the table has it.
    pub open spec fn lookup(self, key: Types, args: Params, ret: Type) -> Option<Procedure>
        decreases self,
    {
        match self {
            Table::Nil => None,
            Table::Cons(k, p, rest) => if k == key && p.args == args && p.ret == ret {
                Some(p)
            } else {
                rest.lookup(key, args, ret)
            },
        }
    }

    /// The number of instances in the table.
    pub open spec fn len(self) -> nat
        decreases self,
    {
        match self {
            Table::Nil => 0,
            Table::Cons(_, _, rest) => 1 + rest.len(),
        }
    }

    /// Is every procedure of the table the instance of the template at the
    /// type arguments it is kept under, with the parameters and the return
    /// type that it has?
    pub open spec fn holds_instances_of(self, template: PolyProcedure) -> bool
        decreases self,
    {
        match self {
            Table::Nil => true,
            Table::Cons(k, p, rest) => p.is_instance(template.made(k, p.args, p.ret))
                && rest.holds_instances_of(template),
        }
    }

    /// What a table holds under type arguments, parameters and a return
    /// type is the instance of the template with them, if the table holds
    /// instances of the template only.
    pub proof fn lemma_lookup_is_instance(
        self,
        key: Types,
        args: Params,
        ret: Type,
        template: PolyProcedure,
    )
        requires
            self.holds_instances_of(template),
            self.lookup(key, args, ret) is Some,
        ensures
            self.lookup(key, args, ret)->Some_0.is_instance(template.made(key, args, ret)),
        decreases self,
    {
        match self {
            Table::Nil => {},
            Table::Cons(k, p, rest) => {
                if !(k == key && p.args == args && p.ret == ret) {
                    rest.lemma_lookup_is_instance(key, args, ret, template);
                }
            },
        }
    }

    fn find(&self, key: &Types, args: &Params, ret: &Type) -> (r: Option<&Procedure>)
        ensures
            match r {
                Some(p) => self.lookup(*key, *args, *ret) == Some(*p),
                None => self.lookup(*key, *args, *ret) is None,
            },
        decreases self,
    {
        match self {
            Table::Nil => None,
            Table::Cons(k, p, rest) => if k.is_same(key) && p.args.is_same(args) && p.ret.is_same(
                ret,
            ) {
                Some(p)
            } else {
                rest.find(key, args, ret)
            },
        }
    }

    fn length(&self) -> (r: usize)
        ensures
            r == if self.len() <= usize::MAX {
                self.len()
            } else {
                usize::MAX as nat
            },
        decreases self,
    {
        match self {
            Table::Nil => 0,
            Table::Cons(_, _, rest) => {
                let n = rest.length();
                if n == usize::MAX {
                    n
                } else {
                    n + 1
                }
            },
        }
    }
}

impl Tables {
    /// The number of tables.
    pub open spec fn len(self) -> nat
        decreases self,
    {
        match self {
            Tables::Nil => 0,
            Tables::Cons(_, rest) => 1 + rest.len(),
        }
    }

    /// The table under a number; beyond the last table, an empty one.
    pub open spec fn at(self, id: nat) -> Table
        decreases self,
    {
        match self {
            Tables::Nil => Table::Nil,
            Tables::Cons(t, rest) => if id == 0 {
                t
            } else {
                rest.at((id - 1) as nat)
            },
        }
    }

    /// The tables with one more, empty, behind the last.
    pub open spec fn opened(self) -> Tables
        decreases self,
    {
        match self {
            Tables::Nil => Tables::Cons(Table::Nil, Box::new(Tables::Nil)),
            Tables::Cons(t, rest) => Tables::Cons(t, Box::new(rest.opened())),
        }
    }

    /// The tables with an instance in front of the table under a number.
    pub open spec fn inserted(self, id: nat, key: Types, value: Procedure) -> Tables
        decreases id,
    {
        match self {
            Tables::Nil => if id == 0 {
                Tables::Cons(
                    Table::Cons(key, value, Box::new(Table::Nil)),
                    Box::new(Tables::Nil),
                )
            } else {
                Tables::Cons(
                    Table::Nil,
                    Box::new(Tables::Nil.inserted((id - 1) as nat, key, value)),
                )
            },
            Tables::Cons(t, rest) => if id == 0 {
                Tables::Cons(Table::Cons(key, value, Box::new(t)), rest)
            } else {
                Tables::Cons(t, Box::new(rest.inserted((id - 1) as nat, key, value)))
            },
        }
    }

    /// Opening a table changes no table, and beyond the last table all
    /// tables are empty.
    pub proof fn lemma_opened(self, id: nat)
        ensures
            self.opened().at(id) == self.at(id),
            self.opened().len() == self.len() + 1,
            id >= self.len() ==> self.at(id) == Table::Nil,
        decreases self,
    {
        match self {
            Tables::Nil => {
                assert(Tables::Nil.at((id - 1) as nat) == Table::Nil);
            },
            Tables::Cons(_, rest) => {
                if id > 0 {
                    rest.lemma_opened((id - 1) as nat);
                } else {
                    rest.lemma_opened(0);
                }
            },
        }
    }

    /// An insertion puts the instance in front of the one table and
    /// changes no other; no table is lost.
    pub proof fn lemma_inserted(self, id: nat, key: Types, value: Procedure, other: nat)
        ensures
            self.inserted(id, key, value).at(id) == Table::Cons(key, value, Box::new(self.at(id))),
            other != id ==> self.inserted(id, key, value).at(other) == self.at(other),
            self.inserted(id, key, value).len() >= self.len(),
        decreases id,
    {
        match self {
            Tables::Nil => {
                if id > 0 {
                    Tables::Nil.lemma_inserted(
                        (id - 1) as nat,
                        key,
                        value,
                        if other > 0 {
                            (other - 1) as nat
                        } else {
                            id
                        },
                    );
                }
            },
            Tables::Cons(_, rest) => {
                if id > 0 {
                    rest.lemma_inserted(
                        (id - 1) as nat,
                        key,
                        value,
                        if other > 0 {
                            (other - 1) as nat
                        } else {
                            id
                        },
                    );
                }
            },
        }
    }

    fn get(&self, id: usize) -> (r: Option<&Table>)
        ensures
            match r {
                Some(t) => self.at(id as nat) == *t,
                None => self.at(id as nat) == Table::Nil,
            },
        decreases self,
    {
        match self {
            Tables::Nil => None,
            Tables::Cons(t, rest) => if id == 0 {
                Some(t)
            } else {
                rest.get(id - 1)
            },
        }
    }

    fn open(self) -> (r: Tables)
        ensures
            r == self.opened(),
        decreases self,
    {
        match self {
            Tables::Nil => Tables::Cons(Table::Nil, Box::new(Tables::Nil)),
            Tables::Cons(t, rest) => Tables::Cons(t, Box::new((*rest).open())),
        }
    }

    fn insert(self, id: usize, key: Types, value: Procedure) -> (r: Tables)
        ensures
            r == self.inserted(id as nat, key, value),
        decreases id,
    {
        match self {
            Tables::Nil => if id == 0 {
                Tables::Cons(
                    Table::Cons(key, value, Box::new(Table::Nil)),
                    Box::new(Tables::Nil),
                )
            } else {
                Tables::Cons(Table::Nil, Box::new(Tables::Nil.insert(id - 1, key, value)))
            },
            Tables::Cons(t, rest) => if id == 0 {
                Tables::Cons(Table::Cons(key, value, Box::new(t)), rest)
            } else {
                Tables::Cons(t, Box::new((*rest).insert(id - 1, key, value)))
            },
        }
    }

    fn length(&self) -> (r: Option<usize>)
        ensures
            match r {
                Some(n) => n == self.len() && n < usize::MAX,
                None => self.len() >= usize::MAX,
            },
        decreases self,
    {
        match self {
            Tables::Nil => Some(0),
            Tables::Cons(_, rest) => match rest.length() {
                Some(n) if n < usize::MAX - 1 => Some(n + 1),
                _ => None,
            },
        }
    }
}

/// The type `t` of a template over `params`, at the type arguments
/// `ty_args`: the application of the scheme, not yet reduced.
pub open spec fn bound_type(params: Names, ty_args: Types, t: Type) -> Type {
    Type::Apply(Box::new(Type::Poly(params, Box::new(t))), Box::new(ty_args))
}

/// The parameters of a template at the type arguments: each keeps its
/// name and mutability and gets the concrete form of its type.
pub open spec fn bound_params(
    params: Names,
    ty_args: Types,
    args: Params,
    env: Env,
    fuel: nat,
) -> Result<Params, Error>
    decreases args,
{
    match args {
        Params::Nil => Ok(Params::Nil),
        Params::Cons(n, m, t, rest) => match concrete_form(
            bound_type(params, ty_args, t),
            env,
            fuel,
        ) {
            Err(e) => Err(e),
            Ok(c) => match bound_params(params, ty_args, *rest, env, fuel) {
                Err(e) => Err(e),
                Ok(cs) => Ok(Params::Cons(n, m, c, Box::new(cs))),
            },
        },
    }
}

/// The body of a template with each type argument in place of its
/// parameter, the first parameter replaced first.
pub open spec fn bound_body(params: Names, ty_args: Types, body: Expr) -> Expr
    decreases params,
{
    match (params, ty_args) {
        (Names::Cons(p, ps), Types::Cons(a, rest)) => bound_body(*ps, *rest, body.subst(p, a)),
        _ => body,
    }
}

/// The type parameters of a template as definitions of its type
/// arguments.
pub open spec fn bindings(params: Names, ty_args: Types) -> Fields
    decreases params,
{
    match (params, ty_args) {
        (Names::Cons(p, ps), Types::Cons(a, rest)) => Fields::Cons(
            p,
            a,
            Box::new(bindings(*ps, *rest)),
        ),
        _ => Fields::Nil,
    }
}

impl PolyProcedure {
    /// The instance of the template at concrete type arguments, with the
    /// given parameters and return type.
    ///
    /// The body is the template's with the arguments substituted, inside a
    /// block that defines each type parameter as its argument. The mangled
    /// name spells out the template's name, the arguments, the parameters
    /// and the return type.
    pub open spec fn made(self, concrete: Types, args: Params, ret: Type) -> Instance {
        Instance {
            key: Name::from_seq(mangled(self.name, concrete, args, ret)),
            args,
            ret,
            body: Expr::LetTypes(
                Box::new(bindings(self.ty_params, concrete)),
                Box::new(bound_body(self.ty_params, concrete, *self.body)),
            ),
        }
    }

    /// The instance of the template at concrete type arguments.
    ///
    /// The types of the parameters and the return type are the template's,
    /// applied to the arguments and reduced to concrete form, the
    /// parameters first and in their order; the first of them that has no
    /// concrete form decides the error.
    pub open spec fn elaborated(self, concrete: Types, env: Env, fuel: nat) -> Result<
        Instance,
        Error,
    > {
        match bound_params(self.ty_params, concrete, self.args, env, fuel) {
            Err(e) => Err(e),
            Ok(args) => match concrete_form(
                bound_type(self.ty_params, concrete, self.ret),
                env,
                fuel,
            ) {
                Err(e) => Err(e),
                Ok(ret) => Ok(self.made(concrete, args, ret)),
            },
        }
    }

    /// The instance of the template at the given type arguments: the
    /// instance at their concrete forms. It has none if one of the
    /// arguments has no concrete form.
    pub open spec fn instance(self, ty_args: Types, env: Env, fuel: nat) -> Result<
        Instance,
        Error,
    > {
        match concrete_forms(ty_args, env, fuel) {
            Err(e) => Err(e),
            Ok(concrete) => self.elaborated(concrete, env, fuel),
        }
    }

    /// What a request for an instance does to the registry and what it
    /// answers: `before` and `after` are the registry around the request.
    ///
    /// No table but the template's own changes. If a type argument, then a
    /// parameter type, then the return type has no concrete form, the
    /// request fails with the error of the first that has none, and the
    /// table stays as it is. If the table has a procedure under the
    /// concrete arguments, the parameters and the return type of the
    /// instance, that procedure is the answer and the table stays as it is.
    /// Otherwise the answer is the instance, and the table holds it in
    /// front of what it held before.
    pub open spec fn monomorphized(
        self,
        ty_args: Types,
        env: Env,
        before: Monomorphs,
        after: Monomorphs,
        answer: Result<Procedure, Error>,
    ) -> bool {
        let old_table = before.table_of(self.id as nat);
        let new_table = after.table_of(self.id as nat);
        &&& forall|i: nat| i != self.id ==> after.table_of(i) == before.table_of(i)
        &&& after.count() >= before.count()
        &&& match concrete_forms(ty_args, env, RECURSION_LIMIT as nat) {
            Err(e) => answer == Err::<Procedure, Error>(e) && new_table == old_table,
            Ok(concrete) => match self.elaborated(concrete, env, RECURSION_LIMIT as nat) {
                Err(e) => answer == Err::<Procedure, Error>(e) && new_table == old_table,
                Ok(instance) => match old_table.lookup(concrete, instance.args, instance.ret) {
                    Some(p) => answer == Ok::<Procedure, Error>(p) && new_table == old_table,
                    None => {
                        &&& answer matches Ok(p)
                        &&& p.is_instance(instance)
                        &&& new_table == Table::Cons(concrete, p, Box::new(old_table))
                    },
                },
            },
        }
    }
}

fn bind_type(params: &Names, ty_args: &Types, t: &Type) -> (r: Type)
    ensures
        r == bound_type(*params, *ty_args, *t),
{
    Type::Apply(
        Box::new(Type::Poly(params.clone(), Box::new(t.clone()))),
        Box::new(ty_args.clone()),
    )
}

fn bind_params(params: &Names, ty_args: &Types, args: &Params, env: &Env, fuel: usize) -> (r:
    Result<Params, Error>)
    ensures
        r == bound_params(*params, *ty_args, *args, *env, fuel as nat),
    decreases args,
{
    match args {
        Params::Nil => Ok(Params::Nil),
        Params::Cons(n, m, t, rest) => match bind_type(params, ty_args, t).concrete_within(
            env,
            fuel,
        ) {
            Err(e) => Err(e),
            Ok(c) => match bind_params(params, ty_args, rest, env, fuel) {
                Err(e) => Err(e),
                Ok(cs) => Ok(Params::Cons(n.clone(), *m, c, Box::new(cs))),
            },
        },
    }
}

fn bind_body(params: &Names, ty_args: &Types, body: Expr) -> (r: Expr)
    ensures
        r == bound_body(*params, *ty_args, body),
    decreases params,
{
    match (params, ty_args) {
        (Names::Cons(p, ps), Types::Cons(a, rest)) => bind_body(ps, rest, body.substitute(p, a)),
        _ => body,
    }
}

fn bind(params: &Names, ty_args: &Types) -> (r: Fields)
    ensures
        r == bindings(*params, *ty_args),
    decreases params,
{
    match (params, ty_args) {
        (Names::Cons(p, ps), Types::Cons(a, rest)) => Fields::Cons(
            p.clone(),
            a.clone(),
            Box::new(bind(ps, rest)),
        ),
        _ => Fields::Nil,
    }
}

impl Monomorphs {
    /// The table of the template with the given number.
    pub closed spec fn table_of(self, id: nat) -> Table {
        self.tables.at(id)
    }

    /// The number of tables that the registry has made room for.
    pub closed spec fn count(self) -> nat {
        self.tables.len()
    }

    /// Does the table of the template hold nothing but instances of the
    /// template, each under the type arguments it was made for?
    pub open spec fn sound_for(self, template: PolyProcedure) -> bool {
        self.table_of(template.id as nat).holds_instances_of(template)
    }

    /// A registry without tables.
    pub fn new() -> (r: Monomorphs)
        ensures
            r.count() == 0,
            forall|id: nat| r.table_of(id) == Table::Nil,
    {
        Monomorphs { tables: Tables::Nil }
    }

    /// The instance of the template for the concrete type arguments, with
    /// the given parameters and return type, if the registry has it.
    pub fn get(&self, template: &PolyProcedure, concrete: &Types, args: &Params, ret: &Type) -> (r:
        Option<&Procedure>)
        ensures
            match r {
                Some(p) => self.table_of(template.id as nat).lookup(*concrete, *args, *ret)
                    == Some(*p),
                None => self.table_of(template.id as nat).lookup(*concrete, *args, *ret)
                    is None,
            },
    {
        match self.tables.get(template.id) {
            Some(table) => table.find(concrete, args, ret),
            None => None,
        }
    }

    /// The number of instances of the template in the registry, up to
    /// `usize::MAX`.
    pub fn len(&self, template: &PolyProcedure) -> (r: usize)
        ensures
            r == if self.table_of(template.id as nat).len() <= usize::MAX {
                self.table_of(template.id as nat).len()
            } else {
                usize::MAX as nat
            },
    {
        match self.tables.get(template.id) {
            Some(table) => table.length(),
            None => 0,
        }
    }
}

impl PolyProcedure {
    /// A template with the given name, type parameters, parameters,
    /// return type and body, and with an empty table of its own in the
    /// registry.
    ///
    /// The table is under a number that no earlier template got from the
    /// registry, as long as the registry can count its tables.
    pub fn new(
        name: Name,
        ty_params: Vec<Name>,
        args: Vec<(Name, Mutability, Type)>,
        ret: Type,
        body: Expr,
        cache: &mut Monomorphs,
    ) -> (r: PolyProcedure)
        ensures
            r.name == name,
            r.ty_params == Names::from_seq(ty_params@),
            r.args == Params::from_seq(args@),
            r.ret == ret,
            *r.body == body,
            forall|i: nat| final(cache).table_of(i) == old(cache).table_of(i),
            final(cache).count() == old(cache).count() + 1,
            old(cache).count() < usize::MAX ==> {
                &&& r.id == old(cache).count()
                &&& final(cache).table_of(r.id as nat) == Table::Nil
                &&& final(cache).sound_for(r)
            },
    {
        let id = match cache.tables.length() {
            Some(n) => n,
            None => usize::MAX,
        };
        let mut tables = Tables::Nil;
        core::mem::swap(&mut cache.tables, &mut tables);
        proof {
            assert forall|i: nat| tables.opened().at(i) == tables.at(i) by {
                tables.lemma_opened(i);
            }
            tables.lemma_opened(id as nat);
        }
        cache.tables = tables.open();
        let r = PolyProcedure {
            id,
            name,
            ty_params: Names::from_vec(ty_params),
            args: Params::from_vec(args),
            ret,
            body: Box::new(body),
        };
        r
    }

    /// The name of the template: the one the front end knows, which no
    /// instance carries.
    pub fn get_name(&self) -> (r: &Name)
        ensures
            *r == self.name,
    {
        &self.name
    }

    /// The instance of the template at the type arguments `ty_args`,
    /// taken from the template's table in `cache` if the table holds it,
    /// and put there if not.
    ///
    /// The type arguments, the parameter types and the return type are
    /// reduced first, in this order; if one of them has no concrete form
    /// the request fails with that error and the table stays as it is. The
    /// instance is not checked for soundness here: whoever compiles it
    /// checks it first.
    pub fn monomorphize(&self, ty_args: Vec<Type>, env: &Env, cache: &mut Monomorphs) -> (r: Result<
        Procedure,
        Error,
    >)
        ensures
            self.monomorphized(Types::from_seq(ty_args@), *env, *old(cache), *final(cache), r),
            final(cache).table_of(self.id as nat).len() <= old(cache).table_of(
                self.id as nat,
            ).len() + 1,
            old(cache).sound_for(*self) ==> final(cache).sound_for(*self),
            old(cache).sound_for(*self) ==> (r matches Ok(p) ==> self.instance(
                Types::from_seq(ty_args@),
                *env,
                RECURSION_LIMIT as nat,
            ) matches Ok(instance) && p.is_instance(instance)),
    {
        let ty_args = Types::from_vec(ty_args);
        let concrete = match ty_args.concrete_within(env, RECURSION_LIMIT) {
            Err(e) => {
                return Err(e);
            },
            Ok(c) => c,
        };
        let args = match bind_params(&self.ty_params, &concrete, &self.args, env, RECURSION_LIMIT) {
            Err(e) => {
                return Err(e);
            },
            Ok(a) => a,
        };
        let ret = match bind_type(&self.ty_params, &concrete, &self.ret).concrete_within(
            env,
            RECURSION_LIMIT,
        ) {
            Err(e) => {
                return Err(e);
            },
            Ok(t) => t,
        };
        proof {
            if old(cache).table_of(self.id as nat).lookup(concrete, args, ret) is Some && old(
                cache,
            ).sound_for(*self) {
                old(cache).table_of(self.id as nat).lemma_lookup_is_instance(
                    concrete,
                    args,
                    ret,
                    *self,
                );
            }
        }
        match cache.get(self, &concrete, &args, &ret) {
            Some(p) => {
                return Ok(p.clone());
            },
            None => {},
        }
        let key = mangle(&self.name, &concrete, &args, &ret);
        let body = Expr::LetTypes(
            Box::new(bind(&self.ty_params, &concrete)),
            Box::new(bind_body(&self.ty_params, &concrete, (&*self.body).clone())),
        );
        let instance = Procedure { name: Some(key), args, ret, body: Box::new(body) };
        let mut tables = Tables::Nil;
        core::mem::swap(&mut cache.tables, &mut tables);
        proof {
            assert forall|i: nat| i != self.id implies tables.inserted(
                self.id as nat,
                concrete,
                instance,
            ).at(i) == tables.at(i) by {
                tables.lemma_inserted(self.id as nat, concrete, instance, i);
            }
            tables.lemma_inserted(self.id as nat, concrete, instance, 0);
        }
        cache.tables = tables.insert(self.id, concrete, instance.clone());
        Ok(instance)
    }
}

/// A second request for an instance is answered from the table: when a
/// request has been answered with a procedure, a later request on the same
/// template whose type arguments equal those of the first, one by one,
/// however they are spelled, gets that very procedure, mangled name and
/// body, and changes no table.
pub proof fn lemma_monomorphize_twice(
    template: PolyProcedure,
    first: Types,
    second: Types,
    env: Env,
    before: Monomorphs,
    between: Monomorphs,
    after: Monomorphs,
    p: Procedure,
    answer: Result<Procedure, Error>,
)
    requires
        equal_lists(first, second, env, RECURSION_LIMIT as nat) == Ok::<bool, Error>(true),
        template.monomorphized(first, env, before, between, Ok(p)),
        template.monomorphized(second, env, between, after, answer),
    ensures
        answer == Ok::<Procedure, Error>(p),
        forall|i: nat| after.table_of(i) == between.table_of(i),
{
    lemma_equal_lists_concrete(first, second, env, RECURSION_LIMIT as nat);
}

/// A table grows by the instances that were asked for and were not in it,
/// and by nothing else: a request adds one instance when it elaborates
/// one, and none when it is answered from the table or fails. What the
/// table held stays where it was, and so does every other table.
pub proof fn lemma_monomorphize_growth(
    template: PolyProcedure,
    ty_args: Types,
    env: Env,
    before: Monomorphs,
    after: Monomorphs,
    answer: Result<Procedure, Error>,
)
    requires
        template.monomorphized(ty_args, env, before, after, answer),
    ensures
        after.table_of(template.id as nat).len() == before.table_of(template.id as nat).len()
            || after.table_of(template.id as nat).len() == before.table_of(
            template.id as nat,
        ).len() + 1,
        forall|key: Types, args: Params, ret: Type|
            before.table_of(template.id as nat).lookup(key, args, ret) is Some
                ==> after.table_of(template.id as nat).lookup(key, args, ret)
                == before.table_of(template.id as nat).lookup(key, args, ret),
        forall|i: nat| i != template.id ==> after.table_of(i) == before.table_of(i),
{
}

/// The parameters of an instance have concrete types.
pub proof fn lemma_bound_params_are_concrete(
    params: Names,
    ty_args: Types,
    args: Params,
    env: Env,
    fuel: nat,
)
    ensures
        bound_params(params, ty_args, args, env, fuel) matches Ok(bound) ==> bound.types(
        ).all_concrete(),
    decreases args,
{
    match args {
        Params::Nil => {},
        Params::Cons(_, _, t, rest) => {
            lemma_concrete_form_is_concrete(bound_type(params, ty_args, t), env, fuel);
            lemma_bound_params_are_concrete(params, ty_args, *rest, env, fuel);
        },
    }
}

/// An instance is concrete in its signature: the types of its parameters
/// and its return type hold no name, binding, scheme or application.
pub proof fn lemma_instance_is_concrete(
    template: PolyProcedure,
    ty_args: Types,
    env: Env,
    fuel: nat,
)
    ensures
        template.instance(ty_args, env, fuel) matches Ok(instance) ==> instance.args.types(
        ).all_concrete() && instance.ret.is_concrete(),
{
    match concrete_forms(ty_args, env, fuel) {
        Err(_) => {},
        Ok(concrete) => {
            lemma_bound_params_are_concrete(
                template.ty_params,
                concrete,
                template.args,
                env,
                fuel,
            );
            lemma_concrete_form_is_concrete(
                bound_type(template.ty_params, concrete, template.ret),
                env,
                fuel,
            );
        },
    }
}

} // verus!
