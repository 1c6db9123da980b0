//! The environment: a scoped table of types, constants, procedures and
//! variables.
//!
//! An environment is a value. Entering a scope copies it, so nothing that
//! is defined inside the scope is seen outside, and a later definition
//! shadows an earlier one of the same name without destroying it. The four
//! tables are independent: one name can be a type and a variable at once.
use vstd::prelude::*;
use crate::error::Error;
use crate::syntax::{
    ConstExpr, ConstFields, Fields, Mutability, Name, Names, Params, ProcDefs, Procedure, Type,
};

verus! {

impl Fields {
    /// The type under the first occurrence of the name.
    pub open spec fn lookup(self, name: Name) -> Option<Type>
        decreases self,
    {
        match self {
            Fields::Nil => None,
            Fields::Cons(n, t, rest) => if n == name {
                Some(t)
            } else {
                rest.lookup(name)
            },
        }
    }

    /// The type under the first occurrence of the name.
    pub fn get(&self, name: &Name) -> (r: Option<&Type>)
        ensures
            match r {
                Some(t) => self.lookup(*name) == Some(*t),
                None => self.lookup(*name) is None,
            },
        decreases self,
    {
        match self {
            Fields::Nil => None,
            Fields::Cons(n, t, rest) => if n.is_same(name) {
                Some(t)
            } else {
                rest.get(name)
            },
        }
    }

    /// The list with `other` behind it.
    pub open spec fn chain(self, other: Fields) -> Fields
        decreases self,
    {
        match self {
            Fields::Nil => other,
            Fields::Cons(n, t, rest) => Fields::Cons(n, t, Box::new(rest.chain(other))),
        }
    }

    /// A copy of the list with `other` behind it.
    pub fn prepend_to(&self, other: Fields) -> (r: Fields)
        ensures
            r == self.chain(other),
        decreases self,
    {
        match self {
            Fields::Nil => other,
            Fields::Cons(n, t, rest) => Fields::Cons(
                n.clone(),
                t.clone(),
                Box::new(rest.prepend_to(other)),
            ),
        }
    }
}

impl ConstFields {
    /// The constant under the first occurrence of the name.
    pub open spec fn lookup(self, name: Name) -> Option<ConstExpr>
        decreases self,
    {
        match self {
            ConstFields::Nil => None,
            ConstFields::Cons(n, c, rest) => if n == name {
                Some(c)
            } else {
                rest.lookup(name)
            },
        }
    }

    /// The constant under the first occurrence of the name.
    pub fn get(&self, name: &Name) -> (r: Option<&ConstExpr>)
        ensures
            match r {
                Some(c) => self.lookup(*name) == Some(*c),
                None => self.lookup(*name) is None,
            },
        decreases self,
    {
        match self {
            ConstFields::Nil => None,
            ConstFields::Cons(n, c, rest) => if n.is_same(name) {
                Some(c)
            } else {
                rest.get(name)
            },
        }
    }

    /// The list with `other` behind it.
    pub open spec fn chain(self, other: ConstFields) -> ConstFields
        decreases self,
    {
        match self {
            ConstFields::Nil => other,
            ConstFields::Cons(n, c, rest) => ConstFields::Cons(n, c, Box::new(rest.chain(other))),
        }
    }

    /// A copy of the list with `other` behind it.
    pub fn prepend_to(&self, other: ConstFields) -> (r: ConstFields)
        ensures
            r == self.chain(other),
        decreases self,
    {
        match self {
            ConstFields::Nil => other,
            ConstFields::Cons(n, c, rest) => ConstFields::Cons(
                n.clone(),
                c.clone(),
                Box::new(rest.prepend_to(other)),
            ),
        }
    }
}

impl ProcDefs {
    /// The procedure under the first occurrence of the name.
    pub open spec fn lookup(self, name: Name) -> Option<Procedure>
        decreases self,
    {
        match self {
            ProcDefs::Nil => None,
            ProcDefs::Cons(n, p, rest) => if n == name {
                Some(p)
            } else {
                rest.lookup(name)
            },
        }
    }

    /// The procedure under the first occurrence of the name.
    pub fn get(&self, name: &Name) -> (r: Option<&Procedure>)
        ensures
            match r {
                Some(p) => self.lookup(*name) == Some(*p),
                None => self.lookup(*name) is None,
            },
        decreases self,
    {
        match self {
            ProcDefs::Nil => None,
            ProcDefs::Cons(n, p, rest) => if n.is_same(name) {
                Some(p)
            } else {
                rest.get(name)
            },
        }
    }

    /// The list with `other` behind it.
    pub open spec fn chain(self, other: ProcDefs) -> ProcDefs
        decreases self,
    {
        match self {
            ProcDefs::Nil => other,
            ProcDefs::Cons(n, p, rest) => ProcDefs::Cons(n, p, Box::new(rest.chain(other))),
        }
    }

    /// A copy of the list with `other` behind it.
    pub fn prepend_to(&self, other: ProcDefs) -> (r: ProcDefs)
        ensures
            r == self.chain(other),
        decreases self,
    {
        match self {
            ProcDefs::Nil => other,
            ProcDefs::Cons(n, p, rest) => ProcDefs::Cons(
                n.clone(),
                p.clone(),
                Box::new(rest.prepend_to(other)),
            ),
        }
    }
}

impl Params {
    /// The mutability and type under the first occurrence of the name.
    pub open spec fn lookup(self, name: Name) -> Option<(Mutability, Type)>
        decreases self,
    {
        match self {
            Params::Nil => None,
            Params::Cons(n, m, t, rest) => if n == name {
                Some((m, t))
            } else {
                rest.lookup(name)
            },
        }
    }

    /// The mutability and type under the first occurrence of the name.
    pub fn get(&self, name: &Name) -> (r: Option<(Mutability, &Type)>)
        ensures
            match r {
                Some((m, t)) => self.lookup(*name) == Some((m, *t)),
                None => self.lookup(*name) is None,
            },
        decreases self,
    {
        match self {
            Params::Nil => None,
            Params::Cons(n, m, t, rest) => if n.is_same(name) {
                Some((*m, t))
            } else {
                rest.get(name)
            },
        }
    }

    /// The first parameter whose name is in `taken` or is used by an
    /// earlier parameter of the list.
    pub open spec fn clash(self, taken: Names) -> Option<Name>
        decreases self,
    {
        match self {
            Params::Nil => None,
            Params::Cons(n, _, _, rest) => if taken.contains(n) {
                Some(n)
            } else {
                rest.clash(Names::Cons(n, Box::new(taken)))
            },
        }
    }

    /// The first parameter whose name is in `taken` or is used by an
    /// earlier parameter of the list.
    pub fn find_clash(&self, taken: Names) -> (r: Option<Name>)
        ensures
            r == self.clash(taken),
        decreases self,
    {
        match self {
            Params::Nil => None,
            Params::Cons(n, _, _, rest) => if taken.has(n) {
                Some(n.clone())
            } else {
                rest.find_clash(Names::Cons(n.clone(), Box::new(taken)))
            },
        }
    }
}

/// Everything that is in scope at one point of a program.
///
/// Each table lists the innermost definition first. `frame` holds the
/// names of the variables that were defined since the scope was entered.
#[derive(Debug, PartialEq)]
pub struct Env {
    pub types: Fields,
    pub consts: ConstFields,
    pub procs: ProcDefs,
    pub vars: Params,
    pub frame: Names,
    /// The return type of the procedure whose body is being checked.
    pub expected_ret: Option<Type>,
}

impl Clone for Env {
    fn clone(&self) -> (r: Self)
        ensures
            r == *self,
    {
        let expected_ret = match &self.expected_ret {
            Some(t) => Some(t.clone()),
            None => None,
        };
        Env {
            types: self.types.clone(),
            consts: self.consts.clone(),
            procs: self.procs.clone(),
            vars: self.vars.clone(),
            frame: self.frame.clone(),
            expected_ret,
        }
    }
}

impl Env {
    /// The environment in which nothing is defined.
    pub open spec fn empty() -> Env {
        Env {
            types: Fields::Nil,
            consts: ConstFields::Nil,
            procs: ProcDefs::Nil,
            vars: Params::Nil,
            frame: Names::Nil,
            expected_ret: None,
        }
    }

    /// This environment seen from a scope that was just entered.
    pub open spec fn scope(self) -> Env {
        Env { frame: Names::Nil, ..self }
    }

    /// This environment with one more type.
    pub open spec fn with_type(self, name: Name, ty: Type) -> Env {
        Env { types: Fields::Cons(name, ty, Box::new(self.types)), ..self }
    }

    /// This environment with a block of types, the first of them innermost.
    pub open spec fn with_types(self, defs: Fields) -> Env {
        Env { types: defs.chain(self.types), ..self }
    }

    /// This environment with each name bound to a type of its own that
    /// equals no other: the way a type parameter is seen from inside a
    /// template.
    pub open spec fn with_opaque(self, names: Names) -> Env
        decreases names,
    {
        match names {
            Names::Nil => self,
            Names::Cons(n, rest) => self.with_type(
                n,
                Type::Unit(n, Box::new(Type::Void)),
            ).with_opaque(*rest),
        }
    }

    /// This environment with one more constant.
    pub open spec fn with_const(self, name: Name, value: ConstExpr) -> Env {
        Env { consts: ConstFields::Cons(name, value, Box::new(self.consts)), ..self }
    }

    /// This environment with a block of constants.
    pub open spec fn with_consts(self, defs: ConstFields) -> Env {
        Env { consts: defs.chain(self.consts), ..self }
    }

    /// This environment with one more procedure.
    pub open spec fn with_proc(self, name: Name, value: Procedure) -> Env {
        Env { procs: ProcDefs::Cons(name, value, Box::new(self.procs)), ..self }
    }

    /// This environment with a block of procedures.
    pub open spec fn with_procs(self, defs: ProcDefs) -> Env {
        Env { procs: defs.chain(self.procs), ..self }
    }

    /// This environment with one more variable in its frame.
    pub open spec fn with_var(self, name: Name, mutability: Mutability, ty: Type) -> Env {
        Env {
            vars: Params::Cons(name, mutability, ty, Box::new(self.vars)),
            frame: Names::Cons(name, Box::new(self.frame)),
            ..self
        }
    }

    /// This environment with every parameter of the list as a variable.
    pub open spec fn with_params(self, args: Params) -> Env
        decreases args,
    {
        match args {
            Params::Nil => self,
            Params::Cons(n, m, t, rest) => self.with_var(n, m, t).with_params(*rest),
        }
    }

    /// This environment with the parameters of a procedure, or the error
    /// for the first parameter whose name is taken in the frame.
    pub open spec fn with_args(self, args: Params) -> Result<Env, Error> {
        match args.clash(self.frame) {
            Some(name) => Err(Error::DuplicateArgument(name)),
            None => Ok(self.with_params(args)),
        }
    }

    /// This environment with the expected return type set.
    pub open spec fn with_expected_ret(self, ty: Type) -> Env {
        Env { expected_ret: Some(ty), ..self }
    }

    /// An environment in which nothing is defined.
    pub fn new() -> (r: Env)
        ensures
            r == Env::empty(),
    {
        Env {
            types: Fields::Nil,
            consts: ConstFields::Nil,
            procs: ProcDefs::Nil,
            vars: Params::Nil,
            frame: Names::Nil,
            expected_ret: None,
        }
    }

    /// A copy of this environment with a new, empty frame on top.
    pub fn new_scope(&self) -> (r: Env)
        ensures
            r == self.scope(),
    {
        let mut inner = self.clone();
        inner.frame = Names::Nil;
        inner
    }

    /// Defines a type; it shadows an earlier type of the same name.
    pub fn define_type(&mut self, name: Name, ty: Type)
        ensures
            *final(self) == old(self).with_type(name, ty),
    {
        let mut rest = Fields::Nil;
        core::mem::swap(&mut self.types, &mut rest);
        self.types = Fields::Cons(name, ty, Box::new(rest));
    }

    /// Defines a block of types at once.
    pub fn define_types(&mut self, defs: &Fields)
        ensures
            *final(self) == old(self).with_types(*defs),
    {
        let mut rest = Fields::Nil;
        core::mem::swap(&mut self.types, &mut rest);
        self.types = defs.prepend_to(rest);
    }

    /// Defines each name as a type of its own that equals no other.
    pub fn define_opaque(&mut self, names: &Names)
        ensures
            *final(self) == old(self).with_opaque(*names),
        decreases names,
    {
        match names {
            Names::Nil => {},
            Names::Cons(n, rest) => {
                self.define_type(n.clone(), Type::Unit(n.clone(), Box::new(Type::Void)));
                self.define_opaque(rest);
            },
        }
    }

    /// Defines a constant; it shadows an earlier constant of the same name.
    pub fn define_const(&mut self, name: Name, value: ConstExpr)
        ensures
            *final(self) == old(self).with_const(name, value),
    {
        let mut rest = ConstFields::Nil;
        core::mem::swap(&mut self.consts, &mut rest);
        self.consts = ConstFields::Cons(name, value, Box::new(rest));
    }

    /// Defines a block of constants at once.
    pub fn define_consts(&mut self, defs: &ConstFields)
        ensures
            *final(self) == old(self).with_consts(*defs),
    {
        let mut rest = ConstFields::Nil;
        core::mem::swap(&mut self.consts, &mut rest);
        self.consts = defs.prepend_to(rest);
    }

    /// Defines a procedure; it shadows an earlier procedure of the same
    /// name.
    pub fn define_proc(&mut self, name: Name, value: Procedure)
        ensures
            *final(self) == old(self).with_proc(name, value),
    {
        let mut rest = ProcDefs::Nil;
        core::mem::swap(&mut self.procs, &mut rest);
        self.procs = ProcDefs::Cons(name, value, Box::new(rest));
    }

    /// Defines a block of procedures at once.
    pub fn define_procs(&mut self, defs: &ProcDefs)
        ensures
            *final(self) == old(self).with_procs(*defs),
    {
        let mut rest = ProcDefs::Nil;
        core::mem::swap(&mut self.procs, &mut rest);
        self.procs = defs.prepend_to(rest);
    }

    /// Defines a variable in the current frame; it shadows an earlier
    /// variable of the same name.
    pub fn define_var(&mut self, name: Name, mutability: Mutability, ty: Type)
        ensures
            *final(self) == old(self).with_var(name, mutability, ty),
    {
        let mut rest = Params::Nil;
        core::mem::swap(&mut self.vars, &mut rest);
        let mut frame = Names::Nil;
        core::mem::swap(&mut self.frame, &mut frame);
        self.frame = Names::Cons(name.clone(), Box::new(frame));
        self.vars = Params::Cons(name, mutability, ty, Box::new(rest));
    }

    fn define_params(&mut self, args: &Params)
        ensures
            *final(self) == old(self).with_params(*args),
        decreases args,
    {
        match args {
            Params::Nil => {},
            Params::Cons(n, m, t, rest) => {
                self.define_var(n.clone(), *m, t.clone());
                self.define_params(rest);
            },
        }
    }

    /// Binds the parameters of a procedure as variables of the current
    /// frame, the last parameter innermost.
    ///
    /// Fails, and defines nothing, when a parameter has the name of a
    /// variable of the frame or of an earlier parameter.
    pub fn define_args(&mut self, args: &Params) -> (r: Result<(), Error>)
        ensures
            match old(self).with_args(*args) {
                Ok(env) => r is Ok && *final(self) == env,
                Err(e) => r == Err::<(), Error>(e) && *final(self) == *old(self),
            },
    {
        match args.find_clash(self.frame.clone()) {
            Some(name) => Err(Error::DuplicateArgument(name)),
            None => {
                self.define_params(args);
                Ok(())
            },
        }
    }

    /// Sets the return type that the body being checked is expected to
    /// have.
    pub fn set_expected_return_type(&mut self, ty: Type)
        ensures
            *final(self) == old(self).with_expected_ret(ty),
    {
        self.expected_ret = Some(ty);
    }

    /// The return type that the body being checked is expected to have.
    pub fn get_expected_return_type(&self) -> (r: Option<&Type>)
        ensures
            match r {
                Some(t) => self.expected_ret == Some(*t),
                None => self.expected_ret is None,
            },
    {
        self.expected_ret.as_ref()
    }

    /// The innermost type of this name.
    pub fn get_type(&self, name: &Name) -> (r: Option<&Type>)
        ensures
            match r {
                Some(t) => self.types.lookup(*name) == Some(*t),
                None => self.types.lookup(*name) is None,
            },
    {
        self.types.get(name)
    }

    /// The innermost constant of this name.
    pub fn get_const(&self, name: &Name) -> (r: Option<&ConstExpr>)
        ensures
            match r {
                Some(c) => self.consts.lookup(*name) == Some(*c),
                None => self.consts.lookup(*name) is None,
            },
    {
        self.consts.get(name)
    }

    /// The innermost procedure of this name.
    pub fn get_proc(&self, name: &Name) -> (r: Option<&Procedure>)
        ensures
            match r {
                Some(p) => self.procs.lookup(*name) == Some(*p),
                None => self.procs.lookup(*name) is None,
            },
    {
        self.procs.get(name)
    }

    /// The mutability and type of the innermost variable of this name.
    pub fn get_var(&self, name: &Name) -> (r: Option<(Mutability, &Type)>)
        ensures
            match r {
                Some((m, t)) => self.vars.lookup(*name) == Some((m, *t)),
                None => self.vars.lookup(*name) is None,
            },
    {
        self.vars.get(name)
    }
}

} // verus!
