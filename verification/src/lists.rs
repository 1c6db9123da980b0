//! Lists and sequences: every list of the syntax can be built from a
//! vector, and holds the items of the vector in their order.
use vstd::prelude::*;
use crate::syntax::{
    ConstExpr, ConstExprs, ConstFields, Expr, ExprFields, Exprs, Fields, Mutability, Name,
    Names, Params, ProcDefs, Procedure, Signatures, Type, Types, VarDefs,
};

verus! {

impl Name {
    /// The list of the characters of a sequence, in their order.
    pub open spec fn from_seq(s: Seq<char>) -> Name
        decreases s.len(),
    {
        if s.len() == 0 {
            Name::Nil
        } else {
            Name::Cons(s[0], Box::new(Name::from_seq(s.subrange(1, s.len() as int))))
        }
    }

    /// The list of the characters of a vector, in their order.
    pub fn from_vec(v: Vec<char>) -> (r: Name)
        ensures
            r == Name::from_seq(v@),
    {
        let ghost all = v@;
        let mut v = v;
        let mut list = Name::Nil;
        while v.len() > 0
            invariant
                v@.len() <= all.len(),
                v@ == all.subrange(0, v@.len() as int),
                list == Name::from_seq(all.subrange(v@.len() as int, all.len() as int)),
            decreases v.len(),
        {
            let ghost k = v@.len() as int;
            let x = v.pop().unwrap();
            proof {
                let s = all.subrange(k - 1, all.len() as int);
                assert(s.subrange(1, s.len() as int) =~= all.subrange(k, all.len() as int));
                assert(v@ =~= all.subrange(0, k - 1));
            }
            list = Name::Cons(x, Box::new(list));
        }
        proof {
            assert(all.subrange(0, all.len() as int) =~= all);
        }
        list
    }
}

impl Names {
    /// The list of the names of a sequence, in their order.
    pub open spec fn from_seq(s: Seq<Name>) -> Names
        decreases s.len(),
    {
        if s.len() == 0 {
            Names::Nil
        } else {
            Names::Cons(s[0], Box::new(Names::from_seq(s.subrange(1, s.len() as int))))
        }
    }

    /// The list of the names of a vector, in their order.
    pub fn from_vec(v: Vec<Name>) -> (r: Names)
        ensures
            r == Names::from_seq(v@),
    {
        let ghost all = v@;
        let mut v = v;
        let mut list = Names::Nil;
        while v.len() > 0
            invariant
                v@.len() <= all.len(),
                v@ == all.subrange(0, v@.len() as int),
                list == Names::from_seq(all.subrange(v@.len() as int, all.len() as int)),
            decreases v.len(),
        {
            let ghost k = v@.len() as int;
            let x = v.pop().unwrap();
            proof {
                let s = all.subrange(k - 1, all.len() as int);
                assert(s.subrange(1, s.len() as int) =~= all.subrange(k, all.len() as int));
                assert(v@ =~= all.subrange(0, k - 1));
            }
            list = Names::Cons(x, Box::new(list));
        }
        proof {
            assert(all.subrange(0, all.len() as int) =~= all);
        }
        list
    }
}

impl Types {
    /// The list of the types of a sequence, in their order.
    pub open spec fn from_seq(s: Seq<Type>) -> Types
        decreases s.len(),
    {
        if s.len() == 0 {
            Types::Nil
        } else {
            Types::Cons(s[0], Box::new(Types::from_seq(s.subrange(1, s.len() as int))))
        }
    }

    /// The list of the types of a vector, in their order.
    pub fn from_vec(v: Vec<Type>) -> (r: Types)
        ensures
            r == Types::from_seq(v@),
    {
        let ghost all = v@;
        let mut v = v;
        let mut list = Types::Nil;
        while v.len() > 0
            invariant
                v@.len() <= all.len(),
                v@ == all.subrange(0, v@.len() as int),
                list == Types::from_seq(all.subrange(v@.len() as int, all.len() as int)),
            decreases v.len(),
        {
            let ghost k = v@.len() as int;
            let x = v.pop().unwrap();
            proof {
                let s = all.subrange(k - 1, all.len() as int);
                assert(s.subrange(1, s.len() as int) =~= all.subrange(k, all.len() as int));
                assert(v@ =~= all.subrange(0, k - 1));
            }
            list = Types::Cons(x, Box::new(list));
        }
        proof {
            assert(all.subrange(0, all.len() as int) =~= all);
        }
        list
    }
}

impl Fields {
    /// The list of the named types of a sequence, in their order.
    pub open spec fn from_seq(s: Seq<(Name, Type)>) -> Fields
        decreases s.len(),
    {
        if s.len() == 0 {
            Fields::Nil
        } else {
            Fields::Cons(s[0].0, s[0].1, Box::new(Fields::from_seq(s.subrange(1, s.len() as int))))
        }
    }

    /// The list of the named types of a vector, in their order.
    pub fn from_vec(v: Vec<(Name, Type)>) -> (r: Fields)
        ensures
            r == Fields::from_seq(v@),
    {
        let ghost all = v@;
        let mut v = v;
        let mut list = Fields::Nil;
        while v.len() > 0
            invariant
                v@.len() <= all.len(),
                v@ == all.subrange(0, v@.len() as int),
                list == Fields::from_seq(all.subrange(v@.len() as int, all.len() as int)),
            decreases v.len(),
        {
            let ghost k = v@.len() as int;
            let x = v.pop().unwrap();
            proof {
                let s = all.subrange(k - 1, all.len() as int);
                assert(s.subrange(1, s.len() as int) =~= all.subrange(k, all.len() as int));
                assert(v@ =~= all.subrange(0, k - 1));
            }
            list = Fields::Cons(x.0, x.1, Box::new(list));
        }
        proof {
            assert(all.subrange(0, all.len() as int) =~= all);
        }
        list
    }
}

impl Params {
    /// The list of the parameters of a sequence, in their order.
    pub open spec fn from_seq(s: Seq<(Name, Mutability, Type)>) -> Params
        decreases s.len(),
    {
        if s.len() == 0 {
            Params::Nil
        } else {
            Params::Cons(s[0].0, s[0].1, s[0].2, Box::new(Params::from_seq(s.subrange(1, s.len() as int))))
        }
    }

    /// The list of the parameters of a vector, in their order.
    pub fn from_vec(v: Vec<(Name, Mutability, Type)>) -> (r: Params)
        ensures
            r == Params::from_seq(v@),
    {
        let ghost all = v@;
        let mut v = v;
        let mut list = Params::Nil;
        while v.len() > 0
            invariant
                v@.len() <= all.len(),
                v@ == all.subrange(0, v@.len() as int),
                list == Params::from_seq(all.subrange(v@.len() as int, all.len() as int)),
            decreases v.len(),
        {
            let ghost k = v@.len() as int;
            let x = v.pop().unwrap();
            proof {
                let s = all.subrange(k - 1, all.len() as int);
                assert(s.subrange(1, s.len() as int) =~= all.subrange(k, all.len() as int));
                assert(v@ =~= all.subrange(0, k - 1));
            }
            list = Params::Cons(x.0, x.1, x.2, Box::new(list));
        }
        proof {
            assert(all.subrange(0, all.len() as int) =~= all);
        }
        list
    }
}

impl Signatures {
    /// The list of the rules of a sequence, in their order.
    pub open spec fn from_seq(s: Seq<(Types, Type)>) -> Signatures
        decreases s.len(),
    {
        if s.len() == 0 {
            Signatures::Nil
        } else {
            Signatures::Cons(s[0].0, s[0].1, Box::new(Signatures::from_seq(s.subrange(1, s.len() as int))))
        }
    }

    /// The list of the rules of a vector, in their order.
    pub fn from_vec(v: Vec<(Types, Type)>) -> (r: Signatures)
        ensures
            r == Signatures::from_seq(v@),
    {
        let ghost all = v@;
        let mut v = v;
        let mut list = Signatures::Nil;
        while v.len() > 0
            invariant
                v@.len() <= all.len(),
                v@ == all.subrange(0, v@.len() as int),
                list == Signatures::from_seq(all.subrange(v@.len() as int, all.len() as int)),
            decreases v.len(),
        {
            let ghost k = v@.len() as int;
            let x = v.pop().unwrap();
            proof {
                let s = all.subrange(k - 1, all.len() as int);
                assert(s.subrange(1, s.len() as int) =~= all.subrange(k, all.len() as int));
                assert(v@ =~= all.subrange(0, k - 1));
            }
            list = Signatures::Cons(x.0, x.1, Box::new(list));
        }
        proof {
            assert(all.subrange(0, all.len() as int) =~= all);
        }
        list
    }
}

impl ConstExprs {
    /// The list of the constants of a sequence, in their order.
    pub open spec fn from_seq(s: Seq<ConstExpr>) -> ConstExprs
        decreases s.len(),
    {
        if s.len() == 0 {
            ConstExprs::Nil
        } else {
            ConstExprs::Cons(s[0], Box::new(ConstExprs::from_seq(s.subrange(1, s.len() as int))))
        }
    }

    /// The list of the constants of a vector, in their order.
    pub fn from_vec(v: Vec<ConstExpr>) -> (r: ConstExprs)
        ensures
            r == ConstExprs::from_seq(v@),
    {
        let ghost all = v@;
        let mut v = v;
        let mut list = ConstExprs::Nil;
        while v.len() > 0
            invariant
                v@.len() <= all.len(),
                v@ == all.subrange(0, v@.len() as int),
                list == ConstExprs::from_seq(all.subrange(v@.len() as int, all.len() as int)),
            decreases v.len(),
        {
            let ghost k = v@.len() as int;
            let x = v.pop().unwrap();
            proof {
                let s = all.subrange(k - 1, all.len() as int);
                assert(s.subrange(1, s.len() as int) =~= all.subrange(k, all.len() as int));
                assert(v@ =~= all.subrange(0, k - 1));
            }
            list = ConstExprs::Cons(x, Box::new(list));
        }
        proof {
            assert(all.subrange(0, all.len() as int) =~= all);
        }
        list
    }
}

impl ConstFields {
    /// The list of the named constants of a sequence, in their order.
    pub open spec fn from_seq(s: Seq<(Name, ConstExpr)>) -> ConstFields
        decreases s.len(),
    {
        if s.len() == 0 {
            ConstFields::Nil
        } else {
            ConstFields::Cons(s[0].0, s[0].1, Box::new(ConstFields::from_seq(s.subrange(1, s.len() as int))))
        }
    }

    /// The list of the named constants of a vector, in their order.
    pub fn from_vec(v: Vec<(Name, ConstExpr)>) -> (r: ConstFields)
        ensures
            r == ConstFields::from_seq(v@),
    {
        let ghost all = v@;
        let mut v = v;
        let mut list = ConstFields::Nil;
        while v.len() > 0
            invariant
                v@.len() <= all.len(),
                v@ == all.subrange(0, v@.len() as int),
                list == ConstFields::from_seq(all.subrange(v@.len() as int, all.len() as int)),
            decreases v.len(),
        {
            let ghost k = v@.len() as int;
            let x = v.pop().unwrap();
            proof {
                let s = all.subrange(k - 1, all.len() as int);
                assert(s.subrange(1, s.len() as int) =~= all.subrange(k, all.len() as int));
                assert(v@ =~= all.subrange(0, k - 1));
            }
            list = ConstFields::Cons(x.0, x.1, Box::new(list));
        }
        proof {
            assert(all.subrange(0, all.len() as int) =~= all);
        }
        list
    }
}

impl Exprs {
    /// The list of the expressions of a sequence, in their order.
    pub open spec fn from_seq(s: Seq<Expr>) -> Exprs
        decreases s.len(),
    {
        if s.len() == 0 {
            Exprs::Nil
        } else {
            Exprs::Cons(s[0], Box::new(Exprs::from_seq(s.subrange(1, s.len() as int))))
        }
    }

    /// The list of the expressions of a vector, in their order.
    pub fn from_vec(v: Vec<Expr>) -> (r: Exprs)
        ensures
            r == Exprs::from_seq(v@),
    {
        let ghost all = v@;
        let mut v = v;
        let mut list = Exprs::Nil;
        while v.len() > 0
            invariant
                v@.len() <= all.len(),
                v@ == all.subrange(0, v@.len() as int),
                list == Exprs::from_seq(all.subrange(v@.len() as int, all.len() as int)),
            decreases v.len(),
        {
            let ghost k = v@.len() as int;
            let x = v.pop().unwrap();
            proof {
                let s = all.subrange(k - 1, all.len() as int);
                assert(s.subrange(1, s.len() as int) =~= all.subrange(k, all.len() as int));
                assert(v@ =~= all.subrange(0, k - 1));
            }
            list = Exprs::Cons(x, Box::new(list));
        }
        proof {
            assert(all.subrange(0, all.len() as int) =~= all);
        }
        list
    }
}

impl ExprFields {
    /// The list of the named expressions of a sequence, in their order.
    pub open spec fn from_seq(s: Seq<(Name, Expr)>) -> ExprFields
        decreases s.len(),
    {
        if s.len() == 0 {
            ExprFields::Nil
        } else {
            ExprFields::Cons(s[0].0, s[0].1, Box::new(ExprFields::from_seq(s.subrange(1, s.len() as int))))
        }
    }

    /// The list of the named expressions of a vector, in their order.
    pub fn from_vec(v: Vec<(Name, Expr)>) -> (r: ExprFields)
        ensures
            r == ExprFields::from_seq(v@),
    {
        let ghost all = v@;
        let mut v = v;
        let mut list = ExprFields::Nil;
        while v.len() > 0
            invariant
                v@.len() <= all.len(),
                v@ == all.subrange(0, v@.len() as int),
                list == ExprFields::from_seq(all.subrange(v@.len() as int, all.len() as int)),
            decreases v.len(),
        {
            let ghost k = v@.len() as int;
            let x = v.pop().unwrap();
            proof {
                let s = all.subrange(k - 1, all.len() as int);
                assert(s.subrange(1, s.len() as int) =~= all.subrange(k, all.len() as int));
                assert(v@ =~= all.subrange(0, k - 1));
            }
            list = ExprFields::Cons(x.0, x.1, Box::new(list));
        }
        proof {
            assert(all.subrange(0, all.len() as int) =~= all);
        }
        list
    }
}

impl ProcDefs {
    /// The list of the named procedures of a sequence, in their order.
    pub open spec fn from_seq(s: Seq<(Name, Procedure)>) -> ProcDefs
        decreases s.len(),
    {
        if s.len() == 0 {
            ProcDefs::Nil
        } else {
            ProcDefs::Cons(s[0].0, s[0].1, Box::new(ProcDefs::from_seq(s.subrange(1, s.len() as int))))
        }
    }

    /// The number of named procedures in the list.
    pub open spec fn len(self) -> nat
        decreases self,
    {
        match self {
            ProcDefs::Nil => 0,
            ProcDefs::Cons(_, _, rest) => 1 + rest.len(),
        }
    }

    /// The list of the named procedures of a vector, in their order.
    pub fn from_vec(v: Vec<(Name, Procedure)>) -> (r: ProcDefs)
        ensures
            r == ProcDefs::from_seq(v@),
    {
        let ghost all = v@;
        let mut v = v;
        let mut list = ProcDefs::Nil;
        while v.len() > 0
            invariant
                v@.len() <= all.len(),
                v@ == all.subrange(0, v@.len() as int),
                list == ProcDefs::from_seq(all.subrange(v@.len() as int, all.len() as int)),
            decreases v.len(),
        {
            let ghost k = v@.len() as int;
            let x = v.pop().unwrap();
            proof {
                let s = all.subrange(k - 1, all.len() as int);
                assert(s.subrange(1, s.len() as int) =~= all.subrange(k, all.len() as int));
                assert(v@ =~= all.subrange(0, k - 1));
            }
            list = ProcDefs::Cons(x.0, x.1, Box::new(list));
        }
        proof {
            assert(all.subrange(0, all.len() as int) =~= all);
        }
        list
    }
}

impl VarDefs {
    /// The list of the variable definitions of a sequence, in their order.
    pub open spec fn from_seq(s: Seq<(Name, Mutability, Option<Type>, Expr)>) -> VarDefs
        decreases s.len(),
    {
        if s.len() == 0 {
            VarDefs::Nil
        } else {
            VarDefs::Cons(s[0].0, s[0].1, s[0].2, s[0].3, Box::new(VarDefs::from_seq(s.subrange(1, s.len() as int))))
        }
    }

    /// The list of the variable definitions of a vector, in their order.
    pub fn from_vec(v: Vec<(Name, Mutability, Option<Type>, Expr)>) -> (r: VarDefs)
        ensures
            r == VarDefs::from_seq(v@),
    {
        let ghost all = v@;
        let mut v = v;
        let mut list = VarDefs::Nil;
        while v.len() > 0
            invariant
                v@.len() <= all.len(),
                v@ == all.subrange(0, v@.len() as int),
                list == VarDefs::from_seq(all.subrange(v@.len() as int, all.len() as int)),
            decreases v.len(),
        {
            let ghost k = v@.len() as int;
            let x = v.pop().unwrap();
            proof {
                let s = all.subrange(k - 1, all.len() as int);
                assert(s.subrange(1, s.len() as int) =~= all.subrange(k, all.len() as int));
                assert(v@ =~= all.subrange(0, k - 1));
            }
            list = VarDefs::Cons(x.0, x.1, x.2, x.3, Box::new(list));
        }
        proof {
            assert(all.subrange(0, all.len() as int) =~= all);
        }
        list
    }
}

} // verus!
