//! Names: their text, their order, and lists of them in canonical order.
//!
//! Names are ordered as words are in a dictionary, character by
//! character. The order is strict and total, so a set of names has exactly
//! one listing in which each name stands before the next.
use vstd::prelude::*;
use vstd::string::StrSliceExecFns;
use crate::syntax::{ConstFields, ExprFields, Fields, Name, Names};

verus! {

impl Name {
    /// The characters of the name, in order.
    pub open spec fn text(self) -> Seq<char>
        decreases self,
    {
        match self {
            Name::Nil => Seq::empty(),
            Name::Cons(c, rest) => seq![c] + rest.text(),
        }
    }

    /// The name that reads as the string does.
    pub fn from_str(s: &str) -> (r: Name)
        ensures
            r == Name::from_seq(s@),
    {
        let mut i: usize = s.unicode_len();
        let mut list = Name::Nil;
        while i > 0
            invariant
                i <= s@.len(),
                list == Name::from_seq(s@.subrange(i as int, s@.len() as int)),
            decreases i,
        {
            i = i - 1;
            let c = s.get_char(i);
            proof {
                let t = s@.subrange(i as int, s@.len() as int);
                assert(t.subrange(1, t.len() as int) =~= s@.subrange(i + 1, s@.len() as int));
            }
            list = Name::Cons(c, Box::new(list));
        }
        proof {
            assert(s@.subrange(0, s@.len() as int) =~= s@);
        }
        list
    }

    /// Does the name stand before the other in the dictionary?
    pub open spec fn before(self, other: Name) -> bool
        decreases self,
    {
        match (self, other) {
            (Name::Nil, Name::Nil) => false,
            (Name::Nil, Name::Cons(_, _)) => true,
            (Name::Cons(_, _), Name::Nil) => false,
            (Name::Cons(a, x), Name::Cons(b, y)) => (a as u32) < (b as u32) || (a == b
                && x.before(*y)),
        }
    }

    /// Does the name stand before the other in the dictionary?
    pub fn is_before(&self, other: &Name) -> (r: bool)
        ensures
            r == self.before(*other),
        decreases self,
    {
        match (self, other) {
            (Name::Nil, Name::Nil) => false,
            (Name::Nil, Name::Cons(_, _)) => true,
            (Name::Cons(_, _), Name::Nil) => false,
            (Name::Cons(a, x), Name::Cons(b, y)) => (*a as u32) < (*b as u32) || (*a == *b
                && x.is_before(y)),
        }
    }

    /// Of two names exactly one holds: the first stands before the second,
    /// the second before the first, or they are equal.
    pub proof fn lemma_order_total(self, other: Name)
        ensures
            self.before(other) || other.before(self) || self == other,
            !(self.before(other) && other.before(self)),
            !(self.before(other) && self == other),
        decreases self,
    {
        match (self, other) {
            (Name::Cons(_, x), Name::Cons(_, y)) => {
                x.lemma_order_total(*y);
            },
            _ => {},
        }
    }

    /// A name that stands before a second, which stands before a third,
    /// stands before the third.
    pub proof fn lemma_order_transitive(self, middle: Name, last: Name)
        requires
            self.before(middle),
            middle.before(last),
        ensures
            self.before(last),
        decreases self,
    {
        match (self, middle, last) {
            (Name::Cons(a, x), Name::Cons(b, y), Name::Cons(c, z)) => {
                if a == b && b == c {
                    x.lemma_order_transitive(*y, *z);
                }
            },
            _ => {},
        }
    }
}

impl Names {
    /// Does each name of the list stand before the next?
    pub open spec fn sorted(self) -> bool
        decreases self,
    {
        match self {
            Names::Nil => true,
            Names::Cons(n, rest) => rest.sorted() && (*rest matches Names::Cons(m, _)
                ==> n.before(m)),
        }
    }

    /// The sorted list with the name in its place, once.
    pub open spec fn placed(self, name: Name) -> Names
        decreases self,
    {
        match self {
            Names::Nil => Names::Cons(name, Box::new(Names::Nil)),
            Names::Cons(n, rest) => if name == n {
                self
            } else if name.before(n) {
                Names::Cons(name, Box::new(self))
            } else {
                Names::Cons(n, Box::new(rest.placed(name)))
            },
        }
    }

    /// The names of the list in canonical order: each once, each before the
    /// next.
    pub open spec fn canonical(self) -> Names
        decreases self,
    {
        match self {
            Names::Nil => Names::Nil,
            Names::Cons(n, rest) => rest.canonical().placed(n),
        }
    }

    /// Puts the name in its place in a sorted list.
    pub fn place(self, name: Name) -> (r: Names)
        ensures
            r == self.placed(name),
        decreases self,
    {
        match self {
            Names::Nil => Names::Cons(name, Box::new(Names::Nil)),
            Names::Cons(n, rest) => if name.is_same(&n) {
                Names::Cons(n, rest)
            } else if name.is_before(&n) {
                Names::Cons(name, Box::new(Names::Cons(n, rest)))
            } else {
                Names::Cons(n, Box::new((*rest).place(name)))
            },
        }
    }

    /// The names of the list in canonical order.
    pub fn to_canonical(&self) -> (r: Names)
        ensures
            r == self.canonical(),
        decreases self,
    {
        match self {
            Names::Nil => Names::Nil,
            Names::Cons(n, rest) => rest.to_canonical().place(n.clone()),
        }
    }

    /// Placing a name keeps a sorted list sorted, and adds the name to
    /// what the list holds and nothing else.
    pub proof fn lemma_placed(self, name: Name, other: Name)
        ensures
            self.sorted() ==> self.placed(name).sorted(),
            self.placed(name).contains(other) == (other == name || self.contains(other)),
            self.placed(name) matches Names::Cons(first, _) && (first == name || (
            self matches Names::Cons(n, _) && first == n)),
        decreases self,
    {
        match self {
            Names::Nil => {},
            Names::Cons(n, rest) => {
                rest.lemma_placed(name, other);
                name.lemma_order_total(n);
            },
        }
    }

    /// The canonical order of a list is sorted and holds what the list
    /// holds.
    pub proof fn lemma_canonical(self, other: Name)
        ensures
            self.canonical().sorted(),
            self.canonical().contains(other) == self.contains(other),
        decreases self,
    {
        match self {
            Names::Nil => {},
            Names::Cons(n, rest) => {
                rest.lemma_canonical(other);
                rest.canonical().lemma_placed(n, other);
            },
        }
    }

    /// In a sorted list, the first name stands before every other.
    pub proof fn lemma_first_is_least(self, other: Name)
        requires
            self.sorted(),
            self matches Names::Cons(_, rest) && rest.contains(other),
        ensures
            self matches Names::Cons(n, _) && n.before(other),
        decreases self,
    {
        match self {
            Names::Cons(n, rest) => match *rest {
                Names::Cons(m, tail) => {
                    if m != other {
                        rest.lemma_first_is_least(other);
                        n.lemma_order_transitive(m, other);
                    }
                },
                _ => {},
            },
            _ => {},
        }
    }

    /// Two sorted lists that hold the same names are equal.
    pub proof fn lemma_sorted_unique(self, other: Names)
        requires
            self.sorted(),
            other.sorted(),
            forall|n: Name| self.contains(n) == other.contains(n),
        ensures
            self == other,
        decreases self,
    {
        match (self, other) {
            (Names::Nil, Names::Nil) => {},
            (Names::Nil, Names::Cons(m, _)) => {
                assert(other.contains(m));
            },
            (Names::Cons(n, _), Names::Nil) => {
                assert(self.contains(n));
            },
            (Names::Cons(n, rest), Names::Cons(m, tail)) => {
                assert(self.contains(n));
                assert(other.contains(m));
                n.lemma_order_total(m);
                if n != m {
                    assert(other.contains(n));
                    assert(self.contains(m));
                    other.lemma_first_is_least(n);
                    self.lemma_first_is_least(m);
                }
                assert forall|k: Name| rest.contains(k) == tail.contains(k) by {
                    n.lemma_order_total(k);
                    if rest.contains(k) {
                        self.lemma_first_is_least(k);
                        assert(other.contains(k));
                    }
                    if tail.contains(k) {
                        other.lemma_first_is_least(k);
                        assert(self.contains(k));
                    }
                }
                rest.lemma_sorted_unique(*tail);
            },
        }
    }
}

impl Names {
    /// Does no name occur twice?
    pub open spec fn distinct(self) -> bool
        decreases self,
    {
        match self {
            Names::Nil => true,
            Names::Cons(n, rest) => !rest.contains(n) && rest.distinct(),
        }
    }

    /// The first name of the list that occurs in it again.
    pub open spec fn repeated(self) -> Option<Name>
        decreases self,
    {
        match self {
            Names::Nil => None,
            Names::Cons(n, rest) => if rest.contains(n) {
                Some(n)
            } else {
                rest.repeated()
            },
        }
    }

    /// The first name of the list that occurs in it again.
    pub fn find_repeated(&self) -> (r: Option<Name>)
        ensures
            r == self.repeated(),
            r is None <==> self.distinct(),
        decreases self,
    {
        match self {
            Names::Nil => None,
            Names::Cons(n, rest) => if rest.has(n) {
                Some(n.clone())
            } else {
                rest.find_repeated()
            },
        }
    }

    /// A list has a repeated name exactly when its names are not distinct.
    pub proof fn lemma_repeated(self)
        ensures
            self.repeated() is None <==> self.distinct(),
        decreases self,
    {
        match self {
            Names::Nil => {},
            Names::Cons(_, rest) => {
                rest.lemma_repeated();
            },
        }
    }
}

impl Fields {
    /// The names of the fields, in order.
    pub open spec fn names(self) -> Names
        decreases self,
    {
        match self {
            Fields::Nil => Names::Nil,
            Fields::Cons(n, _, rest) => Names::Cons(n, Box::new(rest.names())),
        }
    }

    /// The names of the fields, in order.
    pub fn get_names(&self) -> (r: Names)
        ensures
            r == self.names(),
        decreases self,
    {
        match self {
            Fields::Nil => Names::Nil,
            Fields::Cons(n, _, rest) => Names::Cons(n.clone(), Box::new(rest.get_names())),
        }
    }
}

impl ConstFields {
    /// The names of the constants, in order.
    pub open spec fn names(self) -> Names
        decreases self,
    {
        match self {
            ConstFields::Nil => Names::Nil,
            ConstFields::Cons(n, _, rest) => Names::Cons(n, Box::new(rest.names())),
        }
    }

    /// The names of the constants, in order.
    pub fn get_names(&self) -> (r: Names)
        ensures
            r == self.names(),
        decreases self,
    {
        match self {
            ConstFields::Nil => Names::Nil,
            ConstFields::Cons(n, _, rest) => Names::Cons(n.clone(), Box::new(rest.get_names())),
        }
    }
}

impl ExprFields {
    /// The names of the expressions, in order.
    pub open spec fn names(self) -> Names
        decreases self,
    {
        match self {
            ExprFields::Nil => Names::Nil,
            ExprFields::Cons(n, _, rest) => Names::Cons(n, Box::new(rest.names())),
        }
    }

    /// The names of the expressions, in order.
    pub fn get_names(&self) -> (r: Names)
        ensures
            r == self.names(),
        decreases self,
    {
        match self {
            ExprFields::Nil => Names::Nil,
            ExprFields::Cons(n, _, rest) => Names::Cons(n.clone(), Box::new(rest.get_names())),
        }
    }
}

} // verus!
