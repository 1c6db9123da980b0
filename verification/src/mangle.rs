//! Mangled names: the text under which an instance of a procedure
//! template is known.
//!
//! A mangled name spells out the template's name, the concrete type
//! arguments, the parameters and the return type of the instance. It
//! depends on nothing else, so equal instances always get equal names.
use vstd::prelude::*;
use vstd::string::StrSliceExecFns;
use crate::syntax::{
    ConstExpr, Fields, Mutability, Name, Names, Params, PolyProcedure, Type, Types,
};

verus! {

/// The text of a decimal digit.
pub open spec fn digit_text(d: int) -> Seq<char> {
    if d == 0 {
        "0"@
    } else if d == 1 {
        "1"@
    } else if d == 2 {
        "2"@
    } else if d == 3 {
        "3"@
    } else if d == 4 {
        "4"@
    } else if d == 5 {
        "5"@
    } else if d == 6 {
        "6"@
    } else if d == 7 {
        "7"@
    } else if d == 8 {
        "8"@
    } else {
        "9"@
    }
}

/// The decimal text of a natural number.
pub open spec fn nat_text(n: nat) -> Seq<char>
    decreases n,
{
    if n < 10 {
        digit_text(n as int)
    } else {
        nat_text(n / 10) + digit_text((n % 10) as int)
    }
}

/// The decimal text of an integer.
pub open spec fn int_text(n: int) -> Seq<char> {
    if n < 0 {
        "-"@ + nat_text((-n) as nat)
    } else {
        nat_text(n as nat)
    }
}

/// The text of an array length: a literal is written out, anything else
/// is left open.
pub open spec fn length_text(len: ConstExpr) -> Seq<char> {
    match len {
        ConstExpr::Int(n) => int_text(n as int),
        _ => "?"@,
    }
}

/// The names of a list, separated by commas.
pub open spec fn names_text(names: Names) -> Seq<char>
    decreases names,
{
    match names {
        Names::Nil => Seq::empty(),
        Names::Cons(n, rest) => match *rest {
            Names::Nil => n.text(),
            _ => n.text() + ", "@ + names_text(*rest),
        },
    }
}

/// The text of a type.
pub open spec fn type_text(t: Type) -> Seq<char>
    decreases t,
{
    match t {
        Type::Any => "Any"@,
        Type::Never => "Never"@,
        Type::Void => "Void"@,
        Type::Cell => "Cell"@,
        Type::Int => "Int"@,
        Type::Float => "Float"@,
        Type::Bool => "Bool"@,
        Type::Char => "Char"@,
        Type::Enum(variants) => "enum {"@ + names_text(variants) + "}"@,
        Type::Unit(name, inner) => "unit "@ + name.text() + " = "@ + type_text(*inner),
        Type::Symbol(name) => name.text(),
        Type::Let(name, bound, body) => "let "@ + name.text() + " = "@ + type_text(*bound) + " in "@
            + type_text(*body),
        Type::Array(elem, len) => "["@ + type_text(*elem) + " * "@ + length_text(*len) + "]"@,
        Type::Tuple(items) => "("@ + types_text(*items) + ")"@,
        Type::Struct(fields) => "struct {"@ + fields_text(*fields) + "}"@,
        Type::Union(fields) => "union {"@ + fields_text(*fields) + "}"@,
        Type::Proc(args, ret) => "proc("@ + types_text(*args) + ") -> "@ + type_text(*ret),
        Type::Pointer(inner) => "&"@ + type_text(*inner),
        Type::Poly(params, body) => "<"@ + names_text(params) + "> "@ + type_text(*body),
        Type::Apply(scheme, args) => type_text(*scheme) + "<"@ + types_text(*args) + ">"@,
    }
}

/// The texts of the types of a list, separated by commas.
pub open spec fn types_text(items: Types) -> Seq<char>
    decreases items,
{
    match items {
        Types::Nil => Seq::empty(),
        Types::Cons(t, rest) => match *rest {
            Types::Nil => type_text(t),
            _ => type_text(t) + ", "@ + types_text(*rest),
        },
    }
}

/// The fields of a list as `name: type`, separated by commas.
pub open spec fn fields_text(fields: Fields) -> Seq<char>
    decreases fields,
{
    match fields {
        Fields::Nil => Seq::empty(),
        Fields::Cons(n, t, rest) => match *rest {
            Fields::Nil => n.text() + ": "@ + type_text(t),
            _ => n.text() + ": "@ + type_text(t) + ", "@ + fields_text(*rest),
        },
    }
}

/// The text of one parameter: `name: type`, after `mut` if it is mutable.
pub open spec fn param_text(name: Name, mutability: Mutability, ty: Type) -> Seq<char> {
    if mutability.mutable() {
        "mut "@ + name.text() + ": "@ + type_text(ty)
    } else {
        name.text() + ": "@ + type_text(ty)
    }
}

/// The parameters of a list, separated by commas.
pub open spec fn params_text(args: Params) -> Seq<char>
    decreases args,
{
    match args {
        Params::Nil => Seq::empty(),
        Params::Cons(n, m, t, rest) => match *rest {
            Params::Nil => param_text(n, m, t),
            _ => param_text(n, m, t) + ", "@ + params_text(*rest),
        },
    }
}

/// The mangled name of the instance of the template `name` at the type
/// arguments `ty_args`, with the parameters `args` and the return type
/// `ret`.
pub open spec fn mangled(name: Name, ty_args: Types, args: Params, ret: Type) -> Seq<char> {
    "__MONOMORPHIZED_("@ + types_text(ty_args) + ")"@ + name.text() + "("@ + params_text(args)
        + ")"@
        + type_text(ret)
}

/// The text of the signature of a template: its type parameters, its
/// parameters and its return type.
pub open spec fn signature_text(template: PolyProcedure) -> Seq<char> {
    "proc["@ + names_text(template.ty_params) + "]("@ + params_text(template.args) + ") -> "@
        + type_text(template.ret)
}

fn push_str(s: &str, out: &mut Vec<char>)
    ensures
        final(out)@ == old(out)@ + s@,
{
    let n: usize = s.unicode_len();
    let mut i: usize = 0;
    while i < n
        invariant
            n == s@.len(),
            i <= n,
            out@ == old(out)@ + s@.subrange(0, i as int),
        decreases n - i,
    {
        let c = s.get_char(i);
        out.push(c);
        i = i + 1;
        assert(out@ =~= old(out)@ + s@.subrange(0, i as int));
    }
    assert(s@.subrange(0, n as int) =~= s@);
}

fn push_name(name: &Name, out: &mut Vec<char>)
    ensures
        final(out)@ == old(out)@ + name.text(),
    decreases name,
{
    match name {
        Name::Nil => {
            assert(out@ =~= old(out)@ + name.text());
        },
        Name::Cons(c, rest) => {
            out.push(*c);
            push_name(rest, out);
            assert(out@ =~= old(out)@ + name.text());
        },
    }
}

/// The text of a decimal digit.
pub fn digit(d: u64) -> (r: &'static str)
    requires
        d < 10,
    ensures
        r@ == digit_text(d as int),
{
    if d == 0 {
        "0"
    } else if d == 1 {
        "1"
    } else if d == 2 {
        "2"
    } else if d == 3 {
        "3"
    } else if d == 4 {
        "4"
    } else if d == 5 {
        "5"
    } else if d == 6 {
        "6"
    } else if d == 7 {
        "7"
    } else if d == 8 {
        "8"
    } else {
        "9"
    }
}

fn write_nat(n: u64, out: &mut Vec<char>)
    ensures
        final(out)@ == old(out)@ + nat_text(n as nat),
    decreases n,
{
    if n < 10 {
        push_str(digit(n), out);
    } else {
        write_nat(n / 10, out);
        push_str(digit(n % 10), out);
        assert(out@ =~= old(out)@ + nat_text(n as nat));
    }
}

fn write_int(n: i64, out: &mut Vec<char>)
    ensures
        final(out)@ == old(out)@ + int_text(n as int),
{
    if n < 0 {
        let magnitude: u64 = ((-(n + 1)) as u64) + 1;
        push_str("-", out);
        write_nat(magnitude, out);
        assert(out@ =~= old(out)@ + int_text(n as int));
    } else {
        write_nat(n as u64, out);
    }
}

fn write_length(len: &ConstExpr, out: &mut Vec<char>)
    ensures
        final(out)@ == old(out)@ + length_text(*len),
{
    match len {
        ConstExpr::Int(n) => write_int(*n, out),
        _ => push_str("?", out),
    }
}

fn write_names(names: &Names, out: &mut Vec<char>)
    ensures
        final(out)@ == old(out)@ + names_text(*names),
    decreases names,
{
    match names {
        Names::Nil => {
            assert(out@ =~= old(out)@ + names_text(*names));
        },
        Names::Cons(n, rest) => {
            push_name(n, out);
            match &**rest {
                Names::Nil => {},
                _ => {
                    push_str(", ", out);
                    write_names(rest, out);
                    assert(out@ =~= old(out)@ + names_text(*names));
                },
            }
        },
    }
}

fn write_types(items: &Types, out: &mut Vec<char>)
    ensures
        final(out)@ == old(out)@ + types_text(*items),
    decreases items,
{
    match items {
        Types::Nil => {
            assert(out@ =~= old(out)@ + types_text(*items));
        },
        Types::Cons(t, rest) => {
            write_type(t, out);
            match &**rest {
                Types::Nil => {},
                _ => {
                    push_str(", ", out);
                    write_types(rest, out);
                    assert(out@ =~= old(out)@ + types_text(*items));
                },
            }
        },
    }
}

fn write_fields(fields: &Fields, out: &mut Vec<char>)
    ensures
        final(out)@ == old(out)@ + fields_text(*fields),
    decreases fields,
{
    match fields {
        Fields::Nil => {
            assert(out@ =~= old(out)@ + fields_text(*fields));
        },
        Fields::Cons(n, t, rest) => {
            push_name(n, out);
            push_str(": ", out);
            write_type(t, out);
            match &**rest {
                Fields::Nil => {
                    assert(out@ =~= old(out)@ + fields_text(*fields));
                },
                _ => {
                    push_str(", ", out);
                    write_fields(rest, out);
                    assert(out@ =~= old(out)@ + fields_text(*fields));
                },
            }
        },
    }
}

fn write_param(name: &Name, mutability: Mutability, ty: &Type, out: &mut Vec<char>)
    ensures
        final(out)@ == old(out)@ + param_text(*name, mutability, *ty),
{
    if mutability.is_mutable() {
        push_str("mut ", out);
    }
    push_name(name, out);
    push_str(": ", out);
    write_type(ty, out);
    assert(out@ =~= old(out)@ + param_text(*name, mutability, *ty));
}

fn write_params(args: &Params, out: &mut Vec<char>)
    ensures
        final(out)@ == old(out)@ + params_text(*args),
    decreases args,
{
    match args {
        Params::Nil => {
            assert(out@ =~= old(out)@ + params_text(*args));
        },
        Params::Cons(n, m, t, rest) => {
            write_param(n, *m, t, out);
            match &**rest {
                Params::Nil => {},
                _ => {
                    push_str(", ", out);
                    write_params(rest, out);
                    assert(out@ =~= old(out)@ + params_text(*args));
                },
            }
        },
    }
}

fn write_type(t: &Type, out: &mut Vec<char>)
    ensures
        final(out)@ == old(out)@ + type_text(*t),
    decreases t,
{
    match t {
        Type::Any => push_str("Any", out),
        Type::Never => push_str("Never", out),
        Type::Void => push_str("Void", out),
        Type::Cell => push_str("Cell", out),
        Type::Int => push_str("Int", out),
        Type::Float => push_str("Float", out),
        Type::Bool => push_str("Bool", out),
        Type::Char => push_str("Char", out),
        Type::Enum(variants) => {
            push_str("enum {", out);
            write_names(variants, out);
            push_str("}", out);
        },
        Type::Unit(name, inner) => {
            push_str("unit ", out);
            push_name(name, out);
            push_str(" = ", out);
            write_type(inner, out);
        },
        Type::Symbol(name) => push_name(name, out),
        Type::Let(name, bound, body) => {
            push_str("let ", out);
            push_name(name, out);
            push_str(" = ", out);
            write_type(bound, out);
            push_str(" in ", out);
            write_type(body, out);
        },
        Type::Array(elem, len) => {
            push_str("[", out);
            write_type(elem, out);
            push_str(" * ", out);
            write_length(len, out);
            push_str("]", out);
        },
        Type::Tuple(items) => {
            push_str("(", out);
            write_types(items, out);
            push_str(")", out);
        },
        Type::Struct(fields) => {
            push_str("struct {", out);
            write_fields(fields, out);
            push_str("}", out);
        },
        Type::Union(fields) => {
            push_str("union {", out);
            write_fields(fields, out);
            push_str("}", out);
        },
        Type::Proc(args, ret) => {
            push_str("proc(", out);
            write_types(args, out);
            push_str(") -> ", out);
            write_type(ret, out);
        },
        Type::Pointer(inner) => {
            push_str("&", out);
            write_type(inner, out);
        },
        Type::Poly(params, body) => {
            push_str("<", out);
            write_names(params, out);
            push_str("> ", out);
            write_type(body, out);
        },
        Type::Apply(scheme, args) => {
            write_type(scheme, out);
            push_str("<", out);
            write_types(args, out);
            push_str(">", out);
        },
    }
    assert(out@ =~= old(out)@ + type_text(*t));
}

impl Type {
    /// The text of the type.
    pub fn to_text(&self) -> (r: Name)
        ensures
            r == Name::from_seq(type_text(*self)),
    {
        let mut out: Vec<char> = Vec::new();
        write_type(self, &mut out);
        assert(out@ =~= type_text(*self));
        Name::from_vec(out)
    }
}

impl PolyProcedure {
    /// The text of the signature of the template.
    pub fn signature_to_text(&self) -> (r: Name)
        ensures
            r == Name::from_seq(signature_text(*self)),
    {
        let mut out: Vec<char> = Vec::new();
        push_str("proc[", &mut out);
        write_names(&self.ty_params, &mut out);
        push_str("](", &mut out);
        write_params(&self.args, &mut out);
        push_str(") -> ", &mut out);
        write_type(&self.ret, &mut out);
        assert(out@ =~= signature_text(*self));
        Name::from_vec(out)
    }
}

/// The mangled name of the instance of the template `name` at the type
/// arguments `ty_args`, with the parameters `args` and the return type
/// `ret`.
pub fn mangle(name: &Name, ty_args: &Types, args: &Params, ret: &Type) -> (r: Name)
    ensures
        r == Name::from_seq(mangled(*name, *ty_args, *args, *ret)),
{
    let mut out: Vec<char> = Vec::new();
    push_str("__MONOMORPHIZED_(", &mut out);
    write_types(ty_args, &mut out);
    push_str(")", &mut out);
    push_name(name, &mut out);
    push_str("(", &mut out);
    write_params(args, &mut out);
    push_str(")", &mut out);
    write_type(ret, &mut out);
    assert(out@ =~= mangled(*name, *ty_args, *args, *ret));
    Name::from_vec(out)
}

} // verus!
