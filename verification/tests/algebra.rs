use sage_lir::env::Env;
use sage_lir::error::Error;
use sage_lir::syntax::{ConstExpr, Expr, Fields, Names, Type, Types, Name};

fn name(s: &str) -> Name {
    Name::from_str(s)
}

fn names(items: &[&str]) -> Names {
    Names::from_vec(items.iter().map(|s| name(s)).collect())
}

fn tuple(items: Vec<Type>) -> Type {
    Type::Tuple(Box::new(Types::from_vec(items)))
}

fn fields(items: Vec<(&str, Type)>) -> Fields {
    Fields::from_vec(items.into_iter().map(|(n, t)| (name(n), t)).collect())
}

fn structure(items: Vec<(&str, Type)>) -> Type {
    Type::Struct(Box::new(fields(items)))
}

fn union(items: Vec<(&str, Type)>) -> Type {
    Type::Union(Box::new(fields(items)))
}

fn pointer(t: Type) -> Type {
    Type::Pointer(Box::new(t))
}

fn symbol(s: &str) -> Type {
    Type::Symbol(name(s))
}

fn array(t: Type, n: i64) -> Type {
    Type::Array(Box::new(t), Box::new(ConstExpr::Int(n)))
}

fn apply(scheme: Type, args: Vec<Type>) -> Type {
    Type::Apply(Box::new(scheme), Box::new(Types::from_vec(args)))
}

fn poly(params: &[&str], body: Type) -> Type {
    Type::Poly(names(params), Box::new(body))
}

fn let_type(n: &str, bound: Type, body: Type) -> Type {
    Type::Let(name(n), Box::new(bound), Box::new(body))
}

#[test]
fn lists_keep_the_order_of_their_vectors() {
    let list = Types::from_vec(vec![Type::Int, Type::Bool]);
    assert_eq!(
        list,
        Types::Cons(Type::Int, Box::new(Types::Cons(Type::Bool, Box::new(Types::Nil))))
    );
    assert_eq!(Types::from_vec(vec![]), Types::Nil);
}

#[test]
fn simplify_resolves_names_through_the_environment() {
    let mut env = Env::new();
    env.define_type(name("A"), symbol("B"));
    env.define_type(name("B"), pointer(Type::Int));
    assert_eq!(symbol("A").simplify(&env), Ok(pointer(Type::Int)));
    assert_eq!(symbol("C").simplify(&env), Err(Error::TypeNotDefined(name("C"))));
}

#[test]
fn simplify_leaves_simple_heads_alone() {
    let env = Env::new();
    let t = pointer(symbol("Undefined"));
    assert_eq!(t.simplify(&env), Ok(pointer(symbol("Undefined"))));
}

#[test]
fn simplify_stops_on_cyclic_definitions() {
    let mut env = Env::new();
    env.define_type(name("A"), symbol("B"));
    env.define_type(name("B"), symbol("A"));
    assert_eq!(symbol("A").simplify(&env), Err(Error::RecursionLimit));
}

#[test]
fn simplify_unrolls_local_bindings() {
    let env = Env::new();
    let t = let_type("T", Type::Int, symbol("T"));
    assert_eq!(t.simplify(&env), Ok(Type::Int));
    let list = let_type(
        "List",
        structure(vec![("head", Type::Int), ("tail", pointer(symbol("List")))]),
        symbol("List"),
    );
    let knot = let_type(
        "List",
        structure(vec![("head", Type::Int), ("tail", pointer(symbol("List")))]),
        symbol("List"),
    );
    assert_eq!(
        list.simplify(&env),
        Ok(structure(vec![("head", Type::Int), ("tail", pointer(knot))]))
    );
}

#[test]
fn simplify_instantiates_schemes() {
    let env = Env::new();
    let pair = poly(&["A", "B"], tuple(vec![symbol("A"), symbol("B")]));
    assert_eq!(
        apply(pair, vec![Type::Int, Type::Bool]).simplify(&env),
        Ok(tuple(vec![Type::Int, Type::Bool]))
    );
    let pair = poly(&["A", "B"], tuple(vec![symbol("A"), symbol("B")]));
    let wrong = apply(pair, vec![Type::Int]);
    let same = apply(
        poly(&["A", "B"], tuple(vec![symbol("A"), symbol("B")])),
        vec![Type::Int],
    );
    assert_eq!(wrong.simplify(&env), Err(Error::InvalidTemplateArgs(same)));
    let not_a_scheme = apply(Type::Int, vec![Type::Int]);
    assert_eq!(
        not_a_scheme.simplify(&env),
        Err(Error::ApplyNonTemplate(apply(Type::Int, vec![Type::Int])))
    );
}

#[test]
fn concrete_form_reduces_every_part() {
    let mut env = Env::new();
    env.define_type(name("Word"), Type::Int);
    env.define_const(name("N"), ConstExpr::Int(4));
    let t = structure(vec![
        ("a", pointer(symbol("Word"))),
        (
            "b",
            Type::Array(Box::new(symbol("Word")), Box::new(ConstExpr::Symbol(name("N")))),
        ),
    ]);
    assert_eq!(
        t.simplify_until_concrete(&env),
        Ok(structure(vec![("a", pointer(Type::Int)), ("b", array(Type::Int, 4))]))
    );
}

#[test]
fn concrete_form_rejects_schemes_and_recursive_types() {
    let mut env = Env::new();
    let scheme = poly(&["T"], symbol("T"));
    assert_eq!(
        scheme.simplify_until_concrete(&env),
        Err(Error::NotConcrete(poly(&["T"], symbol("T"))))
    );
    env.define_type(
        name("List"),
        structure(vec![("tail", pointer(symbol("List")))]),
    );
    assert_eq!(symbol("List").simplify_until_concrete(&env), Err(Error::RecursionLimit));
    assert_eq!(
        symbol("Missing").simplify_until_concrete(&env),
        Err(Error::TypeNotDefined(name("Missing")))
    );
}

#[test]
fn equality_is_structural_after_simplification() {
    let mut env = Env::new();
    env.define_type(name("Word"), Type::Int);
    assert_eq!(symbol("Word").equals(&Type::Int, &env), Ok(true));
    assert_eq!(Type::Int.equals(&Type::Bool, &env), Ok(false));
    assert_eq!(
        tuple(vec![Type::Int, symbol("Word")]).equals(&tuple(vec![symbol("Word"), Type::Int]), &env),
        Ok(true)
    );
    assert_eq!(
        tuple(vec![Type::Int]).equals(&tuple(vec![Type::Int, Type::Int]), &env),
        Ok(false)
    );
    assert_eq!(array(Type::Int, 3).equals(&array(symbol("Word"), 3), &env), Ok(true));
    assert_eq!(array(Type::Int, 3).equals(&array(Type::Int, 4), &env), Ok(false));
}

#[test]
fn equality_ignores_the_order_of_fields_and_variants() {
    let env = Env::new();
    let a = structure(vec![("x", Type::Int), ("y", Type::Bool)]);
    let b = structure(vec![("y", Type::Bool), ("x", Type::Int)]);
    assert_eq!(a.equals(&b, &env), Ok(true));
    let c = structure(vec![("x", Type::Int)]);
    assert_eq!(a.equals(&c, &env), Ok(false));
    assert_eq!(c.equals(&a, &env), Ok(false));
    let d = structure(vec![("x", Type::Int), ("y", Type::Char)]);
    assert_eq!(a.equals(&d, &env), Ok(false));
    let e = Type::Enum(names(&["Red", "Green"]));
    let f = Type::Enum(names(&["Green", "Red"]));
    assert_eq!(e.equals(&f, &env), Ok(true));
    assert_eq!(e.equals(&Type::Enum(names(&["Red"])), &env), Ok(false));
    let u = union(vec![("x", Type::Int), ("y", Type::Bool)]);
    assert_eq!(a.equals(&u, &env), Ok(false));
}

#[test]
fn units_are_nominal() {
    let env = Env::new();
    let metres = Type::Unit(name("Metres"), Box::new(Type::Int));
    let feet = Type::Unit(name("Feet"), Box::new(Type::Int));
    let metres_again = Type::Unit(name("Metres"), Box::new(Type::Int));
    let metres_as_float = Type::Unit(name("Metres"), Box::new(Type::Float));
    assert_eq!(metres.equals(&feet, &env), Ok(false));
    assert_eq!(metres.equals(&metres_again, &env), Ok(true));
    assert_eq!(metres.equals(&metres_as_float, &env), Ok(false));
    assert_eq!(metres.equals(&Type::Int, &env), Ok(false));
}

#[test]
fn recursive_types_equal_themselves() {
    let mut env = Env::new();
    env.define_type(
        name("List"),
        structure(vec![("head", Type::Int), ("tail", pointer(symbol("List")))]),
    );
    assert_eq!(symbol("List").equals(&symbol("List"), &env), Ok(true));
    assert_eq!(
        symbol("List").equals(
            &structure(vec![("head", Type::Int), ("tail", pointer(symbol("List")))]),
            &env
        ),
        Ok(true)
    );
}

#[test]
fn equality_reports_what_it_cannot_resolve() {
    let env = Env::new();
    assert_eq!(
        symbol("A").equals(&symbol("B"), &env),
        Err(Error::TypeNotDefined(name("A")))
    );
    assert_eq!(
        Type::Int.equals(&symbol("B"), &env),
        Err(Error::TypeNotDefined(name("B")))
    );
}

#[test]
fn schemes_are_compared_with_opaque_parameters() {
    let mut env = Env::new();
    env.define_type(name("T"), Type::Int);
    let a = poly(&["T"], pointer(symbol("T")));
    let b = poly(&["T"], pointer(symbol("T")));
    let c = poly(&["T"], pointer(Type::Int));
    let d = poly(&["U"], pointer(symbol("U")));
    let e = poly(&["T"], tuple(vec![symbol("T")]));
    let f = poly(&["T"], tuple(vec![Type::Int]));
    assert_eq!(a.equals(&b, &env), Ok(true));
    assert_eq!(a.equals(&c, &env), Ok(false));
    assert_eq!(a.equals(&d, &env), Ok(false));
    assert_eq!(e.equals(&f, &env), Ok(false));
}

#[test]
fn decay_is_reflexive_and_any_absorbs() {
    let env = Env::new();
    let samples = vec![
        Type::Int,
        Type::Never,
        Type::Any,
        pointer(Type::Bool),
        symbol("Undefined"),
        apply(Type::Int, vec![]),
        structure(vec![("x", Type::Int)]),
        poly(&["T"], symbol("T")),
    ];
    for t in samples.iter() {
        assert_eq!(t.can_decay_to(t, &env), Ok(true));
        assert_eq!(t.can_decay_to(&Type::Any, &env), Ok(true));
    }
}

#[test]
fn decay_is_not_symmetric() {
    let env = Env::new();
    assert_eq!(Type::Int.can_decay_to(&Type::Any, &env), Ok(true));
    assert_eq!(Type::Any.can_decay_to(&Type::Int, &env), Ok(false));
    assert_eq!(Type::Never.can_decay_to(&Type::Int, &env), Ok(true));
    assert_eq!(Type::Int.can_decay_to(&Type::Never, &env), Ok(false));
    assert_eq!(Type::Int.can_decay_to(&Type::Float, &env), Ok(false));
    assert_eq!(pointer(Type::Int).can_decay_to(&pointer(Type::Any), &env), Ok(true));
    assert_eq!(pointer(Type::Any).can_decay_to(&pointer(Type::Int), &env), Ok(false));
}

#[test]
fn decay_follows_aliases_to_any() {
    let mut env = Env::new();
    env.define_type(name("Top"), Type::Any);
    assert_eq!(Type::Int.can_decay_to(&symbol("Top"), &env), Ok(true));
}

#[test]
fn equal_types_decay_to_each_other() {
    let mut env = Env::new();
    env.define_type(name("Word"), Type::Int);
    let pairs = vec![
        (symbol("Word"), Type::Int),
        (
            structure(vec![("x", Type::Int), ("y", Type::Bool)]),
            structure(vec![("y", Type::Bool), ("x", symbol("Word"))]),
        ),
        (array(Type::Int, 2), array(symbol("Word"), 2)),
    ];
    for (a, b) in pairs.iter() {
        assert_eq!(a.equals(b, &env), Ok(true));
        assert_eq!(b.equals(a, &env), Ok(true));
        assert_eq!(a.can_decay_to(b, &env), Ok(true));
        assert_eq!(b.can_decay_to(a, &env), Ok(true));
    }
}

#[test]
fn casting_allows_what_decay_allows_and_more() {
    let env = Env::new();
    assert_eq!(Type::Int.can_cast_to(&Type::Int, &env), Ok(true));
    assert_eq!(Type::Int.can_cast_to(&Type::Any, &env), Ok(true));
    assert_eq!(Type::Int.can_cast_to(&Type::Float, &env), Ok(true));
    assert_eq!(Type::Float.can_cast_to(&Type::Int, &env), Ok(true));
    assert_eq!(Type::Char.can_cast_to(&Type::Int, &env), Ok(true));
    assert_eq!(Type::Float.can_cast_to(&Type::Char, &env), Ok(false));
    assert_eq!(Type::Cell.can_cast_to(&pointer(Type::Int), &env), Ok(true));
    assert_eq!(pointer(Type::Int).can_cast_to(&Type::Cell, &env), Ok(true));
    assert_eq!(pointer(Type::Int).can_cast_to(&pointer(Type::Bool), &env), Ok(true));
    assert_eq!(pointer(Type::Int).can_cast_to(&Type::Int, &env), Ok(false));
    assert_eq!(Type::Int.can_cast_to(&Type::Enum(names(&["A"])), &env), Ok(true));
    assert_eq!(tuple(vec![Type::Int]).can_cast_to(&Type::Int, &env), Ok(false));
}

#[test]
fn substitution_replaces_free_names_only() {
    let t = tuple(vec![symbol("T"), pointer(symbol("T")), symbol("U")]);
    assert_eq!(
        t.substitute(&name("T"), &Type::Int),
        tuple(vec![Type::Int, pointer(Type::Int), symbol("U")])
    );
}

#[test]
fn substitution_is_capture_avoiding() {
    let inner = poly(&["T"], pointer(symbol("T")));
    let body = structure(vec![("x", symbol("T")), ("f", inner)]);
    let expected = structure(vec![
        ("x", Type::Int),
        ("f", poly(&["T"], pointer(symbol("T")))),
    ]);
    assert_eq!(body.substitute(&name("T"), &Type::Int), expected);

    let scheme = poly(&["T"], structure(vec![("x", symbol("T"))]));
    assert_eq!(
        scheme.substitute(&name("T"), &Type::Int),
        poly(&["T"], structure(vec![("x", symbol("T"))]))
    );

    let bound = let_type("T", Type::Bool, symbol("T"));
    assert_eq!(
        bound.substitute(&name("T"), &Type::Int),
        let_type("T", Type::Bool, symbol("T"))
    );
    let other = let_type("U", symbol("T"), symbol("U"));
    assert_eq!(
        other.substitute(&name("T"), &Type::Int),
        let_type("U", Type::Int, symbol("U"))
    );
}

#[test]
fn substitution_reaches_types_inside_expressions() {
    let e = Expr::As(
        Box::new(Expr::ConstExpr(ConstExpr::SizeOfType(symbol("T")))),
        symbol("T"),
    );
    assert_eq!(
        e.substitute(&name("T"), &Type::Int),
        Expr::As(Box::new(Expr::ConstExpr(ConstExpr::SizeOfType(Type::Int))), Type::Int)
    );
    let shadowed = Expr::LetType(
        name("T"),
        Type::Bool,
        Box::new(Expr::As(Box::new(Expr::ConstExpr(ConstExpr::Int(1))), symbol("T"))),
    );
    let same = Expr::LetType(
        name("T"),
        Type::Bool,
        Box::new(Expr::As(Box::new(Expr::ConstExpr(ConstExpr::Int(1))), symbol("T"))),
    );
    assert_eq!(shadowed.substitute(&name("T"), &Type::Int), same);
}

#[test]
fn sizes_add_up() {
    let mut env = Env::new();
    env.define_type(name("Word"), Type::Int);
    assert_eq!(Type::Int.get_size(&env), Ok(1));
    assert_eq!(Type::Void.get_size(&env), Ok(0));
    assert_eq!(pointer(Type::Any).get_size(&env), Ok(1));
    assert_eq!(
        structure(vec![("a", Type::Int), ("b", tuple(vec![Type::Int, Type::Bool]))]).get_size(&env),
        Ok(3)
    );
    assert_eq!(
        union(vec![("a", Type::Int), ("b", tuple(vec![Type::Int, Type::Bool, Type::Char]))])
            .get_size(&env),
        Ok(3)
    );
    assert_eq!(array(tuple(vec![symbol("Word"), Type::Int]), 5).get_size(&env), Ok(10));
    assert_eq!(Type::Unit(name("M"), Box::new(array(Type::Int, 7))).get_size(&env), Ok(7));
}

#[test]
fn sizes_fail_where_there_is_none() {
    let env = Env::new();
    assert_eq!(Type::Any.get_size(&env), Err(Error::UnsizedType(Type::Any)));
    assert_eq!(
        array(Type::Int, -1).get_size(&env),
        Err(Error::NegativeArrayLength(Expr::ConstExpr(ConstExpr::Int(-1))))
    );
    let huge = array(array(Type::Int, i64::MAX), i64::MAX);
    assert_eq!(
        huge.get_size(&env),
        Err(Error::SizeOverflow(array(array(Type::Int, i64::MAX), i64::MAX)))
    );
    let length = Type::Array(Box::new(Type::Int), Box::new(ConstExpr::Bool(true)));
    assert_eq!(
        length.get_size(&env),
        Err(Error::NonIntegralConst(ConstExpr::Bool(true)))
    );
}

#[test]
fn members_have_offsets() {
    let env = Env::new();
    let s = structure(vec![
        ("a", Type::Int),
        ("b", tuple(vec![Type::Int, Type::Bool])),
        ("c", Type::Char),
    ]);
    let ctx = Expr::ConstExpr(ConstExpr::Symbol(name("s")));
    let member = |n: &str| ConstExpr::Symbol(name(n));
    assert_eq!(s.get_member_offset(&member("a"), &ctx, &env), Ok((Type::Int, 0)));
    assert_eq!(
        s.get_member_offset(&member("b"), &ctx, &env),
        Ok((tuple(vec![Type::Int, Type::Bool]), 1))
    );
    assert_eq!(s.get_member_offset(&member("c"), &ctx, &env), Ok((Type::Char, 3)));
    assert_eq!(
        s.get_member_offset(&member("d"), &ctx, &env),
        Err(Error::MemberNotFound(
            Expr::ConstExpr(ConstExpr::Symbol(name("s"))),
            ConstExpr::Symbol(name("d"))
        ))
    );
    let through = pointer(structure(vec![("a", Type::Int), ("c", Type::Char)]));
    assert_eq!(through.get_member_offset(&member("c"), &ctx, &env), Ok((Type::Char, 1)));
    let u = union(vec![("a", Type::Int), ("c", Type::Char)]);
    assert_eq!(u.get_member_offset(&member("c"), &ctx, &env), Ok((Type::Char, 0)));
    let t = tuple(vec![Type::Int, tuple(vec![Type::Int, Type::Int]), Type::Bool]);
    assert_eq!(t.get_member_offset(&ConstExpr::Int(2), &ctx, &env), Ok((Type::Bool, 3)));
    assert_eq!(
        t.get_member_offset(&ConstExpr::Int(3), &ctx, &env),
        Err(Error::MemberNotFound(
            Expr::ConstExpr(ConstExpr::Symbol(name("s"))),
            ConstExpr::Int(3)
        ))
    );
    assert_eq!(
        Type::Int.get_member_offset(&member("a"), &ctx, &env),
        Err(Error::MemberNotFound(
            Expr::ConstExpr(ConstExpr::Symbol(name("s"))),
            ConstExpr::Symbol(name("a"))
        ))
    );
}

#[test]
fn constants_evaluate() {
    let mut env = Env::new();
    env.define_const(name("N"), ConstExpr::Int(3));
    env.define_const(name("M"), ConstExpr::Symbol(name("N")));
    env.define_const(name("Yes"), ConstExpr::Bool(true));
    assert_eq!(ConstExpr::Symbol(name("M")).as_int(&env), Ok(3));
    assert_eq!(
        ConstExpr::SizeOfType(tuple(vec![Type::Int, Type::Int])).as_int(&env),
        Ok(2)
    );
    assert_eq!(
        ConstExpr::SizeOfExpr(Box::new(Expr::ConstExpr(ConstExpr::Int(9)))).as_int(&env),
        Ok(1)
    );
    assert_eq!(
        ConstExpr::Symbol(name("Q")).as_int(&env),
        Err(Error::SymbolNotDefined(name("Q")))
    );
    assert_eq!(
        ConstExpr::Char('a').as_int(&env),
        Err(Error::NonIntegralConst(ConstExpr::Char('a')))
    );
    assert_eq!(ConstExpr::Symbol(name("Yes")).as_bool(&env), Ok(true));
    assert_eq!(
        ConstExpr::Int(1).as_bool(&env),
        Err(Error::NonBooleanConst(ConstExpr::Int(1)))
    );
}

#[test]
fn sameness_reads_names_not_places() {
    let a = structure(vec![("x", symbol("T"))]);
    let b = structure(vec![("x", symbol("T"))]);
    let c = structure(vec![("x", symbol("U"))]);
    assert!(a.is_same(&b));
    assert!(!a.is_same(&c));
    assert!(!a.is_same(&Type::Int));
}

#[test]
fn layout_ignores_the_order_in_which_fields_are_written() {
    let env = Env::new();
    let ctx = Expr::ConstExpr(ConstExpr::Symbol(name("s")));
    let ab = structure(vec![("a", Type::Int), ("b", tuple(vec![Type::Int, Type::Int]))]);
    let ba = structure(vec![("b", tuple(vec![Type::Int, Type::Int])), ("a", Type::Int)]);
    assert_eq!(ab.equals(&ba, &env), Ok(true));
    for s in [&ab, &ba] {
        assert_eq!(
            s.get_member_offset(&ConstExpr::Symbol(name("a")), &ctx, &env),
            Ok((Type::Int, 0))
        );
        assert_eq!(
            s.get_member_offset(&ConstExpr::Symbol(name("b")), &ctx, &env),
            Ok((tuple(vec![Type::Int, Type::Int]), 1))
        );
        assert_eq!(s.get_size(&env), Ok(3));
    }
    let zy = structure(vec![("z", Type::Int), ("y", tuple(vec![Type::Int, Type::Int]))]);
    assert_eq!(
        zy.get_member_offset(&ConstExpr::Symbol(name("z")), &ctx, &env),
        Ok((Type::Int, 2))
    );
    let twice = structure(vec![("a", Type::Int), ("a", tuple(vec![Type::Int, Type::Int]))]);
    assert_eq!(twice.get_size(&env), Ok(1));
}
