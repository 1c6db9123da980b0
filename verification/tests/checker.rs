use sage_lir::check::TypeCheck;
use sage_lir::env::Env;
use sage_lir::error::Error;
use sage_lir::poly::Monomorphs;
use sage_lir::syntax::{
    Builtin, ConstExpr, ConstExprs, ConstFields, Expr, ExprFields, Exprs, Fields, Mutability,
    Names, Operator, Params, PolyProcedure, ProcDefs, Procedure, Signatures, Type, Types, VarDefs, Name};

fn name(s: &str) -> Name {
    Name::from_str(s)
}

fn num(n: i64) -> Expr {
    Expr::ConstExpr(ConstExpr::Int(n))
}

fn boolean(b: bool) -> Expr {
    Expr::ConstExpr(ConstExpr::Bool(b))
}

fn var(s: &str) -> Expr {
    Expr::ConstExpr(ConstExpr::Symbol(name(s)))
}

fn exprs(items: Vec<Expr>) -> Box<Exprs> {
    Box::new(Exprs::from_vec(items))
}

fn types(items: Vec<Type>) -> Box<Types> {
    Box::new(Types::from_vec(items))
}

fn fields(items: Vec<(&str, Type)>) -> Box<Fields> {
    Box::new(Fields::from_vec(items.into_iter().map(|(n, t)| (name(n), t)).collect()))
}

fn pointer(t: Type) -> Type {
    Type::Pointer(Box::new(t))
}

fn symbol(s: &str) -> Type {
    Type::Symbol(name(s))
}

fn array(t: Type, n: i64) -> Type {
    Type::Array(Box::new(t), Box::new(ConstExpr::Int(n)))
}

fn proc_type(args: Vec<Type>, ret: Type) -> Type {
    Type::Proc(types(args), Box::new(ret))
}

fn params(items: Vec<(&str, Type)>) -> Params {
    Params::from_vec(
        items.into_iter().map(|(n, t)| (name(n), Mutability::Immutable, t)).collect(),
    )
}

fn mismatch(expected: Type, found: Type, expr: Expr) -> Error {
    Error::MismatchedTypes { expected, found, expr }
}

fn add() -> Operator {
    Operator {
        name: name("add"),
        rules: Signatures::from_vec(vec![
            (Types::from_vec(vec![Type::Int, Type::Int]), Type::Int),
            (Types::from_vec(vec![Type::Float, Type::Float]), Type::Float),
            (Types::from_vec(vec![Type::Int, Type::Float]), Type::Float),
        ]),
    }
}

fn negate() -> Operator {
    Operator {
        name: name("not"),
        rules: Signatures::from_vec(vec![(Types::from_vec(vec![Type::Bool]), Type::Bool)]),
    }
}

#[test]
fn literals_are_sound() {
    let env = Env::new();
    for c in [
        ConstExpr::Void,
        ConstExpr::Null,
        ConstExpr::Int(1),
        ConstExpr::Float(1.5f64.to_bits()),
        ConstExpr::Char('x'),
        ConstExpr::Bool(false),
        ConstExpr::SizeOfType(symbol("Undefined")),
    ] {
        assert_eq!(c.type_check(&env), Ok(()));
    }
    assert_eq!(ConstExpr::Void.get_type(&env), Ok(Type::Void));
    assert_eq!(ConstExpr::Null.get_type(&env), Ok(pointer(Type::Any)));
    assert_eq!(ConstExpr::Float(0).get_type(&env), Ok(Type::Float));
    assert_eq!(ConstExpr::Char('x').get_type(&env), Ok(Type::Char));
    assert_eq!(ConstExpr::SizeOfType(Type::Int).get_type(&env), Ok(Type::Int));
}

#[test]
fn array_literals_are_homogeneous() {
    let env = Env::new();
    let good = Expr::Array(exprs(vec![num(1), num(2), num(3)]));
    assert_eq!(good.type_check(&env), Ok(()));
    assert_eq!(good.get_type(&env), Ok(array(Type::Int, 3)));

    let mixed = Expr::Array(exprs(vec![num(1), num(2), boolean(true)]));
    assert_eq!(
        mixed.type_check(&env),
        Err(mismatch(Type::Int, Type::Bool, boolean(true)))
    );

    let empty = Expr::Array(exprs(vec![]));
    assert_eq!(empty.type_check(&env), Ok(()));
    assert_eq!(empty.get_type(&env), Ok(array(Type::Any, 0)));
}

#[test]
fn constant_arrays_are_homogeneous() {
    let env = Env::new();
    let good = ConstExpr::Array(Box::new(ConstExprs::from_vec(vec![
        ConstExpr::Char('a'),
        ConstExpr::Char('b'),
    ])));
    assert_eq!(good.type_check(&env), Ok(()));
    assert_eq!(good.get_type(&env), Ok(array(Type::Char, 2)));
    let mixed = ConstExpr::Array(Box::new(ConstExprs::from_vec(vec![
        ConstExpr::Char('a'),
        ConstExpr::Int(1),
    ])));
    assert_eq!(
        mixed.type_check(&env),
        Err(mismatch(Type::Char, Type::Int, num(1)))
    );
}

#[test]
fn if_branches_have_one_type() {
    let env = Env::new();
    let good = Expr::If(Box::new(boolean(true)), Box::new(num(1)), Box::new(num(2)));
    assert_eq!(good.type_check(&env), Ok(()));
    assert_eq!(good.get_type(&env), Ok(Type::Int));

    let bad = Expr::If(Box::new(boolean(true)), Box::new(num(1)), Box::new(boolean(true)));
    let same = Expr::If(Box::new(boolean(true)), Box::new(num(1)), Box::new(boolean(true)));
    assert_eq!(bad.type_check(&env), Err(mismatch(Type::Int, Type::Bool, same)));
}

#[test]
fn if_branches_are_not_unified_by_decay() {
    let env = Env::new();
    let e = Expr::If(
        Box::new(boolean(true)),
        Box::new(Expr::Return(Box::new(num(1)))),
        Box::new(num(2)),
    );
    let same = Expr::If(
        Box::new(boolean(true)),
        Box::new(Expr::Return(Box::new(num(1)))),
        Box::new(num(2)),
    );
    assert_eq!(e.type_check(&env), Err(mismatch(Type::Never, Type::Int, same)));
}

#[test]
fn when_branches_may_differ() {
    let env = Env::new();
    let e = Expr::When(ConstExpr::Bool(false), Box::new(num(1)), Box::new(boolean(true)));
    assert_eq!(e.type_check(&env), Ok(()));
    assert_eq!(e.get_type(&env), Ok(Type::Bool));
    let e = Expr::When(ConstExpr::Bool(true), Box::new(num(1)), Box::new(boolean(true)));
    assert_eq!(e.get_type(&env), Ok(Type::Int));
    let e = Expr::When(ConstExpr::Int(1), Box::new(num(1)), Box::new(boolean(true)));
    assert_eq!(e.type_check(&env), Ok(()));
    assert_eq!(e.get_type(&env), Err(Error::NonBooleanConst(ConstExpr::Int(1))));
}

#[test]
fn dereference_needs_a_pointer() {
    let mut env = Env::new();
    env.define_var(name("x"), Mutability::Immutable, Type::Int);
    env.define_var(name("p"), Mutability::Immutable, pointer(Type::Int));

    let bad = Expr::Deref(Box::new(var("x")));
    assert_eq!(
        bad.type_check(&env),
        Err(mismatch(pointer(Type::Any), Type::Int, Expr::Deref(Box::new(var("x")))))
    );
    let good = Expr::Deref(Box::new(var("p")));
    assert_eq!(good.type_check(&env), Ok(()));
    assert_eq!(good.get_type(&env), Ok(Type::Int));
}

#[test]
fn dereference_sees_through_aliases() {
    let mut env = Env::new();
    env.define_type(name("IntPtr"), pointer(Type::Int));
    env.define_var(name("p"), Mutability::Immutable, symbol("IntPtr"));
    let e = Expr::Deref(Box::new(var("p")));
    assert_eq!(e.type_check(&env), Ok(()));
    assert_eq!(e.get_type(&env), Ok(Type::Int));
}

#[test]
fn refer_gives_a_pointer() {
    let env = Env::new();
    let e = Expr::Refer(Box::new(num(1)));
    assert_eq!(e.type_check(&env), Ok(()));
    assert_eq!(e.get_type(&env), Ok(pointer(Type::Int)));
}

#[test]
fn store_through_pointer_needs_an_equal_type() {
    let mut env = Env::new();
    env.define_var(name("p"), Mutability::Mutable, pointer(Type::Int));
    env.define_var(name("x"), Mutability::Mutable, Type::Int);
    let good = Expr::DerefMut(Box::new(var("p")), Box::new(num(3)));
    assert_eq!(good.type_check(&env), Ok(()));
    assert_eq!(good.get_type(&env), Ok(Type::Void));
    let bad = Expr::DerefMut(Box::new(var("p")), Box::new(boolean(true)));
    assert_eq!(
        bad.type_check(&env),
        Err(mismatch(
            Type::Bool,
            Type::Int,
            Expr::DerefMut(Box::new(var("p")), Box::new(boolean(true)))
        ))
    );
    let no_pointer = Expr::DerefMut(Box::new(var("x")), Box::new(num(3)));
    assert_eq!(
        no_pointer.type_check(&env),
        Err(mismatch(
            pointer(Type::Any),
            Type::Int,
            Expr::DerefMut(Box::new(var("x")), Box::new(num(3)))
        ))
    );
}

#[test]
fn symbols_must_be_bound() {
    let mut env = Env::new();
    assert_eq!(
        var("x").type_check(&env),
        Err(Error::SymbolNotDefined(name("x")))
    );
    assert_eq!(
        var("x").get_type(&env),
        Err(Error::SymbolNotDefined(name("x")))
    );
    env.define_const(name("x"), ConstExpr::Bool(true));
    assert_eq!(var("x").type_check(&env), Ok(()));
    assert_eq!(var("x").get_type(&env), Ok(Type::Bool));
    env.define_var(name("x"), Mutability::Immutable, Type::Char);
    assert_eq!(var("x").get_type(&env), Ok(Type::Char));
}

#[test]
fn types_must_be_defined() {
    let mut env = Env::new();
    let t = Type::Tuple(types(vec![Type::Int, pointer(symbol("T"))]));
    assert_eq!(t.type_check(&env), Err(Error::TypeNotDefined(name("T"))));
    env.define_type(name("T"), Type::Bool);
    assert_eq!(t.type_check(&env), Ok(()));
}

#[test]
fn array_lengths_are_not_negative() {
    let mut env = Env::new();
    env.define_const(name("N"), ConstExpr::Int(-2));
    assert_eq!(array(Type::Int, 0).type_check(&env), Ok(()));
    assert_eq!(
        array(Type::Int, -1).type_check(&env),
        Err(Error::NegativeArrayLength(num(-1)))
    );
    let by_name = Type::Array(Box::new(Type::Int), Box::new(ConstExpr::Symbol(name("N"))));
    assert_eq!(
        by_name.type_check(&env),
        Err(Error::NegativeArrayLength(var("N")))
    );
    let no_number = Type::Array(Box::new(Type::Int), Box::new(ConstExpr::Bool(true)));
    assert_eq!(
        no_number.type_check(&env),
        Err(Error::NonIntegralConst(ConstExpr::Bool(true)))
    );
}

#[test]
fn local_type_bindings_may_refer_to_themselves() {
    let env = Env::new();
    let list = Type::Let(
        name("List"),
        Box::new(Type::Struct(fields(vec![
            ("head", Type::Int),
            ("tail", pointer(symbol("List"))),
        ]))),
        Box::new(pointer(symbol("List"))),
    );
    assert_eq!(list.type_check(&env), Ok(()));
    let scheme = Type::Poly(
        Names::from_vec(vec![name("T")]),
        Box::new(pointer(symbol("T"))),
    );
    assert_eq!(scheme.type_check(&env), Ok(()));
    let open = Type::Poly(
        Names::from_vec(vec![name("T")]),
        Box::new(pointer(symbol("U"))),
    );
    assert_eq!(open.type_check(&env), Err(Error::TypeNotDefined(name("U"))));
}

#[test]
fn let_var_compares_annotation_by_equality() {
    let env = Env::new();
    let good = Expr::LetVar(
        name("x"),
        Mutability::Immutable,
        Some(Type::Int),
        Box::new(num(1)),
        Box::new(var("x")),
    );
    assert_eq!(good.type_check(&env), Ok(()));
    assert_eq!(good.get_type(&env), Ok(Type::Int));

    let make = || {
        Expr::LetVar(
            name("x"),
            Mutability::Immutable,
            Some(Type::Any),
            Box::new(num(1)),
            Box::new(var("x")),
        )
    };
    assert_eq!(make().type_check(&env), Err(mismatch(Type::Any, Type::Int, make())));

    let inferred = Expr::LetVar(
        name("x"),
        Mutability::Mutable,
        None,
        Box::new(boolean(true)),
        Box::new(var("x")),
    );
    assert_eq!(inferred.type_check(&env), Ok(()));
    assert_eq!(inferred.get_type(&env), Ok(Type::Bool));
}

#[test]
fn let_vars_see_earlier_variables() {
    let env = Env::new();
    let defs = VarDefs::from_vec(vec![
        (name("x"), Mutability::Immutable, None, num(1)),
        (name("y"), Mutability::Immutable, Some(Type::Int), var("x")),
    ]);
    let e = Expr::LetVars(Box::new(defs), Box::new(var("y")));
    assert_eq!(e.type_check(&env), Ok(()));
    assert_eq!(e.get_type(&env), Ok(Type::Int));

    let make = || {
        Expr::LetVars(
            Box::new(VarDefs::from_vec(vec![
                (name("x"), Mutability::Immutable, None, num(1)),
                (name("y"), Mutability::Immutable, Some(Type::Bool), var("x")),
            ])),
            Box::new(var("y")),
        )
    };
    assert_eq!(make().type_check(&env), Err(mismatch(Type::Bool, Type::Int, make())));

    let backwards = Expr::LetVars(
        Box::new(VarDefs::from_vec(vec![
            (name("y"), Mutability::Immutable, None, var("x")),
            (name("x"), Mutability::Immutable, None, num(1)),
        ])),
        Box::new(var("y")),
    );
    assert_eq!(backwards.type_check(&env), Err(Error::SymbolNotDefined(name("x"))));
}

#[test]
fn let_const_is_visible_in_its_continuation_only() {
    let env = Env::new();
    let e = Expr::LetConst(name("N"), ConstExpr::Int(3), Box::new(var("N")));
    assert_eq!(e.type_check(&env), Ok(()));
    assert_eq!(e.get_type(&env), Ok(Type::Int));
    assert_eq!(env.get_const(&name("N")), None);
    let both = Expr::Many(exprs(vec![
        Expr::LetConst(name("N"), ConstExpr::Int(3), Box::new(var("N"))),
        var("N"),
    ]));
    assert_eq!(both.type_check(&env), Err(Error::SymbolNotDefined(name("N"))));
}

#[test]
fn let_consts_define_all_before_checking_any() {
    let env = Env::new();
    let defs = ConstFields::from_vec(vec![
        (name("A"), ConstExpr::Symbol(name("B"))),
        (name("B"), ConstExpr::Int(2)),
    ]);
    let e = Expr::LetConsts(Box::new(defs), Box::new(var("A")));
    assert_eq!(e.type_check(&env), Ok(()));
    assert_eq!(e.get_type(&env), Ok(Type::Int));
}

#[test]
fn let_type_keeps_its_binding_around_the_result() {
    let env = Env::new();
    let e = Expr::LetType(
        name("Word"),
        Type::Int,
        Box::new(Expr::As(Box::new(num(1)), symbol("Word"))),
    );
    assert_eq!(e.type_check(&env), Ok(()));
    let t = e.get_type(&env).unwrap();
    assert_eq!(
        t,
        Type::Let(name("Word"), Box::new(Type::Int), Box::new(symbol("Word")))
    );
    assert_eq!(t.equals(&Type::Int, &env), Ok(true));

    let undefined = Expr::LetType(name("Word"), symbol("Missing"), Box::new(num(1)));
    assert_eq!(undefined.type_check(&env), Err(Error::TypeNotDefined(name("Missing"))));
}

#[test]
fn let_types_may_be_mutually_recursive() {
    let env = Env::new();
    let defs = fields(vec![
        ("A", Type::Struct(fields(vec![("b", pointer(symbol("B")))]))),
        ("B", Type::Struct(fields(vec![("a", pointer(symbol("A")))]))),
    ]);
    let e = Expr::LetTypes(defs, Box::new(num(1)));
    assert_eq!(e.type_check(&env), Ok(()));
}

#[test]
fn blocks_have_the_type_of_their_last_expression() {
    let env = Env::new();
    let e = Expr::Many(exprs(vec![num(1), boolean(true)]));
    assert_eq!(e.type_check(&env), Ok(()));
    assert_eq!(e.get_type(&env), Ok(Type::Bool));
    assert_eq!(Expr::Many(exprs(vec![])).get_type(&env), Ok(Type::Void));
    let bad = Expr::Many(exprs(vec![var("x"), num(1)]));
    assert_eq!(bad.type_check(&env), Err(Error::SymbolNotDefined(name("x"))));
}

#[test]
fn the_first_unsound_part_is_reported() {
    let env = Env::new();
    let e = Expr::Tuple(exprs(vec![var("first"), var("second")]));
    assert_eq!(e.type_check(&env), Err(Error::SymbolNotDefined(name("first"))));
}

#[test]
fn while_checks_condition_and_body() {
    let env = Env::new();
    let e = Expr::While(Box::new(num(1)), Box::new(boolean(true)));
    assert_eq!(e.type_check(&env), Ok(()));
    assert_eq!(e.get_type(&env), Ok(Type::Void));
    let bad = Expr::While(Box::new(boolean(true)), Box::new(var("x")));
    assert_eq!(bad.type_check(&env), Err(Error::SymbolNotDefined(name("x"))));
}

#[test]
fn application_compares_arguments_by_equality() {
    let mut env = Env::new();
    env.define_var(
        name("f"),
        Mutability::Immutable,
        proc_type(vec![Type::Int, Type::Bool], Type::Char),
    );
    env.define_var(name("x"), Mutability::Immutable, Type::Int);

    let good = Expr::Apply(Box::new(var("f")), exprs(vec![num(1), boolean(true)]));
    assert_eq!(good.type_check(&env), Ok(()));
    assert_eq!(good.get_type(&env), Ok(Type::Char));

    let make = || Expr::Apply(Box::new(var("f")), exprs(vec![num(1)]));
    assert_eq!(
        make().type_check(&env),
        Err(mismatch(
            proc_type(vec![Type::Int, Type::Bool], Type::Char),
            proc_type(vec![Type::Int], Type::Char),
            make()
        ))
    );

    let make = || Expr::Apply(Box::new(var("f")), exprs(vec![num(1), num(2)]));
    assert_eq!(
        make().type_check(&env),
        Err(mismatch(
            proc_type(vec![Type::Int, Type::Bool], Type::Char),
            proc_type(vec![Type::Int, Type::Int], Type::Char),
            make()
        ))
    );

    let make = || Expr::Apply(Box::new(var("x")), exprs(vec![num(1)]));
    assert_eq!(
        make().type_check(&env),
        Err(mismatch(proc_type(vec![Type::Int], Type::Any), Type::Int, make()))
    );
}

#[test]
fn casts_must_be_allowed() {
    let env = Env::new();
    let good = Expr::As(Box::new(num(1)), Type::Float);
    assert_eq!(good.type_check(&env), Ok(()));
    assert_eq!(good.get_type(&env), Ok(Type::Float));
    let make = || Expr::As(Box::new(num(1)), Type::Tuple(types(vec![])));
    assert_eq!(
        make().type_check(&env),
        Err(Error::InvalidAs(make(), Type::Int, Type::Tuple(types(vec![]))))
    );
    let constant = ConstExpr::As(Box::new(ConstExpr::Char('a')), Type::Int);
    assert_eq!(constant.type_check(&env), Ok(()));
    let constant = ConstExpr::As(Box::new(ConstExpr::Float(0)), Type::Bool);
    assert_eq!(
        constant.type_check(&env),
        Err(Error::InvalidAs(
            Expr::ConstExpr(ConstExpr::Float(0)),
            Type::Float,
            Type::Bool
        ))
    );
}

#[test]
fn members_must_exist() {
    let mut env = Env::new();
    env.define_var(
        name("s"),
        Mutability::Immutable,
        Type::Struct(fields(vec![("a", Type::Int), ("b", Type::Bool)])),
    );
    let good = Expr::Member(Box::new(var("s")), ConstExpr::Symbol(name("b")));
    assert_eq!(good.type_check(&env), Ok(()));
    assert_eq!(good.get_type(&env), Ok(Type::Bool));
    let bad = Expr::Member(Box::new(var("s")), ConstExpr::Symbol(name("c")));
    assert_eq!(
        bad.type_check(&env),
        Err(Error::MemberNotFound(var("s"), ConstExpr::Symbol(name("c"))))
    );
}

#[test]
fn indexing_needs_an_array_or_pointer_and_an_integer() {
    let mut env = Env::new();
    env.define_var(name("a"), Mutability::Immutable, array(Type::Char, 4));
    env.define_var(name("p"), Mutability::Immutable, pointer(Type::Bool));
    env.define_var(name("x"), Mutability::Immutable, Type::Int);

    let e = Expr::Index(Box::new(var("a")), Box::new(num(0)));
    assert_eq!(e.type_check(&env), Ok(()));
    assert_eq!(e.get_type(&env), Ok(Type::Char));
    let e = Expr::Index(Box::new(var("p")), Box::new(var("x")));
    assert_eq!(e.type_check(&env), Ok(()));
    assert_eq!(e.get_type(&env), Ok(Type::Bool));

    let make = || Expr::Index(Box::new(var("x")), Box::new(num(0)));
    assert_eq!(make().type_check(&env), Err(Error::InvalidIndex(make())));
    let make = || Expr::Index(Box::new(var("a")), Box::new(boolean(true)));
    assert_eq!(make().type_check(&env), Err(Error::InvalidIndex(make())));
}

#[test]
fn union_literals_name_a_field_of_the_right_type() {
    let env = Env::new();
    let u = || Type::Union(fields(vec![("i", Type::Int), ("b", Type::Bool)]));
    let good = Expr::Union(u(), name("i"), Box::new(num(1)));
    assert_eq!(good.type_check(&env), Ok(()));
    assert_eq!(good.get_type(&env), Ok(u()));

    let make = || Expr::Union(u(), name("b"), Box::new(num(1)));
    assert_eq!(make().type_check(&env), Err(mismatch(Type::Bool, Type::Int, make())));

    let missing = Expr::Union(u(), name("c"), Box::new(num(1)));
    assert_eq!(missing.type_check(&env), Err(Error::VariantNotFound(u(), name("c"))));

    let no_union = Expr::Union(Type::Int, name("i"), Box::new(num(1)));
    assert_eq!(no_union.type_check(&env), Err(Error::VariantNotFound(Type::Int, name("i"))));

    let constant = ConstExpr::Union(u(), name("b"), Box::new(ConstExpr::Bool(true)));
    assert_eq!(constant.type_check(&env), Ok(()));
    let make = || ConstExpr::Union(u(), name("b"), Box::new(ConstExpr::Char('c')));
    assert_eq!(
        make().type_check(&env),
        Err(mismatch(Type::Bool, Type::Char, Expr::ConstExpr(make())))
    );
}

#[test]
fn enum_variants_must_exist() {
    let mut env = Env::new();
    let colour = || Type::Enum(Names::from_vec(vec![name("Red"), name("Green")]));
    env.define_type(name("Colour"), colour());
    let good = ConstExpr::Of(symbol("Colour"), name("Green"));
    assert_eq!(good.type_check(&env), Ok(()));
    assert_eq!(good.get_type(&env), Ok(symbol("Colour")));
    let bad = ConstExpr::Of(symbol("Colour"), name("Blue"));
    assert_eq!(
        bad.type_check(&env),
        Err(Error::VariantNotFound(symbol("Colour"), name("Blue")))
    );
    let no_enum = ConstExpr::Of(Type::Int, name("Red"));
    assert_eq!(no_enum.type_check(&env), Err(Error::VariantNotFound(Type::Int, name("Red"))));
}

#[test]
fn tuples_and_structures_check_every_part() {
    let env = Env::new();
    let t = Expr::Tuple(exprs(vec![num(1), boolean(false)]));
    assert_eq!(t.type_check(&env), Ok(()));
    assert_eq!(t.get_type(&env), Ok(Type::Tuple(types(vec![Type::Int, Type::Bool]))));
    let s = Expr::Struct(Box::new(ExprFields::from_vec(vec![
        (name("a"), num(1)),
        (name("b"), boolean(false)),
    ])));
    assert_eq!(s.type_check(&env), Ok(()));
    assert_eq!(
        s.get_type(&env),
        Ok(Type::Struct(fields(vec![("a", Type::Int), ("b", Type::Bool)])))
    );
    let bad = ConstExpr::Struct(Box::new(ConstFields::from_vec(vec![
        (name("a"), ConstExpr::Int(1)),
        (name("b"), ConstExpr::Symbol(name("missing"))),
    ])));
    assert_eq!(bad.type_check(&env), Err(Error::SymbolNotDefined(name("missing"))));
}

#[test]
fn operators_follow_their_rules() {
    let env = Env::new();
    let e = Expr::BinaryOp(add(), Box::new(num(1)), Box::new(num(2)));
    assert_eq!(e.type_check(&env), Ok(()));
    assert_eq!(e.get_type(&env), Ok(Type::Int));
    let float = || Expr::ConstExpr(ConstExpr::Float(2.0f64.to_bits()));
    let e = Expr::BinaryOp(add(), Box::new(num(1)), Box::new(float()));
    assert_eq!(e.get_type(&env), Ok(Type::Float));
    let e = Expr::BinaryOp(add(), Box::new(num(1)), Box::new(boolean(true)));
    assert_eq!(
        e.type_check(&env),
        Err(Error::InvalidOperands(
            name("add"),
            Types::from_vec(vec![Type::Int, Type::Bool])
        ))
    );
    let e = Expr::UnaryOp(negate(), Box::new(boolean(true)));
    assert_eq!(e.type_check(&env), Ok(()));
    assert_eq!(e.get_type(&env), Ok(Type::Bool));
    let e = Expr::UnaryOp(negate(), Box::new(var("x")));
    assert_eq!(e.type_check(&env), Err(Error::SymbolNotDefined(name("x"))));
}

#[test]
fn assignment_and_ternary_operators_follow_their_rules() {
    let mut env = Env::new();
    env.define_var(name("p"), Mutability::Mutable, pointer(Type::Int));
    let assign = Operator {
        name: name("add_assign"),
        rules: Signatures::from_vec(vec![(
            Types::from_vec(vec![pointer(Type::Int), Type::Int]),
            Type::Void,
        )]),
    };
    let e = Expr::AssignOp(assign, Box::new(var("p")), Box::new(num(1)));
    assert_eq!(e.type_check(&env), Ok(()));
    assert_eq!(e.get_type(&env), Ok(Type::Void));
    let select = Operator {
        name: name("select"),
        rules: Signatures::from_vec(vec![(
            Types::from_vec(vec![Type::Bool, Type::Any, Type::Any]),
            Type::Cell,
        )]),
    };
    let e = Expr::TernaryOp(
        select,
        Box::new(boolean(true)),
        Box::new(num(1)),
        Box::new(var("p")),
    );
    assert_eq!(e.type_check(&env), Ok(()));
    assert_eq!(e.get_type(&env), Ok(Type::Cell));
}

#[test]
fn procedures_are_checked_in_their_own_scope() {
    let env = Env::new();
    let identity = Procedure {
        name: None,
        args: params(vec![("x", Type::Int)]),
        ret: Type::Int,
        body: Box::new(var("x")),
    };
    assert_eq!(identity.type_check(&env), Ok(()));
    assert_eq!(
        ConstExpr::Proc(identity.clone()).get_type(&env),
        Ok(proc_type(vec![Type::Int], Type::Int))
    );

    let wrong = Procedure {
        name: None,
        args: params(vec![("x", Type::Int)]),
        ret: Type::Bool,
        body: Box::new(var("x")),
    };
    assert_eq!(
        wrong.type_check(&env),
        Err(mismatch(
            Type::Bool,
            Type::Int,
            Expr::ConstExpr(ConstExpr::Proc(wrong.clone()))
        ))
    );

    let returns = Procedure {
        name: None,
        args: params(vec![("x", Type::Int)]),
        ret: Type::Bool,
        body: Box::new(Expr::Return(Box::new(boolean(true)))),
    };
    assert_eq!(returns.type_check(&env), Ok(()));

    let any = Procedure {
        name: None,
        args: params(vec![("x", Type::Int)]),
        ret: Type::Any,
        body: Box::new(var("x")),
    };
    assert_eq!(any.type_check(&env), Ok(()));
}

#[test]
fn parameters_of_one_procedure_have_distinct_names() {
    let env = Env::new();
    let twice = Procedure {
        name: None,
        args: params(vec![("x", Type::Int), ("y", Type::Int), ("x", Type::Bool)]),
        ret: Type::Int,
        body: Box::new(var("y")),
    };
    assert_eq!(twice.type_check(&env), Err(Error::DuplicateArgument(name("x"))));
}

#[test]
fn procedures_may_call_themselves() {
    let env = Env::new();
    let looping = Procedure {
        name: None,
        args: params(vec![("x", Type::Int)]),
        ret: Type::Int,
        body: Box::new(Expr::Apply(Box::new(var("f")), exprs(vec![var("x")]))),
    };
    let e = Expr::LetProc(
        name("f"),
        looping,
        Box::new(Expr::Apply(Box::new(var("f")), exprs(vec![num(1)]))),
    );
    assert_eq!(e.type_check(&env), Ok(()));
    assert_eq!(e.get_type(&env), Ok(Type::Int));
}

#[test]
fn let_procs_define_all_before_checking_any() {
    let env = Env::new();
    let call = |f: &str| Expr::Apply(Box::new(var(f)), exprs(vec![var("x")]));
    let make = |body: Expr| Procedure {
        name: None,
        args: params(vec![("x", Type::Int)]),
        ret: Type::Int,
        body: Box::new(body),
    };
    let defs = ProcDefs::from_vec(vec![
        (name("even"), make(call("odd"))),
        (name("odd"), make(call("even"))),
    ]);
    let e = Expr::LetProcs(Box::new(defs), Box::new(call_with(num(1))));
    assert_eq!(e.type_check(&env), Ok(()));
}

fn call_with(arg: Expr) -> Expr {
    Expr::Apply(Box::new(var("even")), exprs(vec![arg]))
}

#[test]
fn builtins_are_trusted_for_their_signature() {
    let env = Env::new();
    let put = Builtin { name: name("put"), args: params(vec![("c", Type::Char)]), ret: Type::Void };
    let c = ConstExpr::CoreBuiltin(put);
    assert_eq!(c.type_check(&env), Ok(()));
    assert_eq!(c.get_type(&env), Ok(proc_type(vec![Type::Char], Type::Void)));
    let e = Expr::Apply(
        Box::new(Expr::ConstExpr(c)),
        exprs(vec![Expr::ConstExpr(ConstExpr::Char('x'))]),
    );
    assert_eq!(e.type_check(&env), Ok(()));
}

#[test]
fn templates_are_checked_with_opaque_parameters() {
    let env = Env::new();
    let identity = PolyProcedure::new(
        name("id"),
        vec![name("T")],
        vec![(name("x"), Mutability::Immutable, symbol("T"))],
        symbol("T"),
        var("x"),
        &mut Monomorphs::new(),
    );
    assert_eq!(identity.type_check(&env), Ok(()));
    assert_eq!(
        identity.get_type(),
        Type::Poly(
            Names::from_vec(vec![name("T")]),
            Box::new(proc_type(vec![symbol("T")], symbol("T")))
        )
    );

    let wrong = PolyProcedure::new(
        name("bad"),
        vec![name("T")],
        vec![(name("x"), Mutability::Immutable, symbol("T"))],
        symbol("T"),
        num(1),
        &mut Monomorphs::new(),
    );
    assert_eq!(
        wrong.type_check(&env),
        Err(mismatch(
            symbol("T"),
            Type::Int,
            Expr::ConstExpr(ConstExpr::PolyProc(wrong.clone()))
        ))
    );
}

#[test]
fn instantiated_templates_can_be_applied() {
    let env = Env::new();
    let identity = PolyProcedure::new(
        name("id"),
        vec![name("T")],
        vec![(name("x"), Mutability::Immutable, symbol("T"))],
        symbol("T"),
        var("x"),
        &mut Monomorphs::new(),
    );
    let at_int = ConstExpr::Monomorphize(
        Box::new(ConstExpr::Symbol(name("id"))),
        Types::from_vec(vec![Type::Int]),
    );
    let call = |arg: Expr| {
        Expr::LetConst(
            name("id"),
            ConstExpr::PolyProc(identity.clone()),
            Box::new(Expr::Apply(
                Box::new(Expr::ConstExpr(at_int.clone())),
                exprs(vec![arg]),
            )),
        )
    };
    assert_eq!(call(num(1)).type_check(&env), Ok(()));
    assert!(call(num(1)).get_type(&env).unwrap().equals(&Type::Int, &env).unwrap());
    assert!(matches!(
        call(boolean(true)).type_check(&env),
        Err(Error::MismatchedTypes { .. })
    ));
}

#[test]
fn only_templates_take_type_arguments() {
    let mut env = Env::new();
    env.define_const(name("n"), ConstExpr::Int(1));
    let make = || {
        ConstExpr::Monomorphize(
            Box::new(ConstExpr::Symbol(name("n"))),
            Types::from_vec(vec![Type::Int]),
        )
    };
    assert_eq!(make().type_check(&env), Err(Error::InvalidMonomorphize(make())));

    let identity = PolyProcedure::new(
        name("id"),
        vec![name("T")],
        vec![(name("x"), Mutability::Immutable, symbol("T"))],
        symbol("T"),
        var("x"),
        &mut Monomorphs::new(),
    );
    env.define_const(name("id"), ConstExpr::PolyProc(identity.clone()));
    let too_many = ConstExpr::Monomorphize(
        Box::new(ConstExpr::Symbol(name("id"))),
        Types::from_vec(vec![Type::Int, Type::Bool]),
    );
    assert_eq!(
        too_many.type_check(&env),
        Err(Error::InvalidTemplateArgs(Type::Apply(
            Box::new(identity.get_type()),
            types(vec![Type::Int, Type::Bool])
        )))
    );
}

#[test]
fn type_of_and_size_of_check_their_expression() {
    let env = Env::new();
    let good = ConstExpr::TypeOf(Box::new(num(1)));
    assert_eq!(good.type_check(&env), Ok(()));
    assert_eq!(good.get_type(&env), Ok(Type::Int));
    let bad = ConstExpr::SizeOfExpr(Box::new(var("x")));
    assert_eq!(bad.type_check(&env), Err(Error::SymbolNotDefined(name("x"))));
    assert_eq!(bad.get_type(&env), Ok(Type::Int));
}

#[test]
fn return_checks_its_value() {
    let env = Env::new();
    let e = Expr::Return(Box::new(num(1)));
    assert_eq!(e.type_check(&env), Ok(()));
    assert_eq!(e.get_type(&env), Ok(Type::Never));
    let e = Expr::Return(Box::new(var("x")));
    assert_eq!(e.type_check(&env), Err(Error::SymbolNotDefined(name("x"))));
}

#[test]
fn linked_lists_can_be_built_and_walked() {
    let env = Env::new();
    let list = || {
        Type::Struct(fields(vec![
            ("head", Type::Int),
            ("tail", pointer(symbol("List"))),
        ]))
    };
    let cell = Expr::Struct(Box::new(ExprFields::from_vec(vec![
        (name("head"), num(1)),
        (name("tail"), var("l")),
    ])));
    let program = |body: Expr| {
        Expr::LetType(
            name("List"),
            list(),
            Box::new(Expr::LetVar(
                name("l"),
                Mutability::Mutable,
                Some(pointer(symbol("List"))),
                Box::new(Expr::As(
                    Box::new(Expr::ConstExpr(ConstExpr::Null)),
                    pointer(symbol("List")),
                )),
                Box::new(body),
            )),
        )
    };
    let store = program(Expr::DerefMut(Box::new(var("l")), Box::new(cell)));
    assert_eq!(store.type_check(&env), Ok(()));

    let walk = program(Expr::Member(
        Box::new(Expr::Deref(Box::new(Expr::Member(
            Box::new(var("l")),
            ConstExpr::Symbol(name("tail")),
        )))),
        ConstExpr::Symbol(name("head")),
    ));
    assert_eq!(walk.type_check(&env), Ok(()));
    let t = walk.get_type(&env).unwrap();
    assert_eq!(t, Type::Let(name("List"), Box::new(list()), Box::new(Type::Int)));
    assert_eq!(t.equals(&Type::Int, &env), Ok(true));

    let tail = program(Expr::Member(
        Box::new(var("l")),
        ConstExpr::Symbol(name("tail")),
    ));
    let t = tail.get_type(&env).unwrap();
    assert_eq!(
        t,
        Type::Let(name("List"), Box::new(list()), Box::new(pointer(symbol("List"))))
    );
    assert_eq!(t.equals(&t, &env), Ok(true));
    assert_eq!(t.get_size(&env), Ok(1));
    assert_eq!(t.equals(&pointer(Type::Int), &env), Ok(false));
}

#[test]
fn an_index_has_type_int_itself() {
    let mut env = Env::new();
    env.define_type(name("I"), Type::Int);
    env.define_var(name("a"), Mutability::Immutable, array(Type::Char, 4));
    env.define_var(name("i"), Mutability::Immutable, symbol("I"));
    let make = || Expr::Index(Box::new(var("a")), Box::new(var("i")));
    assert_eq!(make().type_check(&env), Err(Error::InvalidIndex(make())));
}

#[test]
fn indexing_sees_through_aliases_of_the_container() {
    let mut env = Env::new();
    env.define_type(name("Text"), array(Type::Char, 4));
    env.define_var(name("a"), Mutability::Immutable, symbol("Text"));
    let e = Expr::Index(Box::new(var("a")), Box::new(num(0)));
    assert_eq!(e.type_check(&env), Ok(()));
    assert_eq!(e.get_type(&env), Ok(Type::Char));
}

#[test]
fn no_two_fields_share_a_name() {
    let env = Env::new();
    let twice = Type::Struct(fields(vec![("a", Type::Int), ("b", Type::Bool), ("a", Type::Int)]));
    assert_eq!(twice.type_check(&env), Err(Error::DuplicateField(name("a"))));
    let nested = pointer(Type::Union(fields(vec![("x", Type::Int), ("x", Type::Bool)])));
    assert_eq!(nested.type_check(&env), Err(Error::DuplicateField(name("x"))));
    let literal = Expr::Struct(Box::new(ExprFields::from_vec(vec![
        (name("a"), num(1)),
        (name("a"), num(2)),
    ])));
    assert_eq!(literal.type_check(&env), Err(Error::DuplicateField(name("a"))));
    let constant = ConstExpr::Struct(Box::new(ConstFields::from_vec(vec![
        (name("b"), ConstExpr::Int(1)),
        (name("c"), ConstExpr::Int(2)),
        (name("c"), ConstExpr::Int(3)),
    ])));
    assert_eq!(constant.type_check(&env), Err(Error::DuplicateField(name("c"))));
    let once = Type::Struct(fields(vec![("a", Type::Int), ("b", Type::Bool)]));
    assert_eq!(once.type_check(&env), Ok(()));
}
