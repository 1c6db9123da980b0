use sage_lir::check::TypeCheck;
use sage_lir::env::Env;
use sage_lir::error::{Error, SourceCodeLocation};
use sage_lir::mangle::mangle;
use sage_lir::poly::Monomorphs;
use sage_lir::report::LogLevel;
use sage_lir::syntax::{
    ConstExpr, Expr, Exprs, Fields, Mutability, Names, Params, PolyProcedure, Procedure, Type,
    Types, Name};

fn name(s: &str) -> Name {
    Name::from_str(s)
}

fn symbol(s: &str) -> Type {
    Type::Symbol(name(s))
}

fn pointer(t: Type) -> Type {
    Type::Pointer(Box::new(t))
}

fn var(s: &str) -> Expr {
    Expr::ConstExpr(ConstExpr::Symbol(name(s)))
}

fn tuple(items: Vec<Type>) -> Type {
    Type::Tuple(Box::new(Types::from_vec(items)))
}

fn structure(items: Vec<(&str, Type)>) -> Type {
    Type::Struct(Box::new(Fields::from_vec(
        items.into_iter().map(|(n, t)| (name(n), t)).collect(),
    )))
}

fn identity(cache: &mut Monomorphs) -> PolyProcedure {
    PolyProcedure::new(
        name("id"),
        vec![name("T")],
        vec![(name("x"), Mutability::Immutable, symbol("T"))],
        symbol("T"),
        var("x"),
        cache,
    )
}

fn constant(body: Expr, cache: &mut Monomorphs) -> PolyProcedure {
    PolyProcedure::new(name("f"), vec![name("T")], vec![], Type::Int, body, cache)
}

fn place() -> SourceCodeLocation {
    SourceCodeLocation {
        line: 3,
        column: 14,
        filename: Some("main.sg".to_string()),
        offset: 159,
        length: Some(26),
    }
}

#[test]
fn templates_keep_their_parts() {
    let mut cache = Monomorphs::new();
    let p = identity(&mut cache);
    assert_eq!(*p.get_name(), name("id"));
    assert_eq!(p.ty_params, Names::from_vec(vec![name("T")]));
    assert_eq!(
        p.args,
        Params::Cons(
            name("x"),
            Mutability::Immutable,
            symbol("T"),
            Box::new(Params::Nil)
        )
    );
    assert_eq!(p.ret, symbol("T"));
    assert_eq!(*p.body, var("x"));
}

#[test]
fn a_new_template_has_an_empty_table_of_its_own() {
    let env = Env::new();
    let mut cache = Monomorphs::new();
    let first = constant(Expr::ConstExpr(ConstExpr::Void), &mut cache);
    let second = constant(Expr::ConstExpr(ConstExpr::Int(1)), &mut cache);
    assert_ne!(first.id, second.id);
    assert_eq!(cache.len(&first), 0);
    assert_eq!(cache.len(&second), 0);

    let a = first.monomorphize(vec![Type::Int], &env, &mut cache).unwrap();
    assert_eq!(cache.len(&first), 1);
    assert_eq!(cache.len(&second), 0);

    let b = second.monomorphize(vec![Type::Int], &env, &mut cache).unwrap();
    assert_eq!(cache.len(&first), 1);
    assert_eq!(cache.len(&second), 1);
    assert_eq!(a.name, b.name);
    assert_ne!(a.body, b.body);
    assert_eq!(
        *b.body,
        Expr::LetTypes(
            Box::new(Fields::from_vec(vec![(name("T"), Type::Int)])),
            Box::new(Expr::ConstExpr(ConstExpr::Int(1)))
        )
    );

    let third = constant(Expr::ConstExpr(ConstExpr::Void), &mut cache);
    assert_eq!(cache.len(&third), 0);
    assert_eq!(cache.len(&first), 1);
}

#[test]
fn copies_of_a_template_share_its_table() {
    let env = Env::new();
    let mut cache = Monomorphs::new();
    let template = identity(&mut cache);
    let copy = template.clone();
    let first = template.monomorphize(vec![Type::Int], &env, &mut cache).unwrap();
    assert_eq!(cache.len(&copy), 1);
    let again = copy.monomorphize(vec![Type::Int], &env, &mut cache).unwrap();
    assert_eq!(cache.len(&template), 1);
    assert_eq!(first, again);
}

#[test]
fn monomorphize_binds_the_type_arguments() {
    let env = Env::new();
    let mut cache = Monomorphs::new();
    let p = identity(&mut cache).monomorphize(vec![Type::Int], &env, &mut cache).unwrap();
    assert_eq!(p.name, Some(name("__MONOMORPHIZED_(Int)id(x: Int)Int")));
    assert_eq!(
        p.args,
        Params::from_vec(vec![(name("x"), Mutability::Immutable, Type::Int)])
    );
    assert_eq!(p.ret, Type::Int);
    assert_eq!(
        *p.body,
        Expr::LetTypes(
            Box::new(Fields::from_vec(vec![(name("T"), Type::Int)])),
            Box::new(var("x"))
        )
    );
    assert_eq!(p.type_check(&env), Ok(()));
}

#[test]
fn monomorphize_substitutes_in_the_body() {
    let env = Env::new();
    let mut cache = Monomorphs::new();
    let template = PolyProcedure::new(
        name("null"),
        vec![name("T")],
        vec![],
        pointer(symbol("T")),
        Expr::As(Box::new(Expr::ConstExpr(ConstExpr::Null)), pointer(symbol("T"))),
        &mut cache,
    );
    let p = template.monomorphize(vec![Type::Bool], &env, &mut cache).unwrap();
    assert_eq!(p.name, Some(name("__MONOMORPHIZED_(Bool)null()&Bool")));
    assert_eq!(
        *p.body,
        Expr::LetTypes(
            Box::new(Fields::from_vec(vec![(name("T"), Type::Bool)])),
            Box::new(Expr::As(
                Box::new(Expr::ConstExpr(ConstExpr::Null)),
                pointer(Type::Bool)
            ))
        )
    );
}

#[test]
fn monomorphize_is_idempotent_per_key() {
    let mut env = Env::new();
    env.define_type(name("Word"), Type::Int);
    let mut cache = Monomorphs::new();
    let template = identity(&mut cache);
    let first = template.monomorphize(vec![Type::Int], &env, &mut cache).unwrap();
    assert_eq!(cache.len(&template), 1);
    let second = template.monomorphize(vec![symbol("Word")], &env, &mut cache).unwrap();
    assert_eq!(cache.len(&template), 1);
    assert_eq!(first.name, second.name);
    assert_eq!(first.body, second.body);
    assert_eq!(first, second);
}

#[test]
fn two_spellings_of_one_type_give_one_instance() {
    let env = Env::new();
    let mut cache = Monomorphs::new();
    let template = identity(&mut cache);
    let a = structure(vec![("a", Type::Int), ("b", Type::Bool)]);
    let b = structure(vec![("b", Type::Bool), ("a", Type::Int)]);
    assert_eq!(a.equals(&b, &env), Ok(true));
    let first = template.monomorphize(vec![a], &env, &mut cache).unwrap();
    assert_eq!(cache.len(&template), 1);
    let second = template.monomorphize(vec![b], &env, &mut cache).unwrap();
    assert_eq!(cache.len(&template), 1);
    assert_eq!(first.name, second.name);
    assert_eq!(first.args, second.args);
    assert_eq!(first.ret, second.ret);
    assert_eq!(first.body, second.body);
    assert_eq!(
        first.name,
        Some(name(
            "__MONOMORPHIZED_(struct {a: Int, b: Bool})id(x: struct {a: Int, b: Bool})struct {a: \
             Int, b: Bool}"
        ))
    );

    let on = Type::Enum(Names::from_vec(vec![name("On"), name("Off")]));
    let off = Type::Enum(Names::from_vec(vec![name("Off"), name("On"), name("Off")]));
    let first = template.monomorphize(vec![on], &env, &mut cache).unwrap();
    let second = template.monomorphize(vec![off], &env, &mut cache).unwrap();
    assert_eq!(cache.len(&template), 2);
    assert_eq!(first, second);
    assert_eq!(
        first.ret,
        Type::Enum(Names::from_vec(vec![name("Off"), name("On")]))
    );
}

#[test]
fn concrete_forms_are_in_canonical_order() {
    let env = Env::new();
    let t = structure(vec![
        ("b", Type::Bool),
        ("a", Type::Int),
        ("b", Type::Char),
        ("ab", Type::Cell),
        ("", Type::Float),
    ]);
    assert_eq!(
        t.simplify_until_concrete(&env),
        Ok(structure(vec![
            ("", Type::Float),
            ("a", Type::Int),
            ("ab", Type::Cell),
            ("b", Type::Bool),
        ]))
    );
    assert!(name("a").is_before(&name("ab")));
    assert!(name("ab").is_before(&name("b")));
    assert!(!name("b").is_before(&name("b")));
    assert!(!name("b").is_before(&name("a")));
}

#[test]
fn monomorphize_keeps_distinct_instances_apart() {
    let env = Env::new();
    let mut cache = Monomorphs::new();
    let template = identity(&mut cache);
    let a = template.monomorphize(vec![Type::Int], &env, &mut cache).unwrap();
    let b = template.monomorphize(vec![Type::Bool], &env, &mut cache).unwrap();
    let c = template.monomorphize(vec![pointer(Type::Int)], &env, &mut cache).unwrap();
    assert_eq!(cache.len(&template), 3);
    assert_ne!(a.name, b.name);
    assert_ne!(a.name, c.name);
    assert_ne!(b.name, c.name);
    assert_eq!(
        cache.get(&template, &Types::from_vec(vec![Type::Int]), &a.args, &a.ret),
        Some(&a)
    );
    assert_eq!(
        cache.get(&template, &Types::from_vec(vec![Type::Bool]), &b.args, &b.ret),
        Some(&b)
    );
    assert_eq!(
        cache.get(&template, &Types::from_vec(vec![Type::Bool]), &a.args, &a.ret),
        None
    );
    assert_eq!(
        cache.get(&template, &Types::from_vec(vec![Type::Char]), &a.args, &a.ret),
        None
    );
}

#[test]
fn monomorphize_needs_concrete_arguments() {
    let env = Env::new();
    let mut cache = Monomorphs::new();
    let template = identity(&mut cache);
    assert_eq!(
        template.monomorphize(vec![symbol("Missing")], &env, &mut cache),
        Err(Error::TypeNotDefined(name("Missing")))
    );
    let scheme = || Type::Poly(Names::from_vec(vec![name("U")]), Box::new(symbol("U")));
    assert_eq!(
        template.monomorphize(vec![scheme()], &env, &mut cache),
        Err(Error::NotConcrete(scheme()))
    );
    assert_eq!(
        template.monomorphize(vec![], &env, &mut cache),
        Err(Error::InvalidTemplateArgs(Type::Apply(
            Box::new(Type::Poly(
                Names::from_vec(vec![name("T")]),
                Box::new(symbol("T"))
            )),
            Box::new(Types::Nil)
        )))
    );
    assert_eq!(cache.len(&template), 0);
}

#[test]
fn one_spelling_read_in_two_environments_gives_two_instances() {
    let mut cache = Monomorphs::new();
    let template = PolyProcedure::new(
        name("f"),
        vec![name("T")],
        vec![(name("x"), Mutability::Immutable, symbol("A"))],
        Type::Int,
        Expr::ConstExpr(ConstExpr::Int(1)),
        &mut cache,
    );
    let mut ints = Env::new();
    ints.define_type(name("A"), Type::Int);
    let mut bools = Env::new();
    bools.define_type(name("A"), Type::Bool);

    let first = template.monomorphize(vec![Type::Char], &ints, &mut cache).unwrap();
    assert_eq!(
        first.args,
        Params::from_vec(vec![(name("x"), Mutability::Immutable, Type::Int)])
    );
    let second = template.monomorphize(vec![Type::Char], &bools, &mut cache).unwrap();
    assert_eq!(
        second.args,
        Params::from_vec(vec![(name("x"), Mutability::Immutable, Type::Bool)])
    );
    assert_ne!(first.name, second.name);
    assert_eq!(cache.len(&template), 2);
    let again = template.monomorphize(vec![Type::Char], &ints, &mut cache).unwrap();
    assert_eq!(again, first);
    assert_eq!(cache.len(&template), 2);
}

#[test]
fn a_failing_parameter_or_return_type_fails_the_request() {
    let mut cache = Monomorphs::new();
    let template = PolyProcedure::new(
        name("f"),
        vec![name("T")],
        vec![
            (name("x"), Mutability::Immutable, symbol("T")),
            (name("y"), Mutability::Immutable, symbol("A")),
        ],
        symbol("B"),
        Expr::ConstExpr(ConstExpr::Int(1)),
        &mut cache,
    );
    let mut env = Env::new();
    env.define_type(name("A"), Type::Int);
    env.define_type(name("B"), Type::Int);
    template.monomorphize(vec![Type::Char], &env, &mut cache).unwrap();
    assert_eq!(cache.len(&template), 1);

    // The table has an instance for these arguments, and still the errors come first.
    let mut no_a = Env::new();
    no_a.define_type(name("B"), Type::Int);
    assert_eq!(
        template.monomorphize(vec![Type::Char], &no_a, &mut cache),
        Err(Error::TypeNotDefined(name("A")))
    );
    let mut no_b = Env::new();
    no_b.define_type(name("A"), Type::Int);
    assert_eq!(
        template.monomorphize(vec![Type::Char], &no_b, &mut cache),
        Err(Error::TypeNotDefined(name("B")))
    );
    let neither = Env::new();
    assert_eq!(
        template.monomorphize(vec![symbol("C")], &neither, &mut cache),
        Err(Error::TypeNotDefined(name("C")))
    );
    assert_eq!(
        template.monomorphize(vec![Type::Char], &neither, &mut cache),
        Err(Error::TypeNotDefined(name("A")))
    );
    assert_eq!(cache.len(&template), 1);
}

#[test]
fn templates_are_equal_whatever_their_tables_hold() {
    let env = Env::new();
    let mut cache = Monomorphs::new();
    let a = identity(&mut cache);
    let b = identity(&mut cache);
    assert_ne!(a.id, b.id);
    a.monomorphize(vec![Type::Int], &env, &mut cache).unwrap();
    assert_eq!(cache.len(&a), 1);
    assert_eq!(cache.len(&b), 0);
    assert_eq!(a, b);
    assert!(a.is_same(&b));
    assert_eq!(
        Expr::ConstExpr(ConstExpr::PolyProc(a.clone())),
        Expr::ConstExpr(ConstExpr::PolyProc(b.clone()))
    );

    let mut other = identity(&mut cache);
    other.name = name("other");
    assert_ne!(a, other);
    let mut other = identity(&mut cache);
    other.ty_params = Names::from_vec(vec![name("U")]);
    assert_ne!(a, other);
    let mut other = identity(&mut cache);
    other.args = Params::Nil;
    assert_ne!(a, other);
    let mut other = identity(&mut cache);
    other.ret = Type::Int;
    assert_ne!(a, other);
    let mut other = identity(&mut cache);
    other.body = Box::new(var("y"));
    assert!(!a.is_same(&other));
    assert_ne!(a, other);
}

#[test]
fn recursive_templates_are_elaborated_once_per_request() {
    let env = Env::new();
    let mut cache = Monomorphs::new();
    // A template whose body asks for itself at the pointee of its argument.
    let step = ConstExpr::Monomorphize(
        Box::new(ConstExpr::Symbol(name("depth"))),
        Types::from_vec(vec![symbol("T")]),
    );
    let template = PolyProcedure::new(
        name("depth"),
        vec![name("T")],
        vec![(name("x"), Mutability::Immutable, pointer(symbol("T")))],
        Type::Int,
        Expr::Apply(
            Box::new(Expr::ConstExpr(step)),
            Box::new(Exprs::from_vec(vec![Expr::Deref(Box::new(var("x")))])),
        ),
        &mut cache,
    );
    let mut arg = Type::Int;
    let mut requested = 0;
    for _ in 0..5 {
        let p = template.monomorphize(vec![arg.clone()], &env, &mut cache).unwrap();
        requested += 1;
        assert_eq!(cache.len(&template), requested);
        assert_eq!(p.ret, Type::Int);
        arg = pointer(arg);
    }
    let mut arg = Type::Int;
    for _ in 0..5 {
        template.monomorphize(vec![arg.clone()], &env, &mut cache).unwrap();
        assert_eq!(cache.len(&template), 5);
        arg = pointer(arg);
    }
}

#[test]
fn substitution_leaves_the_body_of_a_template_alone() {
    let mut cache = Monomorphs::new();
    let template = PolyProcedure::new(
        name("g"),
        vec![name("T")],
        vec![(name("x"), Mutability::Immutable, symbol("U"))],
        symbol("U"),
        Expr::As(Box::new(var("x")), symbol("U")),
        &mut cache,
    );
    let changed = template.substitute(&name("U"), &Type::Int);
    assert_eq!(
        changed.args,
        Params::from_vec(vec![(name("x"), Mutability::Immutable, Type::Int)])
    );
    assert_eq!(changed.ret, Type::Int);
    assert_eq!(*changed.body, Expr::As(Box::new(var("x")), symbol("U")));
    assert_eq!(template.substitute(&name("T"), &Type::Int), template);
}

#[test]
fn mangled_names_spell_out_the_instance() {
    let ty_args = Types::from_vec(vec![
        Type::Int,
        pointer(Type::Bool),
        Type::Array(Box::new(Type::Char), Box::new(ConstExpr::Int(12))),
    ]);
    let args = Params::from_vec(vec![
        (name("a"), Mutability::Mutable, tuple(vec![Type::Int, Type::Float])),
        (
            name("b"),
            Mutability::Immutable,
            structure(vec![("x", Type::Cell), ("y", Type::Never)]),
        ),
    ]);
    let ret = Type::Proc(
        Box::new(Types::from_vec(vec![Type::Enum(Names::from_vec(vec![
            name("On"),
            name("Off"),
        ]))])),
        Box::new(Type::Unit(name("Metres"), Box::new(Type::Void))),
    );
    assert_eq!(
        mangle(&name("f"), &ty_args, &args, &ret),
        name(
            "__MONOMORPHIZED_(Int, &Bool, [Char * 12])f(mut a: (Int, Float), b: struct {x: Cell, \
             y: Never})proc(enum {On, Off}) -> unit Metres = Void"
        )
    );
}

#[test]
fn types_have_a_text() {
    assert_eq!(Type::Any.to_text(), name("Any"));
    assert_eq!(symbol("T").to_text(), name("T"));
    assert_eq!(tuple(vec![]).to_text(), name("()"));
    assert_eq!(
        Type::Array(Box::new(Type::Int), Box::new(ConstExpr::Int(-7))).to_text(),
        name("[Int * -7]")
    );
    assert_eq!(
        Type::Array(Box::new(Type::Int), Box::new(ConstExpr::Int(i64::MIN))).to_text(),
        name("[Int * -9223372036854775808]")
    );
    assert_eq!(
        Type::Array(Box::new(Type::Int), Box::new(ConstExpr::Int(1090))).to_text(),
        name("[Int * 1090]")
    );
    assert_eq!(
        Type::Array(Box::new(Type::Int), Box::new(ConstExpr::Symbol(name("N")))).to_text(),
        name("[Int * ?]")
    );
    assert_eq!(
        Type::Union(Box::new(Fields::from_vec(vec![(name("a"), Type::Int)]))).to_text(),
        name("union {a: Int}")
    );
    assert_eq!(
        Type::Let(name("T"), Box::new(Type::Int), Box::new(symbol("T"))).to_text(),
        name("let T = Int in T")
    );
    assert_eq!(
        Type::Apply(
            Box::new(Type::Poly(
                Names::from_vec(vec![name("A"), name("B")]),
                Box::new(symbol("A"))
            )),
            Box::new(Types::from_vec(vec![Type::Int, Type::Bool]))
        )
        .to_text(),
        name("<A, B> A<Int, Bool>")
    );
}

#[test]
fn scopes_copy_and_shadow() {
    let mut outer = Env::new();
    outer.define_type(name("T"), Type::Int);
    outer.define_var(name("x"), Mutability::Immutable, Type::Int);
    let mut inner = outer.new_scope();
    inner.define_type(name("T"), Type::Bool);
    inner.define_type(name("U"), Type::Char);
    inner.define_var(name("x"), Mutability::Mutable, Type::Float);
    assert_eq!(inner.get_type(&name("T")), Some(&Type::Bool));
    assert_eq!(inner.get_var(&name("x")), Some((Mutability::Mutable, &Type::Float)));
    assert_eq!(outer.get_type(&name("T")), Some(&Type::Int));
    assert_eq!(outer.get_type(&name("U")), None);
    assert_eq!(outer.get_var(&name("x")), Some((Mutability::Immutable, &Type::Int)));
}

#[test]
fn namespaces_do_not_alias() {
    let mut env = Env::new();
    env.define_type(name("x"), Type::Int);
    assert_eq!(env.get_var(&name("x")), None);
    assert_eq!(env.get_const(&name("x")), None);
    assert_eq!(env.get_proc(&name("x")), None);
    env.define_var(name("x"), Mutability::Immutable, Type::Bool);
    env.define_const(name("x"), ConstExpr::Int(1));
    let p = Procedure { name: None, args: Params::Nil, ret: Type::Void, body: Box::new(var("x")) };
    env.define_proc(name("x"), p.clone());
    assert_eq!(env.get_type(&name("x")), Some(&Type::Int));
    assert_eq!(env.get_var(&name("x")), Some((Mutability::Immutable, &Type::Bool)));
    assert_eq!(env.get_const(&name("x")), Some(&ConstExpr::Int(1)));
    assert_eq!(env.get_proc(&name("x")), Some(&p));
}

#[test]
fn arguments_must_not_collide_within_a_frame() {
    let mut env = Env::new();
    env.define_var(name("x"), Mutability::Immutable, Type::Int);
    let args = Params::from_vec(vec![
        (name("x"), Mutability::Immutable, Type::Bool),
        (name("y"), Mutability::Mutable, Type::Char),
    ]);
    let before = env.clone();
    assert_eq!(env.define_args(&args), Err(Error::DuplicateArgument(name("x"))));
    assert_eq!(env, before);

    let mut scope = env.new_scope();
    assert_eq!(scope.define_args(&args), Ok(()));
    assert_eq!(scope.get_var(&name("x")), Some((Mutability::Immutable, &Type::Bool)));
    assert_eq!(scope.get_var(&name("y")), Some((Mutability::Mutable, &Type::Char)));
    assert_eq!(scope.define_args(&args), Err(Error::DuplicateArgument(name("x"))));

    let twice = Params::from_vec(vec![
        (name("a"), Mutability::Immutable, Type::Bool),
        (name("a"), Mutability::Immutable, Type::Char),
    ]);
    let mut scope = env.new_scope();
    assert_eq!(scope.define_args(&twice), Err(Error::DuplicateArgument(name("a"))));
    assert_eq!(scope.get_var(&name("a")), None);
}

#[test]
fn expected_return_type_is_one_slot() {
    let mut env = Env::new();
    assert_eq!(env.get_expected_return_type(), None);
    env.set_expected_return_type(Type::Int);
    env.set_expected_return_type(Type::Bool);
    assert_eq!(env.get_expected_return_type(), Some(&Type::Bool));
    let inner = env.new_scope();
    assert_eq!(inner.get_expected_return_type(), Some(&Type::Bool));
}

#[test]
fn blocks_of_definitions_put_the_first_innermost() {
    let mut env = Env::new();
    env.define_type(name("A"), Type::Int);
    env.define_types(&Fields::from_vec(vec![
        (name("A"), Type::Bool),
        (name("A"), Type::Char),
        (name("B"), Type::Float),
    ]));
    assert_eq!(env.get_type(&name("A")), Some(&Type::Bool));
    assert_eq!(env.get_type(&name("B")), Some(&Type::Float));
    env.define_opaque(&Names::from_vec(vec![name("T")]));
    assert_eq!(
        env.get_type(&name("T")),
        Some(&Type::Unit(name("T"), Box::new(Type::Void)))
    );
}

#[test]
fn errors_can_be_annotated() {
    let e = Error::TypeNotDefined(name("T")).annotate(place());
    assert_eq!(
        e,
        Error::Annotated(Box::new(Error::TypeNotDefined(name("T"))), place())
    );
}

#[test]
fn annotated_errors_are_joined_with_their_source() {
    let code = "let x = 5 in y";
    let e = sage_lir::report::Error::LirError(
        Error::SymbolNotDefined(name("y")).annotate(place()),
    );
    assert_eq!(
        e.annotate_with_source(code),
        sage_lir::report::Error::WithSourceCode {
            loc: place(),
            source_code: code.to_string(),
            err: Box::new(sage_lir::report::Error::LirError(Error::SymbolNotDefined(name("y")))),
        }
    );
    let bare = sage_lir::report::Error::LirError(Error::SymbolNotDefined(name("y")));
    assert_eq!(
        bare.annotate_with_source(code),
        sage_lir::report::Error::LirError(Error::SymbolNotDefined(name("y")))
    );
    let parse = sage_lir::report::Error::Parse("unexpected token".to_string());
    assert_eq!(
        parse.annotate_with_source(code),
        sage_lir::report::Error::Parse("unexpected token".to_string())
    );
}

#[test]
fn places_have_a_text_and_a_span() {
    assert_eq!(place().describe(), "main.sg:3:14:159");
    assert_eq!(place().span(), (159, 185));
    let nowhere = SourceCodeLocation {
        line: 0,
        column: 10,
        filename: None,
        offset: usize::MAX - 1,
        length: Some(5),
    };
    assert_eq!(nowhere.describe(), format!("unknown:0:10:{}", usize::MAX - 1));
    assert_eq!(nowhere.span(), (usize::MAX - 1, usize::MAX));
    let point = SourceCodeLocation { line: 1, column: 1, filename: None, offset: 7, length: None };
    assert_eq!(point.span(), (7, 7));
}

#[test]
fn log_levels_follow_the_debug_symbol() {
    assert_eq!(LogLevel::Error.filter(false), LogLevel::Error);
    assert_eq!(LogLevel::Warn.filter(false), LogLevel::Warn);
    assert_eq!(LogLevel::Info.filter(false), LogLevel::Info);
    assert_eq!(LogLevel::Off.filter(false), LogLevel::Error);
    assert_eq!(LogLevel::Debug.filter(false), LogLevel::Debug);
    assert_eq!(LogLevel::Trace.filter(false), LogLevel::Trace);
    assert_eq!(LogLevel::Error.filter(true), LogLevel::Debug);
    assert_eq!(LogLevel::Warn.filter(true), LogLevel::Debug);
    assert_eq!(LogLevel::Info.filter(true), LogLevel::Debug);
    assert_eq!(LogLevel::Off.filter(true), LogLevel::Debug);
    assert_eq!(LogLevel::Trace.filter(true), LogLevel::Trace);
}
