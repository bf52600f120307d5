use fzn2lp::ast::{
    AnnExpr, Annotation, ArrayOfIntExpr, ArrayOfSetExpr, BasicParType, BasicPredParType,
    BasicType, BoolExpr, ConstraintItem, Expr, FloatExpr, Goal, IndexSet, IntExpr, ParDeclItem,
    PredIndexSet, PredParType, PredicateItem, SetExpr, SetLiteral, SetLiteralExpr, SolveItem, Stmt,
    VarDeclItem,
};
use fzn2lp::text::facts_text;
use fzn2lp::translate::{finish, write_fz_stmt, FlatZincError, Placement};

fn float(f: f64) -> String {
    format!("{}", f)
}

fn s(t: &str) -> String {
    t.to_string()
}

fn run(stmt: &Stmt, counter: &mut usize, level: &mut i32) -> String {
    let mut out = Vec::new();
    write_fz_stmt(&mut out, stmt, counter, level).unwrap();
    facts_text(&out)
}

fn anno(id: &str) -> Annotation {
    Annotation { id: s(id), expressions: vec![] }
}

fn int_range(lb: i128, ub: i128) -> SetExpr {
    SetExpr::SetLiteral(SetLiteralExpr::IntInRange(IntExpr::Int(lb), IntExpr::Int(ub)))
}

fn ints(v: &[i128]) -> SetExpr {
    SetExpr::SetLiteral(SetLiteralExpr::SetInts(v.iter().map(|i| IntExpr::Int(*i)).collect()))
}

fn var(id: &str) -> Stmt {
    Stmt::Variable(VarDeclItem::Bool { id: s(id), expr: None, annos: vec![] })
}

#[test]
fn test_variables() {
    let mut counter = 0;
    let mut level = 0;
    let res = run(
        &Stmt::Variable(VarDeclItem::Int {
            id: s("a"),
            expr: Some(IntExpr::Int(1)),
            annos: vec![anno("output_var")],
        }),
        &mut counter,
        &mut level,
    );
    assert_eq!(
        res,
        "variable_type(\"a\",int).\n\
         variable_value(\"a\",value,1).\n\
         output_var(\"a\").\n"
            .to_string()
    );
    let res = run(
        &Stmt::Variable(VarDeclItem::IntInRange {
            id: s("a"),
            lb: 1,
            ub: 3,
            expr: None,
            annos: vec![],
        }),
        &mut counter,
        &mut level,
    );
    assert_eq!(res, "variable_type(\"a\",range,(value,1,value,3)).\n".to_string());
    let res = run(
        &Stmt::Variable(VarDeclItem::IntInSet {
            id: s("a"),
            set: vec![1, 2, 3],
            expr: None,
            annos: vec![],
        }),
        &mut counter,
        &mut level,
    );
    assert_eq!(
        res,
        "variable_type(\"a\",set,(value,1)).\n\
         variable_type(\"a\",set,(value,2)).\n\
         variable_type(\"a\",set,(value,3)).\n"
            .to_string()
    );
    let res = run(
        &Stmt::Variable(VarDeclItem::Float {
            id: s("b"),
            expr: Some(FloatExpr::Float(float(1.0))),
            annos: vec![],
        }),
        &mut counter,
        &mut level,
    );
    assert_eq!(
        res,
        "variable_type(\"b\",float).\n\
         variable_value(\"b\",value,\"1\").\n"
            .to_string()
    );
    let res = run(
        &Stmt::Variable(VarDeclItem::BoundedFloat {
            id: s("b"),
            lb: float(0.5),
            ub: float(1.5),
            expr: Some(FloatExpr::Float(float(1.0))),
            annos: vec![],
        }),
        &mut counter,
        &mut level,
    );
    assert_eq!(
        res,
        "variable_type(\"b\",float,(bounds,value,\"0.5\",value,\"1.5\")).\n\
         variable_value(\"b\",value,\"1\").\n"
            .to_string()
    );
    let res = run(
        &Stmt::Variable(VarDeclItem::Bool {
            id: s("c"),
            expr: Some(BoolExpr::Bool(true)),
            annos: vec![],
        }),
        &mut counter,
        &mut level,
    );
    assert_eq!(
        res,
        "variable_type(\"c\",bool).\n\
         variable_value(\"c\",value,true).\n"
            .to_string()
    );
    let res = run(
        &Stmt::Variable(VarDeclItem::ArrayOfInt {
            ix: IndexSet(2),
            id: s("d"),
            annos: vec![],
            array_expr: Some(ArrayOfIntExpr::Array(vec![IntExpr::Int(42), IntExpr::Int(23)])),
        }),
        &mut counter,
        &mut level,
    );
    assert_eq!(
        res,
        "variable_type(\"d\",array(2,int)).\n\
         variable_value(\"d\",array,(0,value,42)).\n\
         variable_value(\"d\",array,(1,value,23)).\n"
            .to_string()
    );
    let res = run(
        &Stmt::Variable(VarDeclItem::ArrayOfFloat {
            ix: IndexSet(2),
            id: s("e"),
            annos: vec![Annotation {
                id: s("output_array"),
                expressions: vec![AnnExpr::Expr(Expr::ArrayOfSet(vec![
                    int_range(1, 2),
                    int_range(1, 2),
                ]))],
            }],
            array_expr: Some(fzn2lp::ast::ArrayOfFloatExpr::Array(vec![
                FloatExpr::Float(float(42.1)),
                FloatExpr::Float(float(23.1)),
            ])),
        }),
        &mut counter,
        &mut level,
    );
    assert_eq!(
        res,
        "variable_type(\"e\",array(2,float)).\n\
         variable_value(\"e\",array,(0,value,\"42.1\")).\n\
         variable_value(\"e\",array,(1,value,\"23.1\")).\n\
         output_array(\"e\",0,(1,2)).\n\
         output_array(\"e\",1,(1,2)).\n"
            .to_string()
    );
    let res = run(
        &Stmt::Variable(VarDeclItem::SubSetOfIntRange {
            id: s("f"),
            lb: 17,
            ub: 42,
            expr: Some(ints(&[17, 23])),
            annos: vec![],
        }),
        &mut counter,
        &mut level,
    );
    assert_eq!(
        res,
        "variable_type(\"f\",set_of_int,(range,value,17,value,42)).\n\
         variable_value(\"f\",set,(value,17)).\n\
         variable_value(\"f\",set,(value,23)).\n"
            .to_string()
    );
    let res = run(
        &Stmt::Variable(VarDeclItem::SubSetOfIntSet {
            id: s("f"),
            set: vec![17, 23, 100],
            expr: Some(ints(&[17, 23])),
            annos: vec![],
        }),
        &mut counter,
        &mut level,
    );
    assert_eq!(
        res,
        "variable_type(\"f\",set_of_int,(set,value,17)).\n\
         variable_type(\"f\",set_of_int,(set,value,23)).\n\
         variable_type(\"f\",set_of_int,(set,value,100)).\n\
         variable_value(\"f\",set,(value,17)).\n\
         variable_value(\"f\",set,(value,23)).\n"
            .to_string()
    );
    let res = run(
        &Stmt::Variable(VarDeclItem::ArrayOfSubSetOfIntRange {
            ub: 42,
            lb: 17,
            ix: IndexSet(3),
            id: s("h"),
            annos: vec![],
            array_expr: Some(ArrayOfSetExpr::Array(vec![
                ints(&[42, 17]),
                SetExpr::SetLiteral(SetLiteralExpr::IntInRange(
                    IntExpr::Int(23),
                    IntExpr::VarParIdentifier(s("X")),
                )),
                ints(&[]),
            ])),
        }),
        &mut counter,
        &mut level,
    );
    assert_eq!(
        res,
        "variable_type(\"h\",array(3,set_of_int,(range,value,17,value,42))).\n\
         variable_value(\"h\",array,(0,set,(value,42))).\n\
         variable_value(\"h\",array,(0,set,(value,17))).\n\
         variable_value(\"h\",array,(1,range,(value,23,var,\"X\"))).\n\
         variable_value(\"h\",array,(2,empty_set)).\n"
            .to_string()
    );
}

#[test]
fn test_parameters() {
    let mut counter = 0;
    let mut level = 0;
    let res = run(
        &Stmt::Parameter(ParDeclItem::Int { id: s("a"), int: 1 }),
        &mut counter,
        &mut level,
    );
    assert_eq!(res, "parameter_value(\"a\",value,1).\n".to_string());
    let res = run(
        &Stmt::Parameter(ParDeclItem::Float { id: s("b"), float: float(1.1) }),
        &mut counter,
        &mut level,
    );
    assert_eq!(res, "parameter_value(\"b\",value,\"1.1\").\n".to_string());
    let res = run(
        &Stmt::Parameter(ParDeclItem::Bool { id: s("c"), bool: true }),
        &mut counter,
        &mut level,
    );
    assert_eq!(res, "parameter_value(\"c\",value,true).\n".to_string());
    let res = run(
        &Stmt::Parameter(ParDeclItem::ArrayOfInt { ix: IndexSet(2), id: s("d"), v: vec![42, 23] }),
        &mut counter,
        &mut level,
    );
    assert_eq!(
        res,
        "parameter_value(\"d\",array,(0,value,42)).\n\
         parameter_value(\"d\",array,(1,value,23)).\n"
            .to_string()
    );
    let res = run(
        &Stmt::Parameter(ParDeclItem::ArrayOfFloat {
            ix: IndexSet(2),
            id: s("e"),
            v: vec![float(42.1), float(23.0)],
        }),
        &mut counter,
        &mut level,
    );
    assert_eq!(
        res,
        "parameter_value(\"e\",array,(0,value,\"42.1\")).\n\
         parameter_value(\"e\",array,(1,value,\"23\")).\n"
            .to_string()
    );
    let res = run(
        &Stmt::Parameter(ParDeclItem::SetOfInt {
            id: s("f"),
            set_literal: SetLiteral::IntRange(23, 42),
        }),
        &mut counter,
        &mut level,
    );
    assert_eq!(res, "parameter_value(\"f\",range,(value,23,value,42)).\n".to_string());
    let res = run(
        &Stmt::Parameter(ParDeclItem::ArrayOfSet {
            ix: IndexSet(3),
            id: s("h"),
            v: vec![
                SetLiteral::SetInts(vec![42, 17]),
                SetLiteral::IntRange(1, 5),
                SetLiteral::SetInts(vec![]),
            ],
        }),
        &mut counter,
        &mut level,
    );
    assert_eq!(
        res,
        "parameter_value(\"h\",array,(0,set,(value,42))).\n\
         parameter_value(\"h\",array,(0,set,(value,17))).\n\
         parameter_value(\"h\",array,(1,range,(value,1,value,5))).\n\
         parameter_value(\"h\",array,(2,empty_set)).\n"
            .to_string()
    );
}

fn sample_constraint() -> Stmt {
    Stmt::Constraint(ConstraintItem {
        id: s("bla"),
        exprs: vec![
            Expr::Int(42),
            Expr::Float(float(42.1)),
            Expr::Bool(true),
            Expr::VarParIdentifier(s("a")),
            Expr::ArrayOfInt(vec![
                IntExpr::Int(42),
                IntExpr::Int(17),
                IntExpr::VarParIdentifier(s("X")),
            ]),
            Expr::SetLiteral(SetLiteralExpr::SetInts(vec![
                IntExpr::VarParIdentifier(s("X")),
                IntExpr::Int(34),
            ])),
            Expr::SetLiteral(SetLiteralExpr::IntInRange(IntExpr::Int(37), IntExpr::Int(48))),
            Expr::ArrayOfSet(vec![
                ints(&[42, 17]),
                int_range(17, 34),
                SetExpr::SetLiteral(SetLiteralExpr::SetInts(vec![
                    IntExpr::VarParIdentifier(s("X")),
                    IntExpr::VarParIdentifier(s("Y")),
                ])),
            ]),
        ],
        annos: vec![],
    })
}

#[test]
fn test_constraint() {
    let mut counter = 0;
    let mut level = 0;
    let res = run(&sample_constraint(), &mut counter, &mut level);
    assert_eq!(
        res,
        "constraint(c1,\"bla\").\n\
         constraint_value(c1,0,value,42).\n\
         constraint_value(c1,1,value,\"42.1\").\n\
         constraint_value(c1,2,value,true).\n\
         constraint_value(c1,3,var,\"a\").\n\
         constraint_value(c1,4,array,(0,value,42)).\n\
         constraint_value(c1,4,array,(1,value,17)).\n\
         constraint_value(c1,4,array,(2,var,\"X\")).\n\
         constraint_value(c1,5,set,(var,\"X\")).\n\
         constraint_value(c1,5,set,(value,34)).\n\
         constraint_value(c1,6,range,(value,37,value,48)).\n\
         constraint_value(c1,7,array,(0,set,(value,42))).\n\
         constraint_value(c1,7,array,(0,set,(value,17))).\n\
         constraint_value(c1,7,array,(1,range,(value,17,value,34))).\n\
         constraint_value(c1,7,array,(2,set,(var,\"X\"))).\n\
         constraint_value(c1,7,array,(2,set,(var,\"Y\"))).\n"
            .to_string()
    );
}

#[test]
fn constraint_positions_cover_every_argument() {
    let mut counter = 0;
    let mut level = 0;
    let mut out = Vec::new();
    write_fz_stmt(&mut out, &sample_constraint(), &mut counter, &mut level).unwrap();
    let mut seen = Vec::new();
    for line in out.iter().skip(1) {
        let pos: usize = line.split(',').nth(1).unwrap().parse().unwrap();
        if !seen.contains(&pos) {
            seen.push(pos);
        }
    }
    assert_eq!(seen, (0..8).collect::<Vec<usize>>());
}

#[test]
fn constraints_are_numbered_in_sequence() {
    let mut counter = 0;
    let mut level = 0;
    let c = Stmt::Constraint(ConstraintItem { id: s("p"), exprs: vec![], annos: vec![] });
    assert_eq!(run(&c, &mut counter, &mut level), "constraint(c1,\"p\").\n");
    assert_eq!(run(&c, &mut counter, &mut level), "constraint(c2,\"p\").\n");
    assert_eq!(counter, 2);
    assert_eq!(level, 4);
}

fn solve(goal: Goal) -> Stmt {
    Stmt::SolveItem(SolveItem { goal, annotations: vec![] })
}

#[test]
fn second_solve_item_is_refused() {
    let mut counter = 0;
    let mut level = 1;
    assert_eq!(run(&solve(Goal::Satisfy), &mut counter, &mut level), "solve(satisfy).\n");
    assert_eq!(level, 5);
    assert!(finish(level).is_ok());
    let mut out = Vec::new();
    let r = write_fz_stmt(&mut out, &solve(Goal::Satisfy), &mut counter, &mut level);
    assert!(matches!(r, Err(FlatZincError::MultipleSolveItems)));
    assert!(out.is_empty());
    assert_eq!(level, 5);
}

#[test]
fn missing_solve_item_is_reported() {
    let mut counter = 0;
    let mut level = 1;
    run(&var("x"), &mut counter, &mut level);
    assert_eq!(level, 3);
    assert!(matches!(finish(level), Err(FlatZincError::NoSolveItem)));
}

#[test]
fn statements_out_of_order_are_still_translated() {
    let mut counter = 0;
    let mut level = 1;
    let mut out = Vec::new();
    let c = Stmt::Constraint(ConstraintItem { id: s("p"), exprs: vec![], annos: vec![] });
    assert_eq!(write_fz_stmt(&mut out, &c, &mut counter, &mut level).unwrap(), Placement::InOrder);
    let mut out = Vec::new();
    let r = write_fz_stmt(&mut out, &var("x"), &mut counter, &mut level).unwrap();
    assert_eq!(r, Placement::OutOfOrder);
    assert_eq!(level, 4);
    assert_eq!(facts_text(&out), "variable_type(\"x\",bool).\n");
    let mut out = Vec::new();
    let comment = Stmt::Comment(s(" note"));
    assert_eq!(
        write_fz_stmt(&mut out, &comment, &mut counter, &mut level).unwrap(),
        Placement::InOrder
    );
    assert_eq!(facts_text(&out), "% note\n");
}

#[test]
fn reencoding_gives_identical_lines() {
    let stmt = Stmt::Variable(VarDeclItem::ArrayOfSet {
        ix: IndexSet(2),
        id: s("g"),
        annos: vec![],
        array_expr: Some(ArrayOfSetExpr::Array(vec![ints(&[]), SetExpr::VarParIdentifier(s("Z"))])),
    });
    let mut counter = 0;
    let mut level = 0;
    let first = run(&stmt, &mut counter, &mut level);
    let second = run(&stmt, &mut counter, &mut level);
    assert_eq!(first, second);
    assert_eq!(
        first,
        "variable_type(\"g\",array(2,set)).\n\
         variable_value(\"g\",array,(0,empty_set)).\n\
         variable_value(\"g\",array,(1,var,\"Z\")).\n"
    );
}

#[test]
fn predicate_parameters_carry_their_types() {
    let mut counter = 0;
    let mut level = 0;
    let p = Stmt::Predicate(PredicateItem {
        id: s("my_pred"),
        parameters: vec![
            (PredParType::Basic(BasicPredParType::BasicParType(BasicParType::BasicType(BasicType::Int))), s("x")),
            (
                PredParType::Array {
                    ix: PredIndexSet::Int,
                    par_type: BasicPredParType::IntInSet(vec![1, -2]),
                },
                s("ys"),
            ),
            (
                PredParType::Array {
                    ix: PredIndexSet::IndexSet(3),
                    par_type: BasicPredParType::FloatInSet(vec![float(0.5)]),
                },
                s("zs"),
            ),
        ],
    });
    assert_eq!(
        run(&p, &mut counter, &mut level),
        "predicate(\"my_pred\").\n\
         predicate_parameter(\"my_pred\",0,\"x\",int).\n\
         predicate_parameter(\"my_pred\",1,\"ys\",array(int,set,(value,1))).\n\
         predicate_parameter(\"my_pred\",1,\"ys\",array(int,set,(value,-2))).\n\
         predicate_parameter(\"my_pred\",2,\"zs\",array(3,float_in_set(0.5))).\n"
    );
    assert_eq!(level, 0);
}

#[test]
fn optimisation_goals() {
    let mut counter = 0;
    let mut level = 4;
    let g = solve(Goal::OptimizeInt(
        fzn2lp::ast::OptimizationType::Minimize,
        IntExpr::VarParIdentifier(s("cost")),
    ));
    assert_eq!(run(&g, &mut counter, &mut level), "solve(minimize,var,\"cost\").\n");
    let mut level = 4;
    let g = solve(Goal::OptimizeSet(fzn2lp::ast::OptimizationType::Maximize, ints(&[3, 4])));
    assert_eq!(
        run(&g, &mut counter, &mut level),
        "solve(maximize,set,(value,3)).\nsolve(maximize,set,(value,4)).\n"
    );
}

#[test]
fn integer_extremes_are_written_in_decimal() {
    let mut counter = 0;
    let mut level = 0;
    let stmt = Stmt::Parameter(ParDeclItem::ArrayOfInt {
        ix: IndexSet(3),
        id: s("n"),
        v: vec![i128::MIN, 0, i128::MAX],
    });
    assert_eq!(
        run(&stmt, &mut counter, &mut level),
        format!(
            "parameter_value(\"n\",array,(0,value,{})).\n\
             parameter_value(\"n\",array,(1,value,0)).\n\
             parameter_value(\"n\",array,(2,value,{})).\n",
            i128::MIN,
            i128::MAX
        )
    );
}

#[test]
fn empty_parameter_set_is_marked() {
    let mut counter = 0;
    let mut level = 0;
    let stmt = Stmt::Parameter(ParDeclItem::SetOfInt {
        id: s("e"),
        set_literal: SetLiteral::SetFloats(vec![]),
    });
    assert_eq!(run(&stmt, &mut counter, &mut level), "parameter_value(\"e\",empty_set).\n");
}

#[test]
fn malformed_output_array_is_detected() {
    let good = vec![anno("other"), Annotation {
        id: s("output_array"),
        expressions: vec![AnnExpr::Expr(Expr::ArrayOfSet(vec![int_range(1, 4)]))],
    }];
    assert!(fzn2lp::emit::output_array_well_formed(&good));
    let bad = vec![Annotation {
        id: s("output_array"),
        expressions: vec![AnnExpr::Expr(Expr::ArrayOfSet(vec![ints(&[1, 2])]))],
    }];
    assert!(!fzn2lp::emit::output_array_well_formed(&bad));
    assert!(!fzn2lp::emit::output_array_well_formed(&vec![anno("output_array")]));
    assert!(fzn2lp::emit::output_array_well_formed(&vec![anno("output_var")]));
}

#[test]
fn output_var_is_written_once() {
    let mut counter = 0;
    let mut level = 0;
    let stmt = Stmt::Variable(VarDeclItem::Bool {
        id: s("v"),
        expr: None,
        annos: vec![anno("output_var"), anno("is_defined_var"), anno("output_var")],
    });
    assert_eq!(
        run(&stmt, &mut counter, &mut level),
        "variable_type(\"v\",bool).\noutput_var(\"v\").\n"
    );
}

#[test]
fn array_variable_bound_to_another_array() {
    let mut counter = 0;
    let mut level = 0;
    let stmt = Stmt::Variable(VarDeclItem::ArrayOfIntInSet {
        set: vec![5, 7],
        ix: IndexSet(1),
        id: s("w"),
        annos: vec![],
        array_expr: Some(ArrayOfIntExpr::VarParIdentifier(s("other"))),
    });
    assert_eq!(
        run(&stmt, &mut counter, &mut level),
        "variable_type(\"w\",array(1,set,(value,5))).\n\
         variable_type(\"w\",array(1,set,(value,7))).\n\
         variable_value(\"w\",value,\"other\").\n"
    );
}
