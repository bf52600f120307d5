//! Properties that hold of every translation.
use vstd::prelude::*;
use crate::ast::{
    ArrayOfIntExpr, ConstraintItem, Expr, SetExpr, SetLiteral, SetLiteralExpr, Stmt, VarDeclItem,
};
use crate::emit::{
    arg_frags, arg_lines, arg_opening, constraint_lines, opening, output_var_lines, var_annos,
    var_decl_lines, var_id, var_type_frags, var_value_frags,
};
use crate::encode::{
    elem_text, indexed_frags, int_expr_text, int_in_range_text, set_expr_frags,
    set_literal_frags,
};
use crate::text::{int_text, quoted};
use crate::translate::{
    finish_result, next_counter, next_level, refuses, stmt_lines, FlatZincError,
};

verus! {

/// A variable of a basic scalar type (Boolean, integer, integer range, float,
/// bounded float) that has an initializer.
pub open spec fn scalar_with_init(item: VarDeclItem) -> bool {
    match item {
        VarDeclItem::Bool { expr, .. } => expr is Some,
        VarDeclItem::Int { expr, .. } => expr is Some,
        VarDeclItem::IntInRange { expr, .. } => expr is Some,
        VarDeclItem::Float { expr, .. } => expr is Some,
        VarDeclItem::BoundedFloat { expr, .. } => expr is Some,
        _ => false,
    }
}

/// A scalar variable with an initializer and an `output_var` annotation gives
/// exactly three lines: its `variable_type` line, then its `variable_value`
/// line, then its `output_var` line.
pub proof fn lemma_scalar_output_var_order(item: VarDeclItem, i: int)
    requires
        scalar_with_init(item),
        0 <= i < var_annos(item)@.len(),
        var_annos(item)@[i].id@ == "output_var"@,
    ensures
        var_type_frags(item).len() == 1,
        var_value_frags(item).len() == 1,
        var_decl_lines(item) == seq![
            opening("variable_type("@, var_id(item)@) + var_type_frags(item)[0] + ")."@,
            opening("variable_value("@, var_id(item)@) + var_value_frags(item)[0] + ")."@,
            "output_var("@ + quoted(var_id(item)@) + ")."@,
        ],
{
    let annos = var_annos(item)@;
    assert(exists|j: int| 0 <= j < annos.len() && #[trigger] annos[j].id@ == "output_var"@);
    assert(var_decl_lines(item) =~= seq![
        opening("variable_type("@, var_id(item)@) + var_type_frags(item)[0] + ")."@,
        opening("variable_value("@, var_id(item)@) + var_value_frags(item)[0] + ")."@,
        "output_var("@ + quoted(var_id(item)@) + ")."@,
    ]);
}

/// A range-typed variable without an initializer gives exactly one
/// `variable_type` line and no `variable_value` line.
pub proof fn lemma_range_without_init(item: VarDeclItem)
    requires
        item matches VarDeclItem::IntInRange { expr: None, .. },
    ensures
        match item {
            VarDeclItem::IntInRange { id, lb, ub, annos, .. } => var_decl_lines(item) == seq![
                opening("variable_type("@, id@) + int_in_range_text(lb, ub) + ")."@,
            ] + output_var_lines(id@, annos@),
            _ => false,
        },
{
    match item {
        VarDeclItem::IntInRange { id, lb, ub, annos, .. } => {
            assert(var_decl_lines(item) =~= seq![
                opening("variable_type("@, id@) + int_in_range_text(lb, ub) + ")."@,
            ] + output_var_lines(id@, annos@));
        },
        _ => {},
    }
}

/// A variable with an enumerated domain and no initializer gives one
/// `variable_type` line per member of the domain, in source order, and no
/// `variable_value` line.
pub proof fn lemma_enumerated_domain(item: VarDeclItem)
    requires
        item matches VarDeclItem::IntInSet { expr: None, .. },
    ensures
        match item {
            VarDeclItem::IntInSet { id, set, annos, .. } => var_decl_lines(item) == set@.map_values(
                |x: i128|
                    opening("variable_type("@, id@) + ("set,(value,"@ + int_text(x as int) + ")"@)
                        + ")."@,
            ) + output_var_lines(id@, annos@),
            _ => false,
        },
{
    match item {
        VarDeclItem::IntInSet { id, set, annos, .. } => {
            assert(var_decl_lines(item) =~= set@.map_values(
                |x: i128|
                    opening("variable_type("@, id@) + ("set,(value,"@ + int_text(x as int) + ")"@)
                        + ")."@,
            ) + output_var_lines(id@, annos@));
        },
        _ => {},
    }
}

/// A set expression never encodes as zero fragments; an empty set literal
/// encodes as the single fragment `empty_set`.
pub proof fn lemma_set_expr_never_empty(e: SetExpr)
    ensures
        set_expr_frags(e).len() >= 1,
        e matches SetExpr::SetLiteral(SetLiteralExpr::SetInts(v)) && v@.len() == 0 ==> set_expr_frags(
            e,
        ) == seq!["empty_set"@],
        e matches SetExpr::SetLiteral(SetLiteralExpr::SetFloats(v)) && v@.len() == 0
            ==> set_expr_frags(e) == seq!["empty_set"@],
{
}

/// A set literal of a parameter never encodes as zero fragments; an empty one
/// encodes as the single fragment `empty_set`.
pub proof fn lemma_set_literal_never_empty(l: SetLiteral)
    ensures
        set_literal_frags(l).len() >= 1,
        l matches SetLiteral::SetInts(v) && v@.len() == 0 ==> set_literal_frags(l) == seq![
            "empty_set"@,
        ],
        l matches SetLiteral::SetFloats(v) && v@.len() == 0 ==> set_literal_frags(l) == seq![
            "empty_set"@,
        ],
{
}

/// Each element of an array of sets gives at least one fragment, and an empty
/// set element gives exactly `empty_set` at its position.
pub proof fn lemma_array_of_sets_positions(v: Seq<SetExpr>, p: int)
    requires
        0 <= p < v.len(),
    ensures
        v.map_values(|x: SetExpr| set_expr_frags(x))[p].len() >= 1,
        v[p] matches SetExpr::SetLiteral(SetLiteralExpr::SetInts(w)) && w@.len() == 0
            ==> v.map_values(|x: SetExpr| set_expr_frags(x))[p].map_values(
            |f: Seq<char>| elem_text(p, f),
        ) == seq![elem_text(p, "empty_set"@)],
{
    lemma_set_expr_never_empty(v[p]);
    let g = v.map_values(|x: SetExpr| set_expr_frags(x))[p];
    if v[p] matches SetExpr::SetLiteral(SetLiteralExpr::SetInts(w)) && w@.len() == 0 {
        assert(g.map_values(|f: Seq<char>| elem_text(p, f)) =~= seq![elem_text(p, "empty_set"@)]);
    }
}

/// The value of an integer array keeps the order of its elements and tags the
/// element at position `p` with `p`, counting from 0.
pub proof fn lemma_int_array_order(item: VarDeclItem)
    requires
        item matches VarDeclItem::ArrayOfInt { array_expr: Some(ArrayOfIntExpr::Array(_)), .. },
    ensures
        match item {
            VarDeclItem::ArrayOfInt { array_expr: Some(ArrayOfIntExpr::Array(v)), .. } => {
                &&& var_value_frags(item).len() == v@.len()
                &&& forall|p: int|
                    0 <= p < v@.len() ==> #[trigger] var_value_frags(item)[p] == elem_text(
                        p,
                        int_expr_text(v@[p]),
                    )
            },
            _ => false,
        },
{
}

/// An argument that is an array with no elements.
pub open spec fn is_empty_array(e: Expr) -> bool {
    match e {
        Expr::ArrayOfBool(v) => v@.len() == 0,
        Expr::ArrayOfInt(v) => v@.len() == 0,
        Expr::ArrayOfFloat(v) => v@.len() == 0,
        Expr::ArrayOfSet(v) => v@.len() == 0,
        _ => false,
    }
}

/// The lines of a constraint are its header, then the lines of each argument in
/// order; every line of the argument at 0-based position `p` carries `p`, and
/// every argument but an empty array gives at least one line.
pub proof fn lemma_constraint_positions(n: nat, c: ConstraintItem)
    ensures
        constraint_lines(n, c).drop_first() == c.exprs@.map(
            |p: int, e: Expr| arg_lines(n, p, e),
        ).flatten(),
        forall|p: int, j: int|
            0 <= p < c.exprs@.len() && 0 <= j < arg_frags(c.exprs@[p]).len() ==> #[trigger] arg_lines(
                n,
                p,
                c.exprs@[p],
            )[j] == arg_opening(n, p) + arg_frags(c.exprs@[p])[j] + ")."@,
        forall|p: int|
            0 <= p < c.exprs@.len() && !is_empty_array(c.exprs@[p]) ==> #[trigger] arg_lines(
                n,
                p,
                c.exprs@[p],
            ).len() >= 1,
{
    let head = constraint_lines(n, c)[0];
    assert(constraint_lines(n, c).drop_first() =~= c.exprs@.map(
        |p: int, e: Expr| arg_lines(n, p, e),
    ).flatten());
    assert forall|p: int|
        0 <= p < c.exprs@.len() && !is_empty_array(c.exprs@[p]) implies #[trigger] arg_lines(
        n,
        p,
        c.exprs@[p],
    ).len() >= 1 by {
        lemma_arg_never_empty(c.exprs@[p]);
    }
}

proof fn lemma_arg_never_empty(e: Expr)
    requires
        !is_empty_array(e),
    ensures
        arg_frags(e).len() >= 1,
{
    match e {
        Expr::SetLiteral(l) => {
            lemma_set_expr_never_empty(SetExpr::SetLiteral(l));
        },
        Expr::ArrayOfSet(v) => {
            let gs = v@.map_values(|x: SetExpr| set_expr_frags(x));
            let hs = gs.map(
                |p: int, g: Seq<Seq<char>>| g.map_values(|f: Seq<char>| elem_text(p, f)),
            );
            lemma_set_expr_never_empty(v@[0]);
            assert(hs.flatten() == hs.first() + hs.drop_first().flatten());
            assert(hs.first().len() == gs[0].len());
        },
        _ => {},
    }
}

/// Runs a stream of statements from phase `level`: the level reached, or
/// `None` once a solve goal is refused.
pub open spec fn run_level(level: int, stmts: Seq<Stmt>) -> Option<int>
    decreases stmts.len(),
{
    if stmts.len() == 0 {
        Some(level)
    } else {
        match run_level(level, stmts.drop_last()) {
            None => None,
            Some(l) => if refuses(l, stmts.last()) {
                None
            } else {
                Some(next_level(l, stmts.last()))
            },
        }
    }
}

proof fn lemma_run_after_solve(level: int, stmts: Seq<Stmt>, i: int)
    requires
        0 <= i < stmts.len(),
        stmts[i] is SolveItem,
    ensures
        run_level(level, stmts) matches Some(l) ==> l >= 5,
    decreases stmts.len(),
{
    if i < stmts.len() - 1 {
        lemma_run_after_solve(level, stmts.drop_last(), i);
    }
}

/// A stream that holds two solve goals is refused: only one is accepted per
/// run.
pub proof fn lemma_second_solve_refused(level: int, stmts: Seq<Stmt>, i: int, j: int)
    requires
        0 <= i < j < stmts.len(),
        stmts[i] is SolveItem,
        stmts[j] is SolveItem,
    ensures
        run_level(level, stmts) is None,
    decreases stmts.len(),
{
    if j < stmts.len() - 1 {
        lemma_second_solve_refused(level, stmts.drop_last(), i, j);
    } else {
        lemma_run_after_solve(level, stmts.drop_last(), i);
    }
}

/// A stream without a solve goal, started before the solve phase, is accepted
/// statement by statement and then fails the end-of-input check with
/// `NoSolveItem`.
pub proof fn lemma_missing_solve(level: int, stmts: Seq<Stmt>)
    requires
        level < 5,
        forall|k: int| 0 <= k < stmts.len() ==> !(#[trigger] stmts[k] is SolveItem),
    ensures
        run_level(level, stmts) matches Some(l) && l < 5 && finish_result(l) == Err::<
            (),
            FlatZincError,
        >(FlatZincError::NoSolveItem),
    decreases stmts.len(),
{
    if stmts.len() > 0 {
        assert(!(stmts[stmts.len() - 1] is SolveItem));
        lemma_missing_solve(level, stmts.drop_last());
    }
}

/// Translating the same statement again gives the same lines, whatever the
/// phase and counter in between; only a constraint's number follows the
/// counter.
pub proof fn lemma_reencoding_identical(s: Stmt, c1: int, c2: int)
    requires
        c1 >= 0,
        c2 >= 0,
        !(s is Constraint) || c1 == c2,
    ensures
        stmt_lines(s, next_counter(c1, s) as nat) == stmt_lines(s, next_counter(c2, s) as nat),
{
}

} // verus!
