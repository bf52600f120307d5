//! The fact emitters: the lines of each kind of statement.
use vstd::prelude::*;
use vstd::string::*;
use crate::ast::{
    AnnExpr, Annotation, ArrayOfBoolExpr, ArrayOfFloatExpr, ArrayOfIntExpr, ArrayOfSetExpr,
    BasicType, ConstraintItem, Expr, Goal, IntExpr, ParDeclItem, PredParType, PredicateItem,
    SetExpr, SetLiteralExpr, SolveItem, VarDeclItem,
};
use crate::encode::{
    array_type, array_type_text, basic_pred_par_type, basic_pred_par_type_frags, basic_type,
    bool_expr, bool_expr_text, bool_exprs, bool_literal, bool_text, bool_values, bounded_float,
    bounded_float_text, dec_set_expr, dec_set_literal, dec_set_literal_expr, float_expr,
    float_expr_text, float_exprs, float_text, float_values, index, index_text, indexed,
    indexed_frags, indexed_group_list, indexed_groups, int_expr, int_expr_text, int_exprs,
    int_in_range, int_in_range_text, int_in_set, int_in_set_frags, int_values,
    lemma_flat_map_take, lemma_map_take, lemma_map_values_take, opt_type, opt_type_text,
    pred_index, pred_index_text, set_expr_frags, set_exprs, set_literal_expr_frags,
    set_literal_frags, set_literals, single, subset_of_int_range, subset_of_int_range_text,
    subset_of_int_set, subset_of_int_set_frags,
};
use crate::text::{
    emit, identifier, int_text, lines_of, nat_text, push_int, push_quoted, push_usize, quoted,
};

verus! {

/// One line `pre + f + suf` for each fragment `f`, in order.
pub open spec fn wrapped(fs: Seq<Seq<char>>, pre: Seq<char>, suf: Seq<char>) -> Seq<Seq<char>> {
    fs.map_values(|f: Seq<char>| pre + f + suf)
}

/// Appends one line `pre + f + suf` for each fragment `f` of `fs`.
pub fn wrap_into(out: &mut Vec<String>, fs: &Vec<String>, pre: &str, suf: &str)
    ensures
        lines_of(final(out)@) == lines_of(old(out)@) + wrapped(lines_of(fs@), pre@, suf@),
{
    let ghost start = lines_of(out@);
    let mut k: usize = 0;
    while k < fs.len()
        invariant
            k <= fs.len(),
            lines_of(out@) == start + lines_of(fs@).take(k as int).map_values(
                |f: Seq<char>| pre@ + f + suf@,
            ),
        decreases fs.len() - k,
    {
        let mut line = String::from_str(pre);
        line.append(fs[k].as_str());
        line.append(suf);
        emit(out, line);
        proof {
            lemma_map_values_take(lines_of(fs@), k as int, |f: Seq<char>| pre@ + f + suf@);
            assert(lines_of(out@) =~= start + lines_of(fs@).take(k + 1).map_values(
                |f: Seq<char>| pre@ + f + suf@,
            ));
        }
        k += 1;
    }
    assert(lines_of(fs@).take(fs.len() as int) =~= lines_of(fs@));
}

/// The text `tag(<quoted id>,`, which opens the facts of a declaration.
pub open spec fn opening(tag: Seq<char>, id: Seq<char>) -> Seq<char> {
    tag + quoted(id) + ","@
}

fn open_fact(tag: &str, id: &str) -> (r: String)
    ensures
        r@ == opening(tag@, id@),
{
    let mut s = String::from_str(tag);
    push_quoted(&mut s, id);
    s.append(",");
    s
}

// ---------------------------------------------------------------------------
// Predicates.

pub open spec fn pred_par_type_frags(t: PredParType) -> Seq<Seq<char>> {
    match t {
        PredParType::Basic(b) => basic_pred_par_type_frags(b),
        PredParType::Array { ix, par_type } => basic_pred_par_type_frags(par_type).map_values(
            |e: Seq<char>| array_type_text(pred_index_text(ix), e),
        ),
    }
}

/// The lines of the parameter at position `pos` of predicate `id`.
pub open spec fn pred_param_lines(id: Seq<char>, pos: int, t: PredParType, pid: Seq<char>) -> Seq<
    Seq<char>,
> {
    wrapped(
        pred_par_type_frags(t),
        "predicate_parameter("@ + quoted(id) + ","@ + nat_text(pos as nat) + ","@ + quoted(pid)
            + ","@,
        ")."@,
    )
}

/// `predicate(Name).`, then the lines of each parameter in order.
pub open spec fn predicate_lines(p: PredicateItem) -> Seq<Seq<char>> {
    seq!["predicate("@ + quoted(p.id@) + ")."@] + p.parameters@.map(
        |pos: int, x: (PredParType, String)| pred_param_lines(p.id@, pos, x.0, x.1@),
    ).flatten()
}

fn pred_par_type(t: &PredParType) -> (r: Vec<String>)
    ensures
        lines_of(r@) == pred_par_type_frags(*t),
{
    match t {
        PredParType::Basic(b) => basic_pred_par_type(b),
        PredParType::Array { ix, par_type } => {
            let elems = basic_pred_par_type(par_type);
            let idx = pred_index(*ix);
            let mut ret: Vec<String> = Vec::new();
            let mut k: usize = 0;
            while k < elems.len()
                invariant
                    k <= elems.len(),
                    idx@ == pred_index_text(*ix),
                    lines_of(ret@) == lines_of(elems@).take(k as int).map_values(
                        |e: Seq<char>| array_type_text(idx@, e),
                    ),
                decreases elems.len() - k,
            {
                emit(&mut ret, array_type(idx.as_str(), elems[k].as_str()));
                proof {
                    lemma_map_values_take(
                        lines_of(elems@),
                        k as int,
                        |e: Seq<char>| array_type_text(idx@, e),
                    );
                }
                k += 1;
            }
            assert(lines_of(elems@).take(elems.len() as int) =~= lines_of(elems@));
            ret
        },
    }
}

pub fn write_predicate(out: &mut Vec<String>, predicate: &PredicateItem)
    ensures
        lines_of(final(out)@) == lines_of(old(out)@) + predicate_lines(*predicate),
{
    let ghost start = lines_of(out@);
    let ghost g = |pos: int, x: (PredParType, String)|
        pred_param_lines(predicate.id@, pos, x.0, x.1@);
    let mut head = String::from_str("predicate(");
    push_quoted(&mut head, predicate.id.as_str());
    head.append(").");
    emit(out, head);
    let params = &predicate.parameters;
    let mut k: usize = 0;
    while k < params.len()
        invariant
            k <= params.len(),
            lines_of(out@) == start.push("predicate("@ + quoted(predicate.id@) + ")."@)
                + params@.take(k as int).map(
                |pos: int, x: (PredParType, String)|
                    pred_param_lines(predicate.id@, pos, x.0, x.1@),
            ).flatten(),
        decreases params.len() - k,
    {
        let ghost before = lines_of(out@);
        let (t, pid) = &params[k];
        let mut pre = String::from_str("predicate_parameter(");
        push_quoted(&mut pre, predicate.id.as_str());
        pre.append(",");
        push_usize(&mut pre, k);
        pre.append(",");
        push_quoted(&mut pre, pid.as_str());
        pre.append(",");
        let frags = pred_par_type(t);
        wrap_into(out, &frags, pre.as_str(), ").");
        proof {
            lemma_flat_map_take(
                params@,
                k as int,
                |pos: int, x: (PredParType, String)|
                    pred_param_lines(predicate.id@, pos, x.0, x.1@),
            );
            assert(lines_of(out@) =~= start.push("predicate("@ + quoted(predicate.id@) + ")."@)
                + params@.take(k + 1).map(
                |pos: int, x: (PredParType, String)|
                    pred_param_lines(predicate.id@, pos, x.0, x.1@),
            ).flatten());
        }
        k += 1;
    }
    assert(params@.take(params.len() as int) =~= params@);
    assert(lines_of(out@) =~= start + predicate_lines(*predicate));
}

// ---------------------------------------------------------------------------
// Parameters.

pub open spec fn par_id(item: ParDeclItem) -> String {
    match item {
        ParDeclItem::Bool { id, .. } => id,
        ParDeclItem::Int { id, .. } => id,
        ParDeclItem::Float { id, .. } => id,
        ParDeclItem::SetOfInt { id, .. } => id,
        ParDeclItem::ArrayOfBool { id, .. } => id,
        ParDeclItem::ArrayOfInt { id, .. } => id,
        ParDeclItem::ArrayOfFloat { id, .. } => id,
        ParDeclItem::ArrayOfSet { id, .. } => id,
    }
}

/// The value fragments of a parameter: one for a scalar, those of its set
/// literal for a set, and one per array element (or per member of a set
/// element) tagged with the element's position.
pub open spec fn par_value_frags(item: ParDeclItem) -> Seq<Seq<char>> {
    match item {
        ParDeclItem::Bool { bool, .. } => seq!["value,"@ + bool_text(bool)],
        ParDeclItem::Int { int: i, .. } => seq!["value,"@ + int_text(i as int)],
        ParDeclItem::Float { float, .. } => seq!["value,"@ + float_text(float@)],
        ParDeclItem::SetOfInt { set_literal, .. } => set_literal_frags(set_literal),
        ParDeclItem::ArrayOfBool { v, .. } => indexed_frags(
            v@.map_values(|e: bool| "value,"@ + bool_text(e)),
        ),
        ParDeclItem::ArrayOfInt { v, .. } => indexed_frags(
            v@.map_values(|e: i128| "value,"@ + int_text(e as int)),
        ),
        ParDeclItem::ArrayOfFloat { v, .. } => indexed_frags(
            v@.map_values(|e: String| "value,"@ + float_text(e@)),
        ),
        ParDeclItem::ArrayOfSet { v, .. } => indexed_groups(
            v@.map_values(|e: crate::ast::SetLiteral| set_literal_frags(e)),
        ),
    }
}

/// One `parameter_value` line per value fragment; parameters get no type line.
pub open spec fn par_decl_lines(item: ParDeclItem) -> Seq<Seq<char>> {
    wrapped(par_value_frags(item), opening("parameter_value("@, par_id(item)@), ")."@)
}

fn par_value(item: &ParDeclItem) -> (r: Vec<String>)
    ensures
        lines_of(r@) == par_value_frags(*item),
{
    match item {
        ParDeclItem::Bool { bool, .. } => {
            let mut s = String::from_str("value,");
            s.append(bool_literal(*bool).as_str());
            single(s)
        },
        ParDeclItem::Int { int: i, .. } => {
            let mut s = String::from_str("value,");
            push_int(&mut s, *i);
            single(s)
        },
        ParDeclItem::Float { float, .. } => {
            let mut s = String::from_str("value,");
            push_quoted(&mut s, float.as_str());
            single(s)
        },
        ParDeclItem::SetOfInt { set_literal, .. } => dec_set_literal(set_literal),
        ParDeclItem::ArrayOfBool { v, .. } => indexed(&bool_values(v)),
        ParDeclItem::ArrayOfInt { v, .. } => indexed(&int_values(v)),
        ParDeclItem::ArrayOfFloat { v, .. } => indexed(&float_values(v)),
        ParDeclItem::ArrayOfSet { v, .. } => indexed_group_list(&set_literals(v)),
    }
}

fn par_id_of(item: &ParDeclItem) -> (r: &String)
    ensures
        *r == par_id(*item),
{
    match item {
        ParDeclItem::Bool { id, .. } => id,
        ParDeclItem::Int { id, .. } => id,
        ParDeclItem::Float { id, .. } => id,
        ParDeclItem::SetOfInt { id, .. } => id,
        ParDeclItem::ArrayOfBool { id, .. } => id,
        ParDeclItem::ArrayOfInt { id, .. } => id,
        ParDeclItem::ArrayOfFloat { id, .. } => id,
        ParDeclItem::ArrayOfSet { id, .. } => id,
    }
}

pub fn write_par_decl_item(out: &mut Vec<String>, item: &ParDeclItem)
    ensures
        lines_of(final(out)@) == lines_of(old(out)@) + par_decl_lines(*item),
{
    let pre = open_fact("parameter_value(", par_id_of(item).as_str());
    let frags = par_value(item);
    wrap_into(out, &frags, pre.as_str(), ").");
}

// ---------------------------------------------------------------------------
// Constraints.

/// The fragments of a constraint argument: one for a scalar, those of a set
/// literal, and one per array element (or per member of a set element) tagged
/// with the element's position.
pub open spec fn arg_frags(e: Expr) -> Seq<Seq<char>> {
    match e {
        Expr::VarParIdentifier(id) => seq!["var,"@ + quoted(id@)],
        Expr::Bool(b) => seq!["value,"@ + bool_text(b)],
        Expr::Int(i) => seq!["value,"@ + int_text(i as int)],
        Expr::Float(t) => seq!["value,"@ + float_text(t@)],
        Expr::SetLiteral(l) => set_literal_expr_frags(l),
        Expr::ArrayOfBool(v) => indexed_frags(v@.map_values(|x: crate::ast::BoolExpr| bool_expr_text(x))),
        Expr::ArrayOfInt(v) => indexed_frags(v@.map_values(|x: IntExpr| int_expr_text(x))),
        Expr::ArrayOfFloat(v) => indexed_frags(
            v@.map_values(|x: crate::ast::FloatExpr| float_expr_text(x)),
        ),
        Expr::ArrayOfSet(v) => indexed_groups(v@.map_values(|x: SetExpr| set_expr_frags(x))),
    }
}

/// The text `constraint_value(c<n>,<pos>,` that opens each line of an argument.
pub open spec fn arg_opening(n: nat, pos: int) -> Seq<char> {
    "constraint_value(c"@ + nat_text(n) + ","@ + nat_text(pos as nat) + ","@
}

/// The lines of the argument at 0-based position `pos` of constraint `c<n>`.
pub open spec fn arg_lines(n: nat, pos: int, e: Expr) -> Seq<Seq<char>> {
    wrapped(arg_frags(e), arg_opening(n, pos), ")."@)
}

/// `constraint(c<n>,Name).`, then the lines of each argument in order.
pub open spec fn constraint_lines(n: nat, c: ConstraintItem) -> Seq<Seq<char>> {
    seq!["constraint(c"@ + nat_text(n) + ","@ + quoted(c.id@) + ")."@] + c.exprs@.map(
        |pos: int, e: Expr| arg_lines(n, pos, e),
    ).flatten()
}

fn arg(e: &Expr) -> (r: Vec<String>)
    ensures
        lines_of(r@) == arg_frags(*e),
{
    match e {
        Expr::VarParIdentifier(id) => {
            let mut s = String::from_str("var,");
            push_quoted(&mut s, id.as_str());
            single(s)
        },
        Expr::Bool(b) => {
            let mut s = String::from_str("value,");
            s.append(bool_literal(*b).as_str());
            single(s)
        },
        Expr::Int(i) => {
            let mut s = String::from_str("value,");
            push_int(&mut s, *i);
            single(s)
        },
        Expr::Float(t) => {
            let mut s = String::from_str("value,");
            push_quoted(&mut s, t.as_str());
            single(s)
        },
        Expr::SetLiteral(l) => dec_set_literal_expr(l),
        Expr::ArrayOfBool(v) => indexed(&bool_exprs(v)),
        Expr::ArrayOfInt(v) => indexed(&int_exprs(v)),
        Expr::ArrayOfFloat(v) => indexed(&float_exprs(v)),
        Expr::ArrayOfSet(v) => indexed_group_list(&set_exprs(v)),
    }
}

pub fn write_constraint(out: &mut Vec<String>, c: &ConstraintItem, i: usize)
    ensures
        lines_of(final(out)@) == lines_of(old(out)@) + constraint_lines(i as nat, *c),
{
    let ghost start = lines_of(out@);
    let ghost head_text = "constraint(c"@ + nat_text(i as nat) + ","@ + quoted(c.id@) + ")."@;
    let mut head = String::from_str("constraint(c");
    push_usize(&mut head, i);
    head.append(",");
    push_quoted(&mut head, c.id.as_str());
    head.append(").");
    emit(out, head);
    let mut k: usize = 0;
    while k < c.exprs.len()
        invariant
            k <= c.exprs.len(),
            lines_of(out@) == start.push(head_text) + c.exprs@.take(k as int).map(
                |pos: int, e: Expr| arg_lines(i as nat, pos, e),
            ).flatten(),
        decreases c.exprs.len() - k,
    {
        let mut pre = String::from_str("constraint_value(c");
        push_usize(&mut pre, i);
        pre.append(",");
        push_usize(&mut pre, k);
        pre.append(",");
        let frags = arg(&c.exprs[k]);
        wrap_into(out, &frags, pre.as_str(), ").");
        proof {
            lemma_flat_map_take(c.exprs@, k as int, |pos: int, e: Expr| arg_lines(i as nat, pos, e));
            assert(lines_of(out@) =~= start.push(head_text) + c.exprs@.take(k + 1).map(
                |pos: int, e: Expr| arg_lines(i as nat, pos, e),
            ).flatten());
        }
        k += 1;
    }
    assert(c.exprs@.take(c.exprs.len() as int) =~= c.exprs@);
    assert(lines_of(out@) =~= start + constraint_lines(i as nat, *c));
}

// ---------------------------------------------------------------------------
// The solve goal.

/// `solve(satisfy).`, or one `solve(kind,<enc>).` line per fragment of the
/// objective.
pub open spec fn solve_lines(item: SolveItem) -> Seq<Seq<char>> {
    match item.goal {
        Goal::Satisfy => seq!["solve(satisfy)."@],
        Goal::OptimizeBool(ot, e) => seq![
            "solve("@ + opt_type_text(ot) + ","@ + bool_expr_text(e) + ")."@,
        ],
        Goal::OptimizeInt(ot, e) => seq![
            "solve("@ + opt_type_text(ot) + ","@ + int_expr_text(e) + ")."@,
        ],
        Goal::OptimizeFloat(ot, e) => seq![
            "solve("@ + opt_type_text(ot) + ","@ + float_expr_text(e) + ")."@,
        ],
        Goal::OptimizeSet(ot, e) => wrapped(
            set_expr_frags(e),
            "solve("@ + opt_type_text(ot) + ","@,
            ")."@,
        ),
    }
}

pub fn write_solve_item(out: &mut Vec<String>, item: &SolveItem)
    ensures
        lines_of(final(out)@) == lines_of(old(out)@) + solve_lines(*item),
{
    let ghost start = lines_of(out@);
    match &item.goal {
        Goal::Satisfy => {
            emit(out, String::from_str("solve(satisfy)."));
        },
        Goal::OptimizeBool(ot, e) => {
            let mut s = String::from_str("solve(");
            s.append(opt_type(*ot).as_str());
            s.append(",");
            s.append(bool_expr(e).as_str());
            s.append(").");
            emit(out, s);
        },
        Goal::OptimizeInt(ot, e) => {
            let mut s = String::from_str("solve(");
            s.append(opt_type(*ot).as_str());
            s.append(",");
            s.append(int_expr(e).as_str());
            s.append(").");
            emit(out, s);
        },
        Goal::OptimizeFloat(ot, e) => {
            let mut s = String::from_str("solve(");
            s.append(opt_type(*ot).as_str());
            s.append(",");
            s.append(float_expr(e).as_str());
            s.append(").");
            emit(out, s);
        },
        Goal::OptimizeSet(ot, e) => {
            let mut pre = String::from_str("solve(");
            pre.append(opt_type(*ot).as_str());
            pre.append(",");
            let frags = dec_set_expr(e);
            wrap_into(out, &frags, pre.as_str(), ").");
        },
    }
    assert(lines_of(out@) =~= start + solve_lines(*item));
}

// ---------------------------------------------------------------------------
// Initial values of variables.

pub open spec fn bool_init_frags(e: Option<crate::ast::BoolExpr>) -> Seq<Seq<char>> {
    match e {
        Some(x) => seq![bool_expr_text(x)],
        None => seq![],
    }
}

fn bool_init(e: &Option<crate::ast::BoolExpr>) -> (r: Vec<String>)
    ensures
        lines_of(r@) == bool_init_frags(*e),
{
    match e {
        Some(x) => single(bool_expr(x)),
        None => Vec::new(),
    }
}

pub open spec fn int_init_frags(e: Option<IntExpr>) -> Seq<Seq<char>> {
    match e {
        Some(x) => seq![int_expr_text(x)],
        None => seq![],
    }
}

fn int_init(e: &Option<IntExpr>) -> (r: Vec<String>)
    ensures
        lines_of(r@) == int_init_frags(*e),
{
    match e {
        Some(x) => single(int_expr(x)),
        None => Vec::new(),
    }
}

pub open spec fn float_init_frags(e: Option<crate::ast::FloatExpr>) -> Seq<Seq<char>> {
    match e {
        Some(x) => seq![float_expr_text(x)],
        None => seq![],
    }
}

fn float_init(e: &Option<crate::ast::FloatExpr>) -> (r: Vec<String>)
    ensures
        lines_of(r@) == float_init_frags(*e),
{
    match e {
        Some(x) => single(float_expr(x)),
        None => Vec::new(),
    }
}

pub open spec fn set_init_frags(e: Option<SetExpr>) -> Seq<Seq<char>> {
    match e {
        Some(x) => set_expr_frags(x),
        None => seq![],
    }
}

fn set_init(e: &Option<SetExpr>) -> (r: Vec<String>)
    ensures
        lines_of(r@) == set_init_frags(*e),
{
    match e {
        Some(x) => dec_set_expr(x),
        None => Vec::new(),
    }
}

pub open spec fn bool_array_init_frags(a: Option<ArrayOfBoolExpr>) -> Seq<Seq<char>> {
    match a {
        Some(ArrayOfBoolExpr::Array(v)) => indexed_frags(v@.map_values(|x: crate::ast::BoolExpr| bool_expr_text(x))),
        Some(ArrayOfBoolExpr::VarParIdentifier(id2)) => seq!["value,"@ + quoted(id2@)],
        None => seq![],
    }
}

fn bool_array_init(a: &Option<ArrayOfBoolExpr>) -> (r: Vec<String>)
    ensures
        lines_of(r@) == bool_array_init_frags(*a),
{
    match a {
        Some(ArrayOfBoolExpr::Array(v)) => indexed(&bool_exprs(v)),
        Some(ArrayOfBoolExpr::VarParIdentifier(id2)) => {
            let mut s = String::from_str("value,");
            push_quoted(&mut s, id2.as_str());
            single(s)
        },
        None => Vec::new(),
    }
}

pub open spec fn int_array_init_frags(a: Option<ArrayOfIntExpr>) -> Seq<Seq<char>> {
    match a {
        Some(ArrayOfIntExpr::Array(v)) => indexed_frags(v@.map_values(|x: IntExpr| int_expr_text(x))),
        Some(ArrayOfIntExpr::VarParIdentifier(id2)) => seq!["value,"@ + quoted(id2@)],
        None => seq![],
    }
}

fn int_array_init(a: &Option<ArrayOfIntExpr>) -> (r: Vec<String>)
    ensures
        lines_of(r@) == int_array_init_frags(*a),
{
    match a {
        Some(ArrayOfIntExpr::Array(v)) => indexed(&int_exprs(v)),
        Some(ArrayOfIntExpr::VarParIdentifier(id2)) => {
            let mut s = String::from_str("value,");
            push_quoted(&mut s, id2.as_str());
            single(s)
        },
        None => Vec::new(),
    }
}

pub open spec fn float_array_init_frags(a: Option<ArrayOfFloatExpr>) -> Seq<Seq<char>> {
    match a {
        Some(ArrayOfFloatExpr::Array(v)) => indexed_frags(v@.map_values(|x: crate::ast::FloatExpr| float_expr_text(x))),
        Some(ArrayOfFloatExpr::VarParIdentifier(id2)) => seq!["value,"@ + quoted(id2@)],
        None => seq![],
    }
}

fn float_array_init(a: &Option<ArrayOfFloatExpr>) -> (r: Vec<String>)
    ensures
        lines_of(r@) == float_array_init_frags(*a),
{
    match a {
        Some(ArrayOfFloatExpr::Array(v)) => indexed(&float_exprs(v)),
        Some(ArrayOfFloatExpr::VarParIdentifier(id2)) => {
            let mut s = String::from_str("value,");
            push_quoted(&mut s, id2.as_str());
            single(s)
        },
        None => Vec::new(),
    }
}

pub open spec fn set_array_init_frags(a: Option<ArrayOfSetExpr>) -> Seq<Seq<char>> {
    match a {
        Some(ArrayOfSetExpr::Array(v)) => indexed_groups(v@.map_values(|x: SetExpr| set_expr_frags(x))),
        Some(ArrayOfSetExpr::VarParIdentifier(id2)) => seq!["value,"@ + quoted(id2@)],
        None => seq![],
    }
}

fn set_array_init(a: &Option<ArrayOfSetExpr>) -> (r: Vec<String>)
    ensures
        lines_of(r@) == set_array_init_frags(*a),
{
    match a {
        Some(ArrayOfSetExpr::Array(v)) => indexed_group_list(&set_exprs(v)),
        Some(ArrayOfSetExpr::VarParIdentifier(id2)) => {
            let mut s = String::from_str("value,");
            push_quoted(&mut s, id2.as_str());
            single(s)
        },
        None => Vec::new(),
    }
}

// ---------------------------------------------------------------------------
// Annotations.

/// `output_var(Name).` once when some annotation is named `output_var`.
pub open spec fn output_var_lines(id: Seq<char>, annos: Seq<Annotation>) -> Seq<Seq<char>> {
    if exists|i: int| 0 <= i < annos.len() && #[trigger] annos[i].id@ == "output_var"@ {
        seq!["output_var("@ + quoted(id) + ")."@]
    } else {
        seq![]
    }
}

/// `i` is the position of the first annotation named `output_array`.
pub open spec fn first_output_array(annos: Seq<Annotation>, i: int) -> bool {
    &&& 0 <= i < annos.len()
    &&& annos[i].id@ == "output_array"@
    &&& forall|j: int| 0 <= j < i ==> #[trigger] annos[j].id@ != "output_array"@
}

/// The index sets that an `output_array` annotation lists: the elements of its
/// first argument when that is an array of sets.
pub open spec fn index_ranges(a: Annotation) -> Seq<SetExpr> {
    if a.expressions@.len() > 0 {
        match a.expressions@[0] {
            AnnExpr::Expr(Expr::ArrayOfSet(v)) => v@,
            _ => seq![],
        }
    } else {
        seq![]
    }
}

/// An index set written as a range of two integer literals.
pub open spec fn is_index_range(e: SetExpr) -> bool {
    e matches SetExpr::SetLiteral(SetLiteralExpr::IntInRange(IntExpr::Int(_), IntExpr::Int(_)))
}

/// `(lb,ub)` of an index range.
pub open spec fn index_range_text(e: SetExpr) -> Seq<char> {
    match e {
        SetExpr::SetLiteral(SetLiteralExpr::IntInRange(IntExpr::Int(lb), IntExpr::Int(ub))) => "("@
            + int_text(lb as int) + ","@ + int_text(ub as int) + ")"@,
        _ => seq![],
    }
}

/// The shape an `output_array` annotation must have: its first argument an
/// array of integer ranges.
pub open spec fn output_array_shape_ok(a: Annotation) -> bool {
    &&& a.expressions@.len() > 0
    &&& a.expressions@[0] matches AnnExpr::Expr(Expr::ArrayOfSet(_))
    &&& forall|p: int| 0 <= p < index_ranges(a).len() ==> is_index_range(#[trigger] index_ranges(a)[p])
}

/// The first `output_array` annotation, if any, has the shape it must have.
pub open spec fn output_array_ok(annos: Seq<Annotation>) -> bool {
    forall|i: int| first_output_array(annos, i) ==> output_array_shape_ok(annos[i])
}

/// One `output_array(Name,p,(lb,ub)).` line per index range of the first
/// `output_array` annotation, at its 0-based position `p`.
pub open spec fn output_array_lines(id: Seq<char>, annos: Seq<Annotation>) -> Seq<Seq<char>> {
    if exists|i: int| first_output_array(annos, i) {
        let i = choose|i: int| first_output_array(annos, i);
        index_ranges(annos[i]).map(
            |p: int, e: SetExpr|
                "output_array("@ + quoted(id) + ","@ + nat_text(p as nat) + ","@
                    + index_range_text(e) + ")."@,
        )
    } else {
        seq![]
    }
}

pub fn write_output_var(out: &mut Vec<String>, id: &str, annos: &Vec<Annotation>)
    ensures
        lines_of(final(out)@) == lines_of(old(out)@) + output_var_lines(id@, annos@),
{
    let ghost start = lines_of(out@);
    let key = String::from_str("output_var");
    let mut k: usize = 0;
    while k < annos.len()
        invariant
            k <= annos.len(),
            key@ == "output_var"@,
            start == lines_of(old(out)@),
            lines_of(out@) == start,
            forall|j: int| 0 <= j < k ==> #[trigger] annos@[j].id@ != "output_var"@,
        decreases annos.len() - k,
    {
        if annos[k].id == key {
            let mut line = String::from_str("output_var(");
            push_quoted(&mut line, id);
            line.append(").");
            emit(out, line);
            assert(lines_of(out@) =~= start + output_var_lines(id@, annos@));
            return;
        }
        k += 1;
    }
    assert(lines_of(out@) =~= start + output_var_lines(id@, annos@));
}

pub fn write_output_array(out: &mut Vec<String>, id: &str, annos: &Vec<Annotation>)
    requires
        output_array_ok(annos@),
    ensures
        lines_of(final(out)@) == lines_of(old(out)@) + output_array_lines(id@, annos@),
{
    let ghost start = lines_of(out@);
    let key = String::from_str("output_array");
    let mut k: usize = 0;
    while k < annos.len()
        invariant
            k <= annos.len(),
            key@ == "output_array"@,
            output_array_ok(annos@),
            start == lines_of(old(out)@),
            lines_of(out@) == start,
            forall|j: int| 0 <= j < k ==> #[trigger] annos@[j].id@ != "output_array"@,
        decreases annos.len() - k,
    {
        if annos[k].id == key {
            let a = &annos[k];
            assert(first_output_array(annos@, k as int));
            let ghost c = choose|i: int| first_output_array(annos@, i);
            assert(c == k) by {
                if c < k {
                    assert(annos@[c].id@ != "output_array"@);
                } else if c > k {
                    assert(annos@[k as int].id@ != "output_array"@);
                }
            }
            assert(output_array_shape_ok(*a));
            match &a.expressions[0] {
                AnnExpr::Expr(Expr::ArrayOfSet(v)) => {
                    assert(index_ranges(*a) == v@);
                    let ghost f = |p: int, e: SetExpr|
                        "output_array("@ + quoted(id@) + ","@ + nat_text(p as nat) + ","@
                            + index_range_text(e) + ")."@;
                    let mut p: usize = 0;
                    while p < v.len()
                        invariant
                            p <= v.len(),
                            index_ranges(*a) == v@,
                            forall|q: int| 0 <= q < v@.len() ==> is_index_range(#[trigger] v@[q]),
                            lines_of(out@) == start + v@.take(p as int).map(
                                |p: int, e: SetExpr|
                                    "output_array("@ + quoted(id@) + ","@ + nat_text(p as nat)
                                        + ","@ + index_range_text(e) + ")."@,
                            ),
                        decreases v.len() - p,
                    {
                        assert(is_index_range(v@[p as int]));
                        match &v[p] {
                            SetExpr::SetLiteral(
                                SetLiteralExpr::IntInRange(IntExpr::Int(lb), IntExpr::Int(ub)),
                            ) => {
                                let mut line = String::from_str("output_array(");
                                push_quoted(&mut line, id);
                                line.append(",");
                                push_usize(&mut line, p);
                                line.append(",");
                                line.append("(");
                                push_int(&mut line, *lb);
                                line.append(",");
                                push_int(&mut line, *ub);
                                line.append(")");
                                line.append(").");
                                assert(line@ =~= "output_array("@ + quoted(id@) + ","@ + nat_text(
                                    p as nat,
                                ) + ","@ + index_range_text(v@[p as int]) + ")."@);
                                emit(out, line);
                            },
                            _ => {
                                assert(false);
                            },
                        }
                        proof {
                            lemma_map_take(
                                v@,
                                p as int,
                                |p: int, e: SetExpr|
                                    "output_array("@ + quoted(id@) + ","@ + nat_text(p as nat)
                                        + ","@ + index_range_text(e) + ")."@,
                            );
                            assert(lines_of(out@) =~= start + v@.take(p + 1).map(
                                |p: int, e: SetExpr|
                                    "output_array("@ + quoted(id@) + ","@ + nat_text(p as nat)
                                        + ","@ + index_range_text(e) + ")."@,
                            ));
                        }
                        p += 1;
                    }
                    assert(v@.take(v.len() as int) =~= v@);
                },
                _ => {
                    assert(false);
                },
            }
            return;
        }
        k += 1;
    }
    assert(!exists|i: int| first_output_array(annos@, i));
    assert(lines_of(out@) =~= start + output_array_lines(id@, annos@));
}

// ---------------------------------------------------------------------------
// Variables.

pub open spec fn var_id(item: VarDeclItem) -> String {
    match item {
        VarDeclItem::Bool { id, .. } => id,
        VarDeclItem::Int { id, .. } => id,
        VarDeclItem::IntInRange { id, .. } => id,
        VarDeclItem::IntInSet { id, .. } => id,
        VarDeclItem::Float { id, .. } => id,
        VarDeclItem::BoundedFloat { id, .. } => id,
        VarDeclItem::SetOfInt { id, .. } => id,
        VarDeclItem::SubSetOfIntSet { id, .. } => id,
        VarDeclItem::SubSetOfIntRange { id, .. } => id,
        VarDeclItem::ArrayOfBool { id, .. } => id,
        VarDeclItem::ArrayOfInt { id, .. } => id,
        VarDeclItem::ArrayOfIntInRange { id, .. } => id,
        VarDeclItem::ArrayOfIntInSet { id, .. } => id,
        VarDeclItem::ArrayOfFloat { id, .. } => id,
        VarDeclItem::ArrayOfBoundedFloat { id, .. } => id,
        VarDeclItem::ArrayOfSet { id, .. } => id,
        VarDeclItem::ArrayOfSubSetOfIntRange { id, .. } => id,
        VarDeclItem::ArrayOfSubSetOfIntSet { id, .. } => id,
    }
}

pub open spec fn var_annos(item: VarDeclItem) -> Vec<Annotation> {
    match item {
        VarDeclItem::Bool { annos, .. } => annos,
        VarDeclItem::Int { annos, .. } => annos,
        VarDeclItem::IntInRange { annos, .. } => annos,
        VarDeclItem::IntInSet { annos, .. } => annos,
        VarDeclItem::Float { annos, .. } => annos,
        VarDeclItem::BoundedFloat { annos, .. } => annos,
        VarDeclItem::SetOfInt { annos, .. } => annos,
        VarDeclItem::SubSetOfIntSet { annos, .. } => annos,
        VarDeclItem::SubSetOfIntRange { annos, .. } => annos,
        VarDeclItem::ArrayOfBool { annos, .. } => annos,
        VarDeclItem::ArrayOfInt { annos, .. } => annos,
        VarDeclItem::ArrayOfIntInRange { annos, .. } => annos,
        VarDeclItem::ArrayOfIntInSet { annos, .. } => annos,
        VarDeclItem::ArrayOfFloat { annos, .. } => annos,
        VarDeclItem::ArrayOfBoundedFloat { annos, .. } => annos,
        VarDeclItem::ArrayOfSet { annos, .. } => annos,
        VarDeclItem::ArrayOfSubSetOfIntRange { annos, .. } => annos,
        VarDeclItem::ArrayOfSubSetOfIntSet { annos, .. } => annos,
    }
}

/// An array variable, whose visibility comes from `output_array`.
pub open spec fn is_array_decl(item: VarDeclItem) -> bool {
    match item {
        VarDeclItem::Bool { .. } => false,
        VarDeclItem::Int { .. } => false,
        VarDeclItem::IntInRange { .. } => false,
        VarDeclItem::IntInSet { .. } => false,
        VarDeclItem::Float { .. } => false,
        VarDeclItem::BoundedFloat { .. } => false,
        VarDeclItem::SetOfInt { .. } => false,
        VarDeclItem::SubSetOfIntSet { .. } => false,
        VarDeclItem::SubSetOfIntRange { .. } => false,
        VarDeclItem::ArrayOfBool { .. } => true,
        VarDeclItem::ArrayOfInt { .. } => true,
        VarDeclItem::ArrayOfIntInRange { .. } => true,
        VarDeclItem::ArrayOfIntInSet { .. } => true,
        VarDeclItem::ArrayOfFloat { .. } => true,
        VarDeclItem::ArrayOfBoundedFloat { .. } => true,
        VarDeclItem::ArrayOfSet { .. } => true,
        VarDeclItem::ArrayOfSubSetOfIntRange { .. } => true,
        VarDeclItem::ArrayOfSubSetOfIntSet { .. } => true,
    }
}

/// Each fragment as the element type of an array with index set `idx`.
pub open spec fn in_array(idx: Seq<char>, fs: Seq<Seq<char>>) -> Seq<Seq<char>> {
    fs.map_values(|e: Seq<char>| array_type_text(idx, e))
}

/// The declared-type fragments of a variable: one, or one per member of an
/// enumerated domain, in order.
pub open spec fn var_type_frags(item: VarDeclItem) -> Seq<Seq<char>> {
    match item {
        VarDeclItem::Bool { .. } => seq!["bool"@],
        VarDeclItem::Int { .. } => seq!["int"@],
        VarDeclItem::IntInRange { lb, ub, .. } => seq![int_in_range_text(lb, ub)],
        VarDeclItem::IntInSet { set, .. } => int_in_set_frags(set@),
        VarDeclItem::Float { .. } => seq!["float"@],
        VarDeclItem::BoundedFloat { lb, ub, .. } => seq![bounded_float_text(lb@, ub@)],
        VarDeclItem::SetOfInt { .. } => seq!["set_of_int"@],
        VarDeclItem::SubSetOfIntSet { set, .. } => subset_of_int_set_frags(set@),
        VarDeclItem::SubSetOfIntRange { lb, ub, .. } => seq![subset_of_int_range_text(lb, ub)],
        VarDeclItem::ArrayOfBool { ix, .. } => seq![array_type_text(index_text(ix), "bool"@)],
        VarDeclItem::ArrayOfInt { ix, .. } => seq![array_type_text(index_text(ix), "int"@)],
        VarDeclItem::ArrayOfIntInRange { ix, lb, ub, .. } => seq![array_type_text(index_text(ix), int_in_range_text(lb, ub))],
        VarDeclItem::ArrayOfIntInSet { ix, set, .. } => in_array(index_text(ix), int_in_set_frags(set@)),
        VarDeclItem::ArrayOfFloat { ix, .. } => seq![array_type_text(index_text(ix), "float"@)],
        VarDeclItem::ArrayOfBoundedFloat { ix, lb, ub, .. } => seq![array_type_text(index_text(ix), bounded_float_text(lb@, ub@))],
        VarDeclItem::ArrayOfSet { ix, .. } => seq![array_type_text(index_text(ix), "set"@)],
        VarDeclItem::ArrayOfSubSetOfIntRange { ix, lb, ub, .. } => seq![array_type_text(index_text(ix), subset_of_int_range_text(lb, ub))],
        VarDeclItem::ArrayOfSubSetOfIntSet { ix, set, .. } => in_array(index_text(ix), subset_of_int_set_frags(set@)),
    }
}

/// The value fragments of a variable's initializer; none without one.
pub open spec fn var_value_frags(item: VarDeclItem) -> Seq<Seq<char>> {
    match item {
        VarDeclItem::Bool { expr, .. } => bool_init_frags(expr),
        VarDeclItem::Int { expr, .. } => int_init_frags(expr),
        VarDeclItem::IntInRange { expr, .. } => int_init_frags(expr),
        VarDeclItem::IntInSet { expr, .. } => int_init_frags(expr),
        VarDeclItem::Float { expr, .. } => float_init_frags(expr),
        VarDeclItem::BoundedFloat { expr, .. } => float_init_frags(expr),
        VarDeclItem::SetOfInt { expr, .. } => set_init_frags(expr),
        VarDeclItem::SubSetOfIntSet { expr, .. } => set_init_frags(expr),
        VarDeclItem::SubSetOfIntRange { expr, .. } => set_init_frags(expr),
        VarDeclItem::ArrayOfBool { array_expr, .. } => bool_array_init_frags(array_expr),
        VarDeclItem::ArrayOfInt { array_expr, .. } => int_array_init_frags(array_expr),
        VarDeclItem::ArrayOfIntInRange { array_expr, .. } => int_array_init_frags(array_expr),
        VarDeclItem::ArrayOfIntInSet { array_expr, .. } => int_array_init_frags(array_expr),
        VarDeclItem::ArrayOfFloat { array_expr, .. } => float_array_init_frags(array_expr),
        VarDeclItem::ArrayOfBoundedFloat { array_expr, .. } => float_array_init_frags(array_expr),
        VarDeclItem::ArrayOfSet { array_expr, .. } => set_array_init_frags(array_expr),
        VarDeclItem::ArrayOfSubSetOfIntRange { array_expr, .. } => set_array_init_frags(array_expr),
        VarDeclItem::ArrayOfSubSetOfIntSet { array_expr, .. } => set_array_init_frags(array_expr),
    }
}

/// The visibility lines of a variable.
pub open spec fn var_anno_lines(item: VarDeclItem) -> Seq<Seq<char>> {
    if is_array_decl(item) {
        output_array_lines(var_id(item)@, var_annos(item)@)
    } else {
        output_var_lines(var_id(item)@, var_annos(item)@)
    }
}

/// The annotations of an array variable are well formed.
pub open spec fn var_decl_ok(item: VarDeclItem) -> bool {
    is_array_decl(item) ==> output_array_ok(var_annos(item)@)
}

/// The `variable_type` lines, then the `variable_value` lines, then the
/// visibility lines.
pub open spec fn var_decl_lines(item: VarDeclItem) -> Seq<Seq<char>> {
    wrapped(var_type_frags(item), opening("variable_type("@, var_id(item)@), ")."@) + wrapped(
        var_value_frags(item),
        opening("variable_value("@, var_id(item)@),
        ")."@,
    ) + var_anno_lines(item)
}

fn array_types(idx: &String, elems: &Vec<String>) -> (r: Vec<String>)
    ensures
        lines_of(r@) == in_array(idx@, lines_of(elems@)),
{
    let mut ret: Vec<String> = Vec::new();
    let mut k: usize = 0;
    while k < elems.len()
        invariant
            k <= elems.len(),
            lines_of(ret@) == lines_of(elems@).take(k as int).map_values(
                |e: Seq<char>| array_type_text(idx@, e),
            ),
        decreases elems.len() - k,
    {
        emit(&mut ret, array_type(idx.as_str(), elems[k].as_str()));
        proof {
            lemma_map_values_take(lines_of(elems@), k as int, |e: Seq<char>| array_type_text(idx@, e));
        }
        k += 1;
    }
    assert(lines_of(elems@).take(elems.len() as int) =~= lines_of(elems@));
    ret
}

fn var_id_of(item: &VarDeclItem) -> (r: &String)
    ensures
        *r == var_id(*item),
{
    match item {
        VarDeclItem::Bool { id, .. } => id,
        VarDeclItem::Int { id, .. } => id,
        VarDeclItem::IntInRange { id, .. } => id,
        VarDeclItem::IntInSet { id, .. } => id,
        VarDeclItem::Float { id, .. } => id,
        VarDeclItem::BoundedFloat { id, .. } => id,
        VarDeclItem::SetOfInt { id, .. } => id,
        VarDeclItem::SubSetOfIntSet { id, .. } => id,
        VarDeclItem::SubSetOfIntRange { id, .. } => id,
        VarDeclItem::ArrayOfBool { id, .. } => id,
        VarDeclItem::ArrayOfInt { id, .. } => id,
        VarDeclItem::ArrayOfIntInRange { id, .. } => id,
        VarDeclItem::ArrayOfIntInSet { id, .. } => id,
        VarDeclItem::ArrayOfFloat { id, .. } => id,
        VarDeclItem::ArrayOfBoundedFloat { id, .. } => id,
        VarDeclItem::ArrayOfSet { id, .. } => id,
        VarDeclItem::ArrayOfSubSetOfIntRange { id, .. } => id,
        VarDeclItem::ArrayOfSubSetOfIntSet { id, .. } => id,
    }
}

fn var_annos_of(item: &VarDeclItem) -> (r: &Vec<Annotation>)
    ensures
        *r == var_annos(*item),
{
    match item {
        VarDeclItem::Bool { annos, .. } => annos,
        VarDeclItem::Int { annos, .. } => annos,
        VarDeclItem::IntInRange { annos, .. } => annos,
        VarDeclItem::IntInSet { annos, .. } => annos,
        VarDeclItem::Float { annos, .. } => annos,
        VarDeclItem::BoundedFloat { annos, .. } => annos,
        VarDeclItem::SetOfInt { annos, .. } => annos,
        VarDeclItem::SubSetOfIntSet { annos, .. } => annos,
        VarDeclItem::SubSetOfIntRange { annos, .. } => annos,
        VarDeclItem::ArrayOfBool { annos, .. } => annos,
        VarDeclItem::ArrayOfInt { annos, .. } => annos,
        VarDeclItem::ArrayOfIntInRange { annos, .. } => annos,
        VarDeclItem::ArrayOfIntInSet { annos, .. } => annos,
        VarDeclItem::ArrayOfFloat { annos, .. } => annos,
        VarDeclItem::ArrayOfBoundedFloat { annos, .. } => annos,
        VarDeclItem::ArrayOfSet { annos, .. } => annos,
        VarDeclItem::ArrayOfSubSetOfIntRange { annos, .. } => annos,
        VarDeclItem::ArrayOfSubSetOfIntSet { annos, .. } => annos,
    }
}

fn var_type(item: &VarDeclItem) -> (r: Vec<String>)
    ensures
        lines_of(r@) == var_type_frags(*item),
{
    match item {
        VarDeclItem::Bool { .. } => single(basic_type(BasicType::Bool)),
        VarDeclItem::Int { .. } => single(basic_type(BasicType::Int)),
        VarDeclItem::IntInRange { lb, ub, .. } => single(int_in_range(*lb, *ub)),
        VarDeclItem::IntInSet { set, .. } => int_in_set(set),
        VarDeclItem::Float { .. } => single(basic_type(BasicType::Float)),
        VarDeclItem::BoundedFloat { lb, ub, .. } => single(bounded_float(lb.as_str(), ub.as_str())),
        VarDeclItem::SetOfInt { .. } => single(String::from_str("set_of_int")),
        VarDeclItem::SubSetOfIntSet { set, .. } => subset_of_int_set(set),
        VarDeclItem::SubSetOfIntRange { lb, ub, .. } => single(subset_of_int_range(*lb, *ub)),
        VarDeclItem::ArrayOfBool { ix, .. } => single(array_type(index(*ix).as_str(), "bool")),
        VarDeclItem::ArrayOfInt { ix, .. } => single(array_type(index(*ix).as_str(), "int")),
        VarDeclItem::ArrayOfIntInRange { ix, lb, ub, .. } => single(array_type(index(*ix).as_str(), int_in_range(*lb, *ub).as_str())),
        VarDeclItem::ArrayOfIntInSet { ix, set, .. } => array_types(&index(*ix), &int_in_set(set)),
        VarDeclItem::ArrayOfFloat { ix, .. } => single(array_type(index(*ix).as_str(), "float")),
        VarDeclItem::ArrayOfBoundedFloat { ix, lb, ub, .. } => single(array_type(index(*ix).as_str(), bounded_float(lb.as_str(), ub.as_str()).as_str())),
        VarDeclItem::ArrayOfSet { ix, .. } => single(array_type(index(*ix).as_str(), "set")),
        VarDeclItem::ArrayOfSubSetOfIntRange { ix, lb, ub, .. } => single(array_type(index(*ix).as_str(), subset_of_int_range(*lb, *ub).as_str())),
        VarDeclItem::ArrayOfSubSetOfIntSet { ix, set, .. } => array_types(&index(*ix), &subset_of_int_set(set)),
    }
}

fn var_value(item: &VarDeclItem) -> (r: Vec<String>)
    ensures
        lines_of(r@) == var_value_frags(*item),
{
    match item {
        VarDeclItem::Bool { expr, .. } => bool_init(expr),
        VarDeclItem::Int { expr, .. } => int_init(expr),
        VarDeclItem::IntInRange { expr, .. } => int_init(expr),
        VarDeclItem::IntInSet { expr, .. } => int_init(expr),
        VarDeclItem::Float { expr, .. } => float_init(expr),
        VarDeclItem::BoundedFloat { expr, .. } => float_init(expr),
        VarDeclItem::SetOfInt { expr, .. } => set_init(expr),
        VarDeclItem::SubSetOfIntSet { expr, .. } => set_init(expr),
        VarDeclItem::SubSetOfIntRange { expr, .. } => set_init(expr),
        VarDeclItem::ArrayOfBool { array_expr, .. } => bool_array_init(array_expr),
        VarDeclItem::ArrayOfInt { array_expr, .. } => int_array_init(array_expr),
        VarDeclItem::ArrayOfIntInRange { array_expr, .. } => int_array_init(array_expr),
        VarDeclItem::ArrayOfIntInSet { array_expr, .. } => int_array_init(array_expr),
        VarDeclItem::ArrayOfFloat { array_expr, .. } => float_array_init(array_expr),
        VarDeclItem::ArrayOfBoundedFloat { array_expr, .. } => float_array_init(array_expr),
        VarDeclItem::ArrayOfSet { array_expr, .. } => set_array_init(array_expr),
        VarDeclItem::ArrayOfSubSetOfIntRange { array_expr, .. } => set_array_init(array_expr),
        VarDeclItem::ArrayOfSubSetOfIntSet { array_expr, .. } => set_array_init(array_expr),
    }
}

fn is_array_var(item: &VarDeclItem) -> (r: bool)
    ensures
        r == is_array_decl(*item),
{
    match item {
        VarDeclItem::Bool { .. } => false,
        VarDeclItem::Int { .. } => false,
        VarDeclItem::IntInRange { .. } => false,
        VarDeclItem::IntInSet { .. } => false,
        VarDeclItem::Float { .. } => false,
        VarDeclItem::BoundedFloat { .. } => false,
        VarDeclItem::SetOfInt { .. } => false,
        VarDeclItem::SubSetOfIntSet { .. } => false,
        VarDeclItem::SubSetOfIntRange { .. } => false,
        VarDeclItem::ArrayOfBool { .. } => true,
        VarDeclItem::ArrayOfInt { .. } => true,
        VarDeclItem::ArrayOfIntInRange { .. } => true,
        VarDeclItem::ArrayOfIntInSet { .. } => true,
        VarDeclItem::ArrayOfFloat { .. } => true,
        VarDeclItem::ArrayOfBoundedFloat { .. } => true,
        VarDeclItem::ArrayOfSet { .. } => true,
        VarDeclItem::ArrayOfSubSetOfIntRange { .. } => true,
        VarDeclItem::ArrayOfSubSetOfIntSet { .. } => true,
    }
}

pub fn write_var_decl_item(out: &mut Vec<String>, item: &VarDeclItem)
    requires
        var_decl_ok(*item),
    ensures
        lines_of(final(out)@) == lines_of(old(out)@) + var_decl_lines(*item),
{
    let ghost start = lines_of(out@);
    let id = var_id_of(item);
    let types = var_type(item);
    let type_pre = open_fact("variable_type(", id.as_str());
    wrap_into(out, &types, type_pre.as_str(), ").");
    let values = var_value(item);
    let value_pre = open_fact("variable_value(", id.as_str());
    wrap_into(out, &values, value_pre.as_str(), ").");
    let annos = var_annos_of(item);
    if is_array_var(item) {
        write_output_array(out, id.as_str(), annos);
    } else {
        write_output_var(out, id.as_str(), annos);
    }
    assert(lines_of(out@) =~= start + var_decl_lines(*item));
}

/// Whether the first `output_array` annotation, if any, is an array of
/// integer ranges.
pub fn output_array_well_formed(annos: &Vec<Annotation>) -> (r: bool)
    ensures
        r == output_array_ok(annos@),
{
    let key = String::from_str("output_array");
    let mut k: usize = 0;
    while k < annos.len()
        invariant
            k <= annos.len(),
            key@ == "output_array"@,
            forall|j: int| 0 <= j < k ==> #[trigger] annos@[j].id@ != "output_array"@,
        decreases annos.len() - k,
    {
        if annos[k].id == key {
            let a = &annos[k];
            assert(first_output_array(annos@, k as int));
            assert forall|i: int| first_output_array(annos@, i) implies i == k by {
                if i < k {
                    assert(annos@[i].id@ != "output_array"@);
                } else if i > k {
                    assert(annos@[k as int].id@ != "output_array"@);
                }
            }
            if a.expressions.len() == 0 {
                return false;
            }
            match &a.expressions[0] {
                AnnExpr::Expr(Expr::ArrayOfSet(v)) => {
                    assert(index_ranges(*a) == v@);
                    let mut p: usize = 0;
                    while p < v.len()
                        invariant
                            p <= v.len(),
                            *a == annos@[k as int],
                            index_ranges(*a) == v@,
                            first_output_array(annos@, k as int),
                            forall|q: int| 0 <= q < p ==> is_index_range(#[trigger] v@[q]),
                        decreases v.len() - p,
                    {
                        match &v[p] {
                            SetExpr::SetLiteral(
                                SetLiteralExpr::IntInRange(IntExpr::Int(_), IntExpr::Int(_)),
                            ) => {},
                            _ => {
                                assert(!is_index_range(index_ranges(*a)[p as int]));
                                return false;
                            },
                        }
                        p += 1;
                    }
                    return true;
                },
                _ => {
                    return false;
                },
            }
        }
        k += 1;
    }
    true
}

} // verus!
