//! The value encoder: term fragments of literals, identifiers, ranges, sets
//! and declared types.
use vstd::prelude::*;
use vstd::string::*;
use crate::ast::{
    BasicParType, BasicPredParType, BasicType, BasicVarType, BoolExpr, FloatExpr, IndexSet, IntExpr,
    OptimizationType, PredIndexSet, SetExpr, SetLiteral, SetLiteralExpr,
};
use crate::text::{
    emit, identifier, int_literal, int_text, lines_of, nat_text, push_int, push_quoted, push_usize,
    quoted,
};

verus! {

// ---------------------------------------------------------------------------
// Sequence facts shared by the loops that build fragments and lines.

/// Mapping a prefix one element longer adds that element's image.
pub proof fn lemma_map_values_take<A, B>(v: Seq<A>, k: int, f: spec_fn(A) -> B)
    requires
        0 <= k < v.len(),
    ensures
        v.take(k + 1).map_values(f) == v.take(k).map_values(f).push(f(v[k])),
{
    assert(v.take(k + 1).map_values(f) =~= v.take(k).map_values(f).push(f(v[k])));
}

/// Positional mapping of a prefix one element longer adds that element's image.
pub proof fn lemma_map_take<A, B>(v: Seq<A>, k: int, f: spec_fn(int, A) -> B)
    requires
        0 <= k < v.len(),
    ensures
        v.take(k + 1).map(f) == v.take(k).map(f).push(f(k, v[k])),
{
    assert(v.take(k + 1).map(f) =~= v.take(k).map(f).push(f(k, v[k])));
}

/// Flattening a positional mapping of a prefix one element longer adds that
/// element's group.
pub proof fn lemma_flat_map_take<A, B>(v: Seq<A>, k: int, f: spec_fn(int, A) -> Seq<B>)
    requires
        0 <= k < v.len(),
    ensures
        v.take(k + 1).map(f).flatten() == v.take(k).map(f).flatten() + f(k, v[k]),
{
    lemma_map_take(v, k, f);
    v.take(k).map(f).lemma_flatten_push(f(k, v[k]));
}

// ---------------------------------------------------------------------------
// Expression mode.

pub open spec fn bool_text(b: bool) -> Seq<char> {
    if b {
        "true"@
    } else {
        "false"@
    }
}

/// A float literal: its decimal text between double quotes.
pub open spec fn float_text(t: Seq<char>) -> Seq<char> {
    quoted(t)
}

pub open spec fn bool_expr_text(e: BoolExpr) -> Seq<char> {
    match e {
        BoolExpr::Bool(b) => "value,"@ + bool_text(b),
        BoolExpr::VarParIdentifier(id) => "var,"@ + quoted(id@),
    }
}

pub open spec fn int_expr_text(e: IntExpr) -> Seq<char> {
    match e {
        IntExpr::Int(i) => "value,"@ + int_text(i as int),
        IntExpr::VarParIdentifier(id) => "var,"@ + quoted(id@),
    }
}

pub open spec fn float_expr_text(e: FloatExpr) -> Seq<char> {
    match e {
        FloatExpr::Float(t) => "value,"@ + float_text(t@),
        FloatExpr::VarParIdentifier(id) => "var,"@ + quoted(id@),
    }
}

pub open spec fn int_member_text(e: IntExpr) -> Seq<char> {
    "set,("@ + int_expr_text(e) + ")"@
}

pub open spec fn float_member_text(e: FloatExpr) -> Seq<char> {
    "set,("@ + float_expr_text(e) + ")"@
}

/// Fragments of a set literal in an expression: a range or a float bound is
/// one fragment, a non-empty set one per element in order, the empty set the
/// single fragment `empty_set`.
pub open spec fn set_literal_expr_frags(l: SetLiteralExpr) -> Seq<Seq<char>> {
    match l {
        SetLiteralExpr::BoundedFloat(f1, f2) => seq![
            "float_bound,("@ + float_expr_text(f1) + ","@ + float_expr_text(f2) + ")"@,
        ],
        SetLiteralExpr::IntInRange(i1, i2) => seq![
            "range,("@ + int_expr_text(i1) + ","@ + int_expr_text(i2) + ")"@,
        ],
        SetLiteralExpr::SetFloats(v) => if v@.len() == 0 {
            seq!["empty_set"@]
        } else {
            v@.map_values(|e: FloatExpr| float_member_text(e))
        },
        SetLiteralExpr::SetInts(v) => if v@.len() == 0 {
            seq!["empty_set"@]
        } else {
            v@.map_values(|e: IntExpr| int_member_text(e))
        },
    }
}

pub open spec fn set_expr_frags(e: SetExpr) -> Seq<Seq<char>> {
    match e {
        SetExpr::SetLiteral(l) => set_literal_expr_frags(l),
        SetExpr::VarParIdentifier(id) => seq!["var,"@ + quoted(id@)],
    }
}

pub fn bool_literal(b: bool) -> (r: String)
    ensures
        r@ == bool_text(b),
{
    if b {
        String::from_str("true")
    } else {
        String::from_str("false")
    }
}

pub fn float_literal(t: &str) -> (r: String)
    ensures
        r@ == float_text(t@),
{
    identifier(t)
}

fn push_var(s: &mut String, id: &str)
    ensures
        final(s)@ == old(s)@ + ("var,"@ + quoted(id@)),
{
    let ghost s0 = s@;
    s.append("var,");
    push_quoted(s, id);
    assert(s@ =~= s0 + ("var,"@ + quoted(id@)));
}

pub fn bool_expr(e: &BoolExpr) -> (r: String)
    ensures
        r@ == bool_expr_text(*e),
{
    let mut s = String::new();
    match e {
        BoolExpr::Bool(b) => {
            s.append("value,");
            let t = bool_literal(*b);
            s.append(t.as_str());
        },
        BoolExpr::VarParIdentifier(id) => {
            push_var(&mut s, id.as_str());
        },
    }
    assert(s@ =~= bool_expr_text(*e));
    s
}

pub fn int_expr(e: &IntExpr) -> (r: String)
    ensures
        r@ == int_expr_text(*e),
{
    let mut s = String::new();
    match e {
        IntExpr::Int(i) => {
            s.append("value,");
            push_int(&mut s, *i);
        },
        IntExpr::VarParIdentifier(id) => {
            push_var(&mut s, id.as_str());
        },
    }
    assert(s@ =~= int_expr_text(*e));
    s
}

pub fn float_expr(e: &FloatExpr) -> (r: String)
    ensures
        r@ == float_expr_text(*e),
{
    let mut s = String::new();
    match e {
        FloatExpr::Float(t) => {
            s.append("value,");
            push_quoted(&mut s, t.as_str());
        },
        FloatExpr::VarParIdentifier(id) => {
            push_var(&mut s, id.as_str());
        },
    }
    assert(s@ =~= float_expr_text(*e));
    s
}

pub fn dec_set_literal_expr(l: &SetLiteralExpr) -> (r: Vec<String>)
    ensures
        lines_of(r@) == set_literal_expr_frags(*l),
{
    let mut ret: Vec<String> = Vec::new();
    match l {
        SetLiteralExpr::BoundedFloat(f1, f2) => {
            let mut s = String::from_str("float_bound,(");
            s.append(float_expr(f1).as_str());
            s.append(",");
            s.append(float_expr(f2).as_str());
            s.append(")");
            emit(&mut ret, s);
            assert(lines_of(ret@) =~= set_literal_expr_frags(*l));
        },
        SetLiteralExpr::IntInRange(i1, i2) => {
            let mut s = String::from_str("range,(");
            s.append(int_expr(i1).as_str());
            s.append(",");
            s.append(int_expr(i2).as_str());
            s.append(")");
            emit(&mut ret, s);
            assert(lines_of(ret@) =~= set_literal_expr_frags(*l));
        },
        SetLiteralExpr::SetFloats(v) => {
            if v.len() == 0 {
                emit(&mut ret, String::from_str("empty_set"));
                assert(lines_of(ret@) =~= set_literal_expr_frags(*l));
            } else {
                let mut k: usize = 0;
                while k < v.len()
                    invariant
                        k <= v.len(),
                        lines_of(ret@) == v@.take(k as int).map_values(|e: FloatExpr| float_member_text(e)),
                    decreases v.len() - k,
                {
                    let mut s = String::from_str("set,(");
                    s.append(float_expr(&v[k]).as_str());
                    s.append(")");
                    emit(&mut ret, s);
                    proof {
                        lemma_map_values_take(v@, k as int, |e: FloatExpr| float_member_text(e));
                    }
                    k += 1;
                }
                assert(v@.take(v.len() as int) =~= v@);
            }
        },
        SetLiteralExpr::SetInts(v) => {
            if v.len() == 0 {
                emit(&mut ret, String::from_str("empty_set"));
                assert(lines_of(ret@) =~= set_literal_expr_frags(*l));
            } else {
                let mut k: usize = 0;
                while k < v.len()
                    invariant
                        k <= v.len(),
                        lines_of(ret@) == v@.take(k as int).map_values(|e: IntExpr| int_member_text(e)),
                    decreases v.len() - k,
                {
                    let mut s = String::from_str("set,(");
                    s.append(int_expr(&v[k]).as_str());
                    s.append(")");
                    emit(&mut ret, s);
                    proof {
                        lemma_map_values_take(v@, k as int, |e: IntExpr| int_member_text(e));
                    }
                    k += 1;
                }
                assert(v@.take(v.len() as int) =~= v@);
            }
        },
    }
    ret
}

pub fn dec_set_expr(e: &SetExpr) -> (r: Vec<String>)
    ensures
        lines_of(r@) == set_expr_frags(*e),
{
    match e {
        SetExpr::SetLiteral(sl) => dec_set_literal_expr(sl),
        SetExpr::VarParIdentifier(id) => {
            let mut ret: Vec<String> = Vec::new();
            let mut s = String::new();
            push_var(&mut s, id.as_str());
            emit(&mut ret, s);
            assert(lines_of(ret@) =~= set_expr_frags(*e));
            ret
        },
    }
}

// ---------------------------------------------------------------------------
// Array positions.

/// The fragment of the element at 0-based position `p` of an array.
pub open spec fn elem_text(p: int, f: Seq<char>) -> Seq<char> {
    "array,("@ + nat_text(p as nat) + ","@ + f + ")"@
}

/// One fragment per array element, tagged with its position.
pub open spec fn indexed_frags(fs: Seq<Seq<char>>) -> Seq<Seq<char>> {
    fs.map(|p: int, f: Seq<char>| elem_text(p, f))
}

/// The fragments of each element of an array, each tagged with the element's
/// position, in order.
pub open spec fn indexed_groups(gs: Seq<Seq<Seq<char>>>) -> Seq<Seq<char>> {
    gs.map(|p: int, g: Seq<Seq<char>>| g.map_values(|f: Seq<char>| elem_text(p, f))).flatten()
}

/// What a list of fragment lists holds.
pub open spec fn groups_of(v: Seq<Vec<String>>) -> Seq<Seq<Seq<char>>> {
    v.map_values(|g: Vec<String>| lines_of(g@))
}

pub fn elem(p: usize, f: &str) -> (r: String)
    ensures
        r@ == elem_text(p as int, f@),
{
    let mut s = String::from_str("array,(");
    push_usize(&mut s, p);
    s.append(",");
    s.append(f);
    s.append(")");
    s
}

pub fn indexed(fs: &Vec<String>) -> (r: Vec<String>)
    ensures
        lines_of(r@) == indexed_frags(lines_of(fs@)),
{
    let mut ret: Vec<String> = Vec::new();
    let mut k: usize = 0;
    while k < fs.len()
        invariant
            k <= fs.len(),
            lines_of(ret@) == lines_of(fs@).take(k as int).map(
                |p: int, f: Seq<char>| elem_text(p, f),
            ),
        decreases fs.len() - k,
    {
        emit(&mut ret, elem(k, fs[k].as_str()));
        proof {
            lemma_map_take(lines_of(fs@), k as int, |p: int, f: Seq<char>| elem_text(p, f));
        }
        k += 1;
    }
    assert(lines_of(fs@).take(fs.len() as int) =~= lines_of(fs@));
    ret
}

pub fn indexed_group_list(gs: &Vec<Vec<String>>) -> (r: Vec<String>)
    ensures
        lines_of(r@) == indexed_groups(groups_of(gs@)),
{
    let mut ret: Vec<String> = Vec::new();
    let mut k: usize = 0;
    while k < gs.len()
        invariant
            k <= gs.len(),
            lines_of(ret@) == groups_of(gs@).take(k as int).map(
                |p: int, g: Seq<Seq<char>>| g.map_values(|x: Seq<char>| elem_text(p, x)),
            ).flatten(),
        decreases gs.len() - k,
    {
        let g = &gs[k];
        let ghost before = lines_of(ret@);
        let mut j: usize = 0;
        while j < g.len()
            invariant
                j <= g.len(),
                lines_of(ret@) == before + lines_of(g@).take(j as int).map_values(
                    |x: Seq<char>| elem_text(k as int, x),
                ),
            decreases g.len() - j,
        {
            emit(&mut ret, elem(k, g[j].as_str()));
            proof {
                lemma_map_values_take(lines_of(g@), j as int, |x: Seq<char>| elem_text(k as int, x));
                assert(lines_of(ret@) =~= before + lines_of(g@).take(j + 1).map_values(
                    |x: Seq<char>| elem_text(k as int, x),
                ));
            }
            j += 1;
        }
        proof {
            assert(lines_of(g@).take(g.len() as int) =~= lines_of(g@));
            lemma_flat_map_take(
                groups_of(gs@),
                k as int,
                |p: int, g: Seq<Seq<char>>| g.map_values(|x: Seq<char>| elem_text(p, x)),
            );
        }
        k += 1;
    }
    assert(groups_of(gs@).take(gs.len() as int) =~= groups_of(gs@));
    ret
}

// ---------------------------------------------------------------------------
// Elements of arrays.

/// The expression fragment of each element, in order.
pub fn bool_exprs(v: &Vec<BoolExpr>) -> (r: Vec<String>)
    ensures
        lines_of(r@) == v@.map_values(|e: BoolExpr| bool_expr_text(e)),
{
    let mut ret: Vec<String> = Vec::new();
    let mut k: usize = 0;
    while k < v.len()
        invariant
            k <= v.len(),
            lines_of(ret@) == v@.take(k as int).map_values(|e: BoolExpr| bool_expr_text(e)),
        decreases v.len() - k,
    {
        emit(&mut ret, bool_expr(&v[k]));
        proof {
            lemma_map_values_take(v@, k as int, |e: BoolExpr| bool_expr_text(e));
        }
        k += 1;
    }
    assert(v@.take(v.len() as int) =~= v@);
    ret
}

/// The expression fragment of each element, in order.
pub fn int_exprs(v: &Vec<IntExpr>) -> (r: Vec<String>)
    ensures
        lines_of(r@) == v@.map_values(|e: IntExpr| int_expr_text(e)),
{
    let mut ret: Vec<String> = Vec::new();
    let mut k: usize = 0;
    while k < v.len()
        invariant
            k <= v.len(),
            lines_of(ret@) == v@.take(k as int).map_values(|e: IntExpr| int_expr_text(e)),
        decreases v.len() - k,
    {
        emit(&mut ret, int_expr(&v[k]));
        proof {
            lemma_map_values_take(v@, k as int, |e: IntExpr| int_expr_text(e));
        }
        k += 1;
    }
    assert(v@.take(v.len() as int) =~= v@);
    ret
}

/// The expression fragment of each element, in order.
pub fn float_exprs(v: &Vec<FloatExpr>) -> (r: Vec<String>)
    ensures
        lines_of(r@) == v@.map_values(|e: FloatExpr| float_expr_text(e)),
{
    let mut ret: Vec<String> = Vec::new();
    let mut k: usize = 0;
    while k < v.len()
        invariant
            k <= v.len(),
            lines_of(ret@) == v@.take(k as int).map_values(|e: FloatExpr| float_expr_text(e)),
        decreases v.len() - k,
    {
        emit(&mut ret, float_expr(&v[k]));
        proof {
            lemma_map_values_take(v@, k as int, |e: FloatExpr| float_expr_text(e));
        }
        k += 1;
    }
    assert(v@.take(v.len() as int) =~= v@);
    ret
}

/// The value fragment of each Boolean literal, in order.
pub fn bool_values(v: &Vec<bool>) -> (r: Vec<String>)
    ensures
        lines_of(r@) == v@.map_values(|e: bool| "value,"@ + bool_text(e)),
{
    let mut ret: Vec<String> = Vec::new();
    let mut k: usize = 0;
    while k < v.len()
        invariant
            k <= v.len(),
            lines_of(ret@) == v@.take(k as int).map_values(|e: bool| "value,"@ + bool_text(e)),
        decreases v.len() - k,
    {
        let mut x = String::from_str("value,");
        x.append(bool_literal(v[k]).as_str());
        emit(&mut ret, x);
        proof {
            lemma_map_values_take(v@, k as int, |e: bool| "value,"@ + bool_text(e));
        }
        k += 1;
    }
    assert(v@.take(v.len() as int) =~= v@);
    ret
}

/// The value fragment of each integer literal, in order.
pub fn int_values(v: &Vec<i128>) -> (r: Vec<String>)
    ensures
        lines_of(r@) == v@.map_values(|e: i128| "value,"@ + int_text(e as int)),
{
    let mut ret: Vec<String> = Vec::new();
    let mut k: usize = 0;
    while k < v.len()
        invariant
            k <= v.len(),
            lines_of(ret@) == v@.take(k as int).map_values(|e: i128| "value,"@ + int_text(e as int)),
        decreases v.len() - k,
    {
        let mut x = String::from_str("value,");
        push_int(&mut x, v[k]);
        emit(&mut ret, x);
        proof {
            lemma_map_values_take(v@, k as int, |e: i128| "value,"@ + int_text(e as int));
        }
        k += 1;
    }
    assert(v@.take(v.len() as int) =~= v@);
    ret
}

/// The value fragment of each float literal (decimal text), in order.
pub fn float_values(v: &Vec<String>) -> (r: Vec<String>)
    ensures
        lines_of(r@) == v@.map_values(|e: String| "value,"@ + float_text(e@)),
{
    let mut ret: Vec<String> = Vec::new();
    let mut k: usize = 0;
    while k < v.len()
        invariant
            k <= v.len(),
            lines_of(ret@) == v@.take(k as int).map_values(|e: String| "value,"@ + float_text(e@)),
        decreases v.len() - k,
    {
        let mut x = String::from_str("value,");
        push_quoted(&mut x, v[k].as_str());
        emit(&mut ret, x);
        proof {
            lemma_map_values_take(v@, k as int, |e: String| "value,"@ + float_text(e@));
        }
        k += 1;
    }
    assert(v@.take(v.len() as int) =~= v@);
    ret
}

/// The fragments of each set expression, in order.
pub fn set_exprs(v: &Vec<SetExpr>) -> (r: Vec<Vec<String>>)
    ensures
        groups_of(r@) == v@.map_values(|e: SetExpr| set_expr_frags(e)),
{
    let mut ret: Vec<Vec<String>> = Vec::new();
    let mut k: usize = 0;
    while k < v.len()
        invariant
            k <= v.len(),
            groups_of(ret@) == v@.take(k as int).map_values(|e: SetExpr| set_expr_frags(e)),
        decreases v.len() - k,
    {
        ret.push(dec_set_expr(&v[k]));
        proof {
            lemma_map_values_take(v@, k as int, |e: SetExpr| set_expr_frags(e));
            assert(groups_of(ret@) =~= v@.take(k + 1).map_values(|e: SetExpr| set_expr_frags(e)));
        }
        k += 1;
    }
    assert(v@.take(v.len() as int) =~= v@);
    ret
}

/// The declared-mode fragments of each set literal, in order.
pub fn set_literals(v: &Vec<SetLiteral>) -> (r: Vec<Vec<String>>)
    ensures
        groups_of(r@) == v@.map_values(|e: SetLiteral| set_literal_frags(e)),
{
    let mut ret: Vec<Vec<String>> = Vec::new();
    let mut k: usize = 0;
    while k < v.len()
        invariant
            k <= v.len(),
            groups_of(ret@) == v@.take(k as int).map_values(|e: SetLiteral| set_literal_frags(e)),
        decreases v.len() - k,
    {
        ret.push(dec_set_literal(&v[k]));
        proof {
            lemma_map_values_take(v@, k as int, |e: SetLiteral| set_literal_frags(e));
            assert(groups_of(ret@) =~= v@.take(k + 1).map_values(|e: SetLiteral| set_literal_frags(e)));
        }
        k += 1;
    }
    assert(v@.take(v.len() as int) =~= v@);
    ret
}

// ---------------------------------------------------------------------------
// Declared-type mode.

/// One fragment per integer: `pre`, the integer, `suf`.
pub open spec fn int_members_text(set: Seq<i128>, pre: Seq<char>, suf: Seq<char>) -> Seq<Seq<char>> {
    set.map_values(|i: i128| pre + int_text(i as int) + suf)
}

/// Fragments of a set literal of a parameter.
pub open spec fn set_literal_frags(l: SetLiteral) -> Seq<Seq<char>> {
    match l {
        SetLiteral::BoundedFloat(f1, f2) => seq![
            "bounds,(value,"@ + float_text(f1@) + ",value,"@ + float_text(f2@) + ")"@,
        ],
        SetLiteral::IntRange(i1, i2) => seq![int_in_range_text(i1, i2)],
        SetLiteral::SetFloats(v) => if v@.len() == 0 {
            seq!["empty_set"@]
        } else {
            v@.map_values(|t: String| "set,(value,"@ + float_text(t@) + ")"@)
        },
        SetLiteral::SetInts(v) => if v@.len() == 0 {
            seq!["empty_set"@]
        } else {
            int_members_text(v@, "set,(value,"@, ")"@)
        },
    }
}

pub open spec fn int_in_range_text(lb: i128, ub: i128) -> Seq<char> {
    "range,(value,"@ + int_text(lb as int) + ",value,"@ + int_text(ub as int) + ")"@
}

pub open spec fn int_in_set_frags(set: Seq<i128>) -> Seq<Seq<char>> {
    int_members_text(set, "set,(value,"@, ")"@)
}

pub open spec fn float_in_set_frags(set: Seq<String>) -> Seq<Seq<char>> {
    set.map_values(|t: String| "float_in_set("@ + t@ + ")"@)
}

pub open spec fn bounded_float_text(lb: Seq<char>, ub: Seq<char>) -> Seq<char> {
    "float,(bounds,value,"@ + float_text(lb) + ",value,"@ + float_text(ub) + ")"@
}

pub open spec fn subset_of_int_range_text(lb: i128, ub: i128) -> Seq<char> {
    "set_of_int,(range,value,"@ + int_text(lb as int) + ",value,"@ + int_text(ub as int) + ")"@
}

pub open spec fn subset_of_int_set_frags(set: Seq<i128>) -> Seq<Seq<char>> {
    int_members_text(set, "set_of_int,(set,value,"@, ")"@)
}

pub open spec fn basic_type_text(t: BasicType) -> Seq<char> {
    match t {
        BasicType::Bool => "bool"@,
        BasicType::Int => "int"@,
        BasicType::Float => "float"@,
    }
}

/// Declared-type fragments of a variable's basic type: one, or one per
/// member of an enumerated domain.
pub open spec fn basic_var_type_frags(t: BasicVarType) -> Seq<Seq<char>> {
    match t {
        BasicVarType::BasicType(b) => seq![basic_type_text(b)],
        BasicVarType::IntInRange(lb, ub) => seq![int_in_range_text(lb, ub)],
        BasicVarType::IntInSet(set) => int_in_set_frags(set@),
        BasicVarType::BoundedFloat(lb, ub) => seq![bounded_float_text(lb@, ub@)],
        BasicVarType::SubSetOfIntRange(lb, ub) => seq![subset_of_int_range_text(lb, ub)],
        BasicVarType::SubSetOfIntSet(set) => subset_of_int_set_frags(set@),
    }
}

pub open spec fn basic_par_type_text(t: BasicParType) -> Seq<char> {
    match t {
        BasicParType::BasicType(b) => basic_type_text(b),
        BasicParType::SetOfInt => "set_of_int"@,
    }
}

pub open spec fn basic_pred_par_type_frags(t: BasicPredParType) -> Seq<Seq<char>> {
    match t {
        BasicPredParType::BasicParType(p) => seq![basic_par_type_text(p)],
        BasicPredParType::BasicVarType(v) => basic_var_type_frags(v),
        BasicPredParType::VarSetOfInt => seq!["set_of_int"@],
        BasicPredParType::BoundedFloat(lb, ub) => seq![bounded_float_text(lb@, ub@)],
        BasicPredParType::IntInRange(lb, ub) => seq![int_in_range_text(lb, ub)],
        BasicPredParType::IntInSet(set) => int_in_set_frags(set@),
        BasicPredParType::FloatInSet(set) => float_in_set_frags(set@),
        BasicPredParType::SubSetOfIntRange(lb, ub) => seq![subset_of_int_range_text(lb, ub)],
        BasicPredParType::SubSetOfIntSet(set) => subset_of_int_set_frags(set@),
    }
}

pub open spec fn array_type_text(idx: Seq<char>, element_type: Seq<char>) -> Seq<char> {
    "array("@ + idx + ","@ + element_type + ")"@
}

pub open spec fn opt_type_text(o: OptimizationType) -> Seq<char> {
    match o {
        OptimizationType::Minimize => "minimize"@,
        OptimizationType::Maximize => "maximize"@,
    }
}

pub open spec fn index_text(ix: IndexSet) -> Seq<char> {
    int_text(ix.0 as int)
}

pub open spec fn pred_index_text(ix: PredIndexSet) -> Seq<char> {
    match ix {
        PredIndexSet::IndexSet(i) => int_text(i as int),
        PredIndexSet::Int => "int"@,
    }
}

/// One fragment per integer of `set`, in order: `pre`, the integer, `suf`.
pub fn int_members(set: &Vec<i128>, pre: &str, suf: &str) -> (r: Vec<String>)
    ensures
        lines_of(r@) == int_members_text(set@, pre@, suf@),
{
    let mut ret: Vec<String> = Vec::new();
    let mut k: usize = 0;
    while k < set.len()
        invariant
            k <= set.len(),
            lines_of(ret@) == set@.take(k as int).map_values(
                |i: i128| pre@ + int_text(i as int) + suf@,
            ),
        decreases set.len() - k,
    {
        let mut x = String::from_str(pre);
        push_int(&mut x, set[k]);
        x.append(suf);
        emit(&mut ret, x);
        proof {
            lemma_map_values_take(set@, k as int, |i: i128| pre@ + int_text(i as int) + suf@);
        }
        k += 1;
    }
    assert(set@.take(set.len() as int) =~= set@);
    ret
}

pub fn dec_set_literal(l: &SetLiteral) -> (r: Vec<String>)
    ensures
        lines_of(r@) == set_literal_frags(*l),
{
    match l {
        SetLiteral::BoundedFloat(f1, f2) => {
            let mut s = String::from_str("bounds,(value,");
            s.append(float_literal(f1.as_str()).as_str());
            s.append(",value,");
            s.append(float_literal(f2.as_str()).as_str());
            s.append(")");
            let mut ret: Vec<String> = Vec::new();
            emit(&mut ret, s);
            assert(lines_of(ret@) =~= set_literal_frags(*l));
            ret
        },
        SetLiteral::IntRange(i1, i2) => {
            let mut ret: Vec<String> = Vec::new();
            emit(&mut ret, int_in_range(*i1, *i2));
            assert(lines_of(ret@) =~= set_literal_frags(*l));
            ret
        },
        SetLiteral::SetFloats(v) => {
            if v.len() == 0 {
                let mut ret: Vec<String> = Vec::new();
                emit(&mut ret, String::from_str("empty_set"));
                assert(lines_of(ret@) =~= set_literal_frags(*l));
                ret
            } else {
                let mut ret: Vec<String> = Vec::new();
                let mut k: usize = 0;
                while k < v.len()
                    invariant
                        k <= v.len(),
                        lines_of(ret@) == v@.take(k as int).map_values(
                            |t: String| "set,(value,"@ + float_text(t@) + ")"@,
                        ),
                    decreases v.len() - k,
                {
                    let mut x = String::from_str("set,(value,");
                    push_quoted(&mut x, v[k].as_str());
                    x.append(")");
                    emit(&mut ret, x);
                    proof {
                        lemma_map_values_take(
                            v@,
                            k as int,
                            |t: String| "set,(value,"@ + float_text(t@) + ")"@,
                        );
                    }
                    k += 1;
                }
                assert(v@.take(v.len() as int) =~= v@);
                ret
            }
        },
        SetLiteral::SetInts(v) => {
            if v.len() == 0 {
                let mut ret: Vec<String> = Vec::new();
                emit(&mut ret, String::from_str("empty_set"));
                assert(lines_of(ret@) =~= set_literal_frags(*l));
                ret
            } else {
                int_members(v, "set,(value,", ")")
            }
        },
    }
}

pub fn int_in_range(lb: i128, ub: i128) -> (r: String)
    ensures
        r@ == int_in_range_text(lb, ub),
{
    let mut s = String::from_str("range,(value,");
    push_int(&mut s, lb);
    s.append(",value,");
    push_int(&mut s, ub);
    s.append(")");
    s
}

pub fn int_in_set(set: &Vec<i128>) -> (r: Vec<String>)
    ensures
        lines_of(r@) == int_in_set_frags(set@),
{
    int_members(set, "set,(value,", ")")
}

pub fn float_in_set(set: &Vec<String>) -> (r: Vec<String>)
    ensures
        lines_of(r@) == float_in_set_frags(set@),
{
    let mut ret: Vec<String> = Vec::new();
    let mut k: usize = 0;
    while k < set.len()
        invariant
            k <= set.len(),
            lines_of(ret@) == set@.take(k as int).map_values(
                |t: String| "float_in_set("@ + t@ + ")"@,
            ),
        decreases set.len() - k,
    {
        let mut x = String::from_str("float_in_set(");
        x.append(set[k].as_str());
        x.append(")");
        emit(&mut ret, x);
        proof {
            lemma_map_values_take(set@, k as int, |t: String| "float_in_set("@ + t@ + ")"@);
        }
        k += 1;
    }
    assert(set@.take(set.len() as int) =~= set@);
    ret
}

pub fn bounded_float(lb: &str, ub: &str) -> (r: String)
    ensures
        r@ == bounded_float_text(lb@, ub@),
{
    let mut s = String::from_str("float,(bounds,value,");
    s.append(float_literal(lb).as_str());
    s.append(",value,");
    s.append(float_literal(ub).as_str());
    s.append(")");
    s
}

pub fn subset_of_int_range(lb: i128, ub: i128) -> (r: String)
    ensures
        r@ == subset_of_int_range_text(lb, ub),
{
    let mut s = String::from_str("set_of_int,(range,value,");
    s.append(int_literal(lb).as_str());
    s.append(",value,");
    s.append(int_literal(ub).as_str());
    s.append(")");
    s
}

pub fn subset_of_int_set(set: &Vec<i128>) -> (r: Vec<String>)
    ensures
        lines_of(r@) == subset_of_int_set_frags(set@),
{
    int_members(set, "set_of_int,(set,value,", ")")
}

pub fn single(s: String) -> (r: Vec<String>)
    ensures
        lines_of(r@) == seq![s@],
{
    let mut ret: Vec<String> = Vec::new();
    emit(&mut ret, s);
    assert(lines_of(ret@) =~= seq![s@]);
    ret
}

pub fn basic_type(t: BasicType) -> (r: String)
    ensures
        r@ == basic_type_text(t),
{
    match t {
        BasicType::Bool => String::from_str("bool"),
        BasicType::Int => String::from_str("int"),
        BasicType::Float => String::from_str("float"),
    }
}

pub fn basic_var_type(t: &BasicVarType) -> (r: Vec<String>)
    ensures
        lines_of(r@) == basic_var_type_frags(*t),
{
    match t {
        BasicVarType::BasicType(b) => single(basic_type(*b)),
        BasicVarType::IntInRange(lb, ub) => single(int_in_range(*lb, *ub)),
        BasicVarType::IntInSet(set) => int_in_set(set),
        BasicVarType::BoundedFloat(lb, ub) => single(bounded_float(lb.as_str(), ub.as_str())),
        BasicVarType::SubSetOfIntRange(lb, ub) => single(subset_of_int_range(*lb, *ub)),
        BasicVarType::SubSetOfIntSet(set) => subset_of_int_set(set),
    }
}

pub fn basic_par_type(t: BasicParType) -> (r: String)
    ensures
        r@ == basic_par_type_text(t),
{
    match t {
        BasicParType::BasicType(b) => basic_type(b),
        BasicParType::SetOfInt => String::from_str("set_of_int"),
    }
}

pub fn basic_pred_par_type(t: &BasicPredParType) -> (r: Vec<String>)
    ensures
        lines_of(r@) == basic_pred_par_type_frags(*t),
{
    match t {
        BasicPredParType::BasicParType(p) => single(basic_par_type(*p)),
        BasicPredParType::BasicVarType(v) => basic_var_type(v),
        BasicPredParType::VarSetOfInt => single(String::from_str("set_of_int")),
        BasicPredParType::BoundedFloat(lb, ub) => single(bounded_float(lb.as_str(), ub.as_str())),
        BasicPredParType::IntInRange(lb, ub) => single(int_in_range(*lb, *ub)),
        BasicPredParType::IntInSet(set) => int_in_set(set),
        BasicPredParType::FloatInSet(set) => float_in_set(set),
        BasicPredParType::SubSetOfIntRange(lb, ub) => single(subset_of_int_range(*lb, *ub)),
        BasicPredParType::SubSetOfIntSet(set) => subset_of_int_set(set),
    }
}

pub fn array_type(idx: &str, element_type: &str) -> (r: String)
    ensures
        r@ == array_type_text(idx@, element_type@),
{
    let mut s = String::from_str("array(");
    s.append(idx);
    s.append(",");
    s.append(element_type);
    s.append(")");
    s
}

pub fn opt_type(o: OptimizationType) -> (r: String)
    ensures
        r@ == opt_type_text(o),
{
    match o {
        OptimizationType::Minimize => String::from_str("minimize"),
        OptimizationType::Maximize => String::from_str("maximize"),
    }
}

pub fn index(ix: IndexSet) -> (r: String)
    ensures
        r@ == index_text(ix),
{
    int_literal(ix.0)
}

pub fn pred_index(ix: PredIndexSet) -> (r: String)
    ensures
        r@ == pred_index_text(ix),
{
    match ix {
        PredIndexSet::IndexSet(i) => int_literal(i),
        PredIndexSet::Int => String::from_str("int"),
    }
}

} // verus!
