//! The statement dispatcher and the ordering state machine.
use vstd::prelude::*;
use vstd::string::*;
use crate::ast::Stmt;
use crate::emit::{
    constraint_lines, par_decl_lines, predicate_lines, solve_lines, var_decl_lines, var_decl_ok,
    write_constraint, write_par_decl_item, write_predicate, write_solve_item, write_var_decl_item,
};
use crate::text::{emit, lines_of};

verus! {

/// A fatal error of a translation run.
#[derive(Debug)]
pub enum FlatZincError {
    /// A second solve goal came after one was accepted.
    MultipleSolveItems,
    /// The input ended before any solve goal.
    NoSolveItem,
    /// The parser refused a unit of input; `msg` is its diagnostic.
    ParseError { msg: String },
}

/// Whether a statement came in the canonical order. A statement out of order
/// is still translated; the caller may warn about it.
#[derive(Clone, Copy, Debug, PartialEq, Eq, Structural)]
pub enum Placement {
    InOrder,
    OutOfOrder,
}

/// The phase a statement belongs to: predicates 1, parameters 2, variables 3,
/// constraints 4, the solve goal 5. A comment has none.
pub open spec fn phase(s: Stmt) -> int {
    match s {
        Stmt::Comment(_) => 0,
        Stmt::Predicate(_) => 1,
        Stmt::Parameter(_) => 2,
        Stmt::Variable(_) => 3,
        Stmt::Constraint(_) => 4,
        Stmt::SolveItem(_) => 5,
    }
}

/// A solve goal once the solve phase has been reached is refused.
pub open spec fn refuses(level: int, s: Stmt) -> bool {
    s is SolveItem && level > 4
}

/// A statement other than a comment comes after a later phase was reached.
pub open spec fn out_of_order(level: int, s: Stmt) -> bool {
    !(s is Comment) && level > phase(s)
}

/// The phase level after an accepted statement: comments and predicates leave
/// it; the others raise it to their own phase, and never lower it.
pub open spec fn next_level(level: int, s: Stmt) -> int {
    match s {
        Stmt::Comment(_) => level,
        Stmt::Predicate(_) => level,
        _ => if level > phase(s) {
            level
        } else {
            phase(s)
        },
    }
}

/// The constraint counter after a statement: one more after a constraint.
pub open spec fn next_counter(counter: int, s: Stmt) -> int {
    if s is Constraint {
        counter + 1
    } else {
        counter
    }
}

/// The lines of a statement; `n` numbers a constraint.
pub open spec fn stmt_lines(s: Stmt, n: nat) -> Seq<Seq<char>> {
    match s {
        Stmt::Comment(t) => seq!["%"@ + t@],
        Stmt::Predicate(p) => predicate_lines(p),
        Stmt::Parameter(p) => par_decl_lines(p),
        Stmt::Variable(d) => var_decl_lines(d),
        Stmt::Constraint(c) => constraint_lines(n, c),
        Stmt::SolveItem(i) => solve_lines(i),
    }
}

/// The statement's annotations are well formed.
pub open spec fn stmt_ok(s: Stmt) -> bool {
    match s {
        Stmt::Variable(d) => var_decl_ok(d),
        _ => true,
    }
}

/// Translates one statement: checks it against the phase reached so far,
/// advances the phase and the constraint counter, and appends its facts.
///
/// A refused solve goal changes nothing and gives `MultipleSolveItems`.
pub fn write_fz_stmt(
    out: &mut Vec<String>,
    stmt: &Stmt,
    constraint_counter: &mut usize,
    level: &mut i32,
) -> (r: Result<Placement, FlatZincError>)
    requires
        stmt_ok(*stmt),
        stmt is Constraint ==> *old(constraint_counter) < usize::MAX,
    ensures
        refuses(*old(level) as int, *stmt) ==> {
            &&& r matches Err(FlatZincError::MultipleSolveItems)
            &&& final(out)@ == old(out)@
            &&& *final(level) == *old(level)
            &&& *final(constraint_counter) == *old(constraint_counter)
        },
        !refuses(*old(level) as int, *stmt) ==> {
            &&& r == Ok::<Placement, FlatZincError>(
                if out_of_order(*old(level) as int, *stmt) {
                    Placement::OutOfOrder
                } else {
                    Placement::InOrder
                },
            )
            &&& *final(level) as int == next_level(*old(level) as int, *stmt)
            &&& *final(constraint_counter) as int == next_counter(
                *old(constraint_counter) as int,
                *stmt,
            )
            &&& lines_of(final(out)@) == lines_of(old(out)@) + stmt_lines(
                *stmt,
                *final(constraint_counter) as nat,
            )
        },
{
    let ghost start = lines_of(out@);
    let mut placement = Placement::InOrder;
    match stmt {
        Stmt::Comment(s) => {
            let mut line = String::from_str("%");
            line.append(s.as_str());
            emit(out, line);
        },
        Stmt::Predicate(pred) => {
            if *level > 1 {
                placement = Placement::OutOfOrder;
            }
            write_predicate(out, pred);
        },
        Stmt::Parameter(p) => {
            if *level > 2 {
                placement = Placement::OutOfOrder;
            } else {
                *level = 2;
            }
            write_par_decl_item(out, p);
        },
        Stmt::Variable(d) => {
            if *level > 3 {
                placement = Placement::OutOfOrder;
            } else {
                *level = 3;
            }
            write_var_decl_item(out, d);
        },
        Stmt::Constraint(c) => {
            if *level > 4 {
                placement = Placement::OutOfOrder;
            } else {
                *level = 4;
            }
            *constraint_counter = *constraint_counter + 1;
            write_constraint(out, c, *constraint_counter);
        },
        Stmt::SolveItem(i) => {
            if *level > 4 {
                return Err(FlatZincError::MultipleSolveItems);
            }
            *level = 5;
            write_solve_item(out, i);
        },
    }
    assert(lines_of(out@) =~= start + stmt_lines(*stmt, *constraint_counter as nat));
    Ok(placement)
}

/// The end-of-input check: `NoSolveItem` unless the solve phase was reached.
pub open spec fn finish_result(level: int) -> Result<(), FlatZincError> {
    if level < 5 {
        Err(FlatZincError::NoSolveItem)
    } else {
        Ok(())
    }
}

/// Checks, at the end of the input, that a solve goal was accepted.
pub fn finish(level: i32) -> (r: Result<(), FlatZincError>)
    ensures
        r == finish_result(level as int),
{
    if level < 5 {
        Err(FlatZincError::NoSolveItem)
    } else {
        Ok(())
    }
}

} // verus!
