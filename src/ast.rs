//! The statements of a FlatZinc model, as the translator reads them.
//!
//! A floating-point number is held as its decimal text, exactly as it is to
//! appear in the facts (`"1"` for one, `"42.1"`).
use vstd::prelude::*;

verus! {

#[derive(Clone, Debug)]
pub enum BoolExpr {
    Bool(bool),
    VarParIdentifier(String),
}

#[derive(Clone, Debug)]
pub enum IntExpr {
    Int(i128),
    VarParIdentifier(String),
}

#[derive(Clone, Debug)]
pub enum FloatExpr {
    /// The decimal text of a float literal.
    Float(String),
    VarParIdentifier(String),
}

#[derive(Clone, Debug)]
pub enum SetLiteralExpr {
    IntInRange(IntExpr, IntExpr),
    BoundedFloat(FloatExpr, FloatExpr),
    SetFloats(Vec<FloatExpr>),
    SetInts(Vec<IntExpr>),
}

#[derive(Clone, Debug)]
pub enum SetExpr {
    SetLiteral(SetLiteralExpr),
    VarParIdentifier(String),
}

/// A set literal of a parameter: its floats as decimal text.
#[derive(Clone, Debug)]
pub enum SetLiteral {
    IntRange(i128, i128),
    BoundedFloat(String, String),
    SetFloats(Vec<String>),
    SetInts(Vec<i128>),
}

#[derive(Clone, Debug)]
pub enum Expr {
    VarParIdentifier(String),
    Bool(bool),
    Int(i128),
    /// The decimal text of a float literal.
    Float(String),
    SetLiteral(SetLiteralExpr),
    ArrayOfBool(Vec<BoolExpr>),
    ArrayOfInt(Vec<IntExpr>),
    ArrayOfFloat(Vec<FloatExpr>),
    ArrayOfSet(Vec<SetExpr>),
}

#[derive(Clone, Debug)]
pub enum ArrayOfBoolExpr {
    Array(Vec<BoolExpr>),
    VarParIdentifier(String),
}

#[derive(Clone, Debug)]
pub enum ArrayOfIntExpr {
    Array(Vec<IntExpr>),
    VarParIdentifier(String),
}

#[derive(Clone, Debug)]
pub enum ArrayOfFloatExpr {
    Array(Vec<FloatExpr>),
    VarParIdentifier(String),
}

#[derive(Clone, Debug)]
pub enum ArrayOfSetExpr {
    Array(Vec<SetExpr>),
    VarParIdentifier(String),
}

#[derive(Debug)]
pub struct Annotation {
    pub id: String,
    pub expressions: Vec<AnnExpr>,
}

#[derive(Debug)]
pub enum AnnExpr {
    Annotations(Vec<Annotation>),
    String(String),
    Expr(Expr),
}

#[derive(Clone, Copy, Debug)]
pub enum BasicType {
    Bool,
    Int,
    Float,
}

#[derive(Clone, Debug)]
pub enum BasicVarType {
    BasicType(BasicType),
    IntInRange(i128, i128),
    IntInSet(Vec<i128>),
    /// Bounds as decimal text.
    BoundedFloat(String, String),
    SubSetOfIntSet(Vec<i128>),
    SubSetOfIntRange(i128, i128),
}

#[derive(Clone, Copy, Debug)]
pub enum BasicParType {
    BasicType(BasicType),
    SetOfInt,
}

#[derive(Clone, Debug)]
pub enum BasicPredParType {
    BasicParType(BasicParType),
    BasicVarType(BasicVarType),
    VarSetOfInt,
    IntInRange(i128, i128),
    IntInSet(Vec<i128>),
    /// Bounds as decimal text.
    BoundedFloat(String, String),
    /// Elements as decimal text.
    FloatInSet(Vec<String>),
    SubSetOfIntSet(Vec<i128>),
    SubSetOfIntRange(i128, i128),
}

#[derive(Clone, Copy, Debug)]
pub enum PredIndexSet {
    IndexSet(i128),
    Int,
}

#[derive(Clone, Debug)]
pub enum PredParType {
    Basic(BasicPredParType),
    Array { ix: PredIndexSet, par_type: BasicPredParType },
}

/// The upper bound `n` of an index set `1..n`.
#[derive(Clone, Copy, Debug)]
pub struct IndexSet(pub i128);

#[derive(Clone, Debug)]
pub struct PredicateItem {
    pub id: String,
    pub parameters: Vec<(PredParType, String)>,
}

#[derive(Clone, Debug)]
pub enum ParDeclItem {
    Bool { id: String, bool: bool },
    Int { id: String, int: i128 },
    /// The value as decimal text.
    Float { id: String, float: String },
    SetOfInt { id: String, set_literal: SetLiteral },
    ArrayOfBool { ix: IndexSet, id: String, v: Vec<bool> },
    ArrayOfInt { ix: IndexSet, id: String, v: Vec<i128> },
    /// The values as decimal text.
    ArrayOfFloat { ix: IndexSet, id: String, v: Vec<String> },
    ArrayOfSet { ix: IndexSet, id: String, v: Vec<SetLiteral> },
}

#[derive(Debug)]
pub enum VarDeclItem {
    Bool { id: String, expr: Option<BoolExpr>, annos: Vec<Annotation> },
    Int { id: String, expr: Option<IntExpr>, annos: Vec<Annotation> },
    IntInRange { id: String, lb: i128, ub: i128, expr: Option<IntExpr>, annos: Vec<Annotation> },
    IntInSet { id: String, set: Vec<i128>, expr: Option<IntExpr>, annos: Vec<Annotation> },
    Float { id: String, expr: Option<FloatExpr>, annos: Vec<Annotation> },
    /// Bounds as decimal text.
    BoundedFloat {
        id: String,
        lb: String,
        ub: String,
        expr: Option<FloatExpr>,
        annos: Vec<Annotation>,
    },
    SetOfInt { id: String, expr: Option<SetExpr>, annos: Vec<Annotation> },
    SubSetOfIntSet { id: String, set: Vec<i128>, expr: Option<SetExpr>, annos: Vec<Annotation> },
    SubSetOfIntRange {
        id: String,
        lb: i128,
        ub: i128,
        expr: Option<SetExpr>,
        annos: Vec<Annotation>,
    },
    ArrayOfBool {
        ix: IndexSet,
        id: String,
        annos: Vec<Annotation>,
        array_expr: Option<ArrayOfBoolExpr>,
    },
    ArrayOfInt {
        ix: IndexSet,
        id: String,
        annos: Vec<Annotation>,
        array_expr: Option<ArrayOfIntExpr>,
    },
    ArrayOfIntInRange {
        lb: i128,
        ub: i128,
        ix: IndexSet,
        id: String,
        annos: Vec<Annotation>,
        array_expr: Option<ArrayOfIntExpr>,
    },
    ArrayOfIntInSet {
        set: Vec<i128>,
        ix: IndexSet,
        id: String,
        annos: Vec<Annotation>,
        array_expr: Option<ArrayOfIntExpr>,
    },
    ArrayOfFloat {
        ix: IndexSet,
        id: String,
        annos: Vec<Annotation>,
        array_expr: Option<ArrayOfFloatExpr>,
    },
    /// Bounds as decimal text.
    ArrayOfBoundedFloat {
        lb: String,
        ub: String,
        ix: IndexSet,
        id: String,
        annos: Vec<Annotation>,
        array_expr: Option<ArrayOfFloatExpr>,
    },
    ArrayOfSet {
        ix: IndexSet,
        id: String,
        annos: Vec<Annotation>,
        array_expr: Option<ArrayOfSetExpr>,
    },
    ArrayOfSubSetOfIntRange {
        ub: i128,
        lb: i128,
        ix: IndexSet,
        id: String,
        annos: Vec<Annotation>,
        array_expr: Option<ArrayOfSetExpr>,
    },
    ArrayOfSubSetOfIntSet {
        set: Vec<i128>,
        ix: IndexSet,
        id: String,
        annos: Vec<Annotation>,
        array_expr: Option<ArrayOfSetExpr>,
    },
}

#[derive(Debug)]
pub struct ConstraintItem {
    pub id: String,
    pub exprs: Vec<Expr>,
    pub annos: Vec<Annotation>,
}

#[derive(Clone, Copy, Debug)]
pub enum OptimizationType {
    Minimize,
    Maximize,
}

#[derive(Clone, Debug)]
pub enum Goal {
    Satisfy,
    OptimizeBool(OptimizationType, BoolExpr),
    OptimizeInt(OptimizationType, IntExpr),
    OptimizeFloat(OptimizationType, FloatExpr),
    OptimizeSet(OptimizationType, SetExpr),
}

#[derive(Debug)]
pub struct SolveItem {
    pub goal: Goal,
    pub annotations: Vec<Annotation>,
}

#[derive(Debug)]
pub enum Stmt {
    Comment(String),
    Predicate(PredicateItem),
    Parameter(ParDeclItem),
    Variable(VarDeclItem),
    Constraint(ConstraintItem),
    SolveItem(SolveItem),
}

} // verus!
