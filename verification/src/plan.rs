//! Expression nodes that name the temporal kernels in a query plan.

use vstd::prelude::*;
use crate::error::TemporalError;
use crate::series::TemporalSeries;

verus! {

/// How a function is applied to grouped data.
#[derive(Clone, Copy, Debug, PartialEq, Eq, Structural)]
pub enum ApplyOptions {
    /// The function sees every group as one column.
    GroupWise,
    /// The function sees the groups as a list column.
    ApplyList,
    /// The function maps each element on its own.
    ElementWise,
}

/// The kernels that an expression can call.
#[derive(Clone, Copy, Debug, PartialEq, Eq, Structural)]
pub enum FunctionExpr {
    BusinessDayCount,
    DateOffset,
    DateRange,
    Round,
    Truncate,
    ReplaceTimeZone,
}

/// How the planner treats a function node.
#[derive(Clone, Copy, Debug, PartialEq, Eq, Structural)]
pub struct FunctionOptions {
    pub collect_groups: ApplyOptions,
    /// The inputs are cast to their common supertype before the call.
    pub cast_to_supertypes: bool,
    /// The output may take a name other than that of the first input.
    pub allow_rename: bool,
    /// The function is called even where every group is empty.
    pub pass_name_to_apply: bool,
    /// The function returns one value per group.
    pub returns_scalar: bool,
}

impl FunctionOptions {
    /// The options of a function node that sets none.
    pub open spec fn spec_default() -> FunctionOptions {
        FunctionOptions {
            collect_groups: ApplyOptions::GroupWise,
            cast_to_supertypes: false,
            allow_rename: false,
            pass_name_to_apply: false,
            returns_scalar: false,
        }
    }
}

impl Default for FunctionOptions {
    fn default() -> (r: FunctionOptions)
        ensures
            r == FunctionOptions::spec_default(),
    {
        FunctionOptions {
            collect_groups: ApplyOptions::GroupWise,
            cast_to_supertypes: false,
            allow_rename: false,
            pass_name_to_apply: false,
            returns_scalar: false,
        }
    }
}

/// A node of an expression tree.
#[derive(Debug)]
pub enum Expr {
    /// A column, by name.
    Column(String),
    /// A call of a kernel on the values of other expressions.
    Function { input: Vec<Expr>, function: FunctionExpr, options: FunctionOptions },
}

/// The expression that counts the business days from `start` to `end`.
///
/// The node applies group-wise, casts its two inputs to their common
/// supertype and may be renamed.
pub fn business_day_count(start: Expr, end: Expr) -> (e: Expr)
    ensures
        e matches Expr::Function { input, function, options } && input@ == seq![start, end]
            && function == FunctionExpr::BusinessDayCount && options == (FunctionOptions {
            collect_groups: ApplyOptions::GroupWise,
            cast_to_supertypes: true,
            allow_rename: true,
            ..FunctionOptions::spec_default()
        }),
{
    let mut input: Vec<Expr> = Vec::new();
    input.push(start);
    input.push(end);
    let base = FunctionOptions::default();
    let options = FunctionOptions {
        collect_groups: ApplyOptions::GroupWise,
        cast_to_supertypes: true,
        allow_rename: true,
        pass_name_to_apply: base.pass_name_to_apply,
        returns_scalar: base.returns_scalar,
    };
    assert(input@ =~= seq![start, end]);
    Expr::Function { input, function: FunctionExpr::BusinessDayCount, options }
}

/// How the type of the output of a function follows from its inputs.
#[derive(Clone, Copy, Debug, PartialEq, Eq, Structural)]
pub enum GetOutput {
    /// The output has the type of the first input.
    SameType,
    /// The output holds instants.
    Datetime,
    /// The output holds dates.
    Date,
    /// The output holds times of day.
    Time,
}

/// A node that applies a function of the caller to the values of two
/// expressions.
pub struct BinaryFunction<F> {
    pub input: Vec<Expr>,
    pub function: F,
    pub output_type: GetOutput,
    pub options: FunctionOptions,
}

/// The expression that applies `f` to the values of `a` and `b`, group by
/// group.
pub fn apply_binary<F>(a: Expr, b: Expr, f: F, output_type: GetOutput) -> (e: BinaryFunction<F>)
    where
        F: Fn(TemporalSeries, TemporalSeries) -> Result<Option<TemporalSeries>, TemporalError>,
    ensures
        e.input@ == seq![a, b],
        e.function == f,
        e.output_type == output_type,
        e.options == FunctionOptions::spec_default(),
{
    let mut input: Vec<Expr> = Vec::new();
    input.push(a);
    input.push(b);
    assert(input@ =~= seq![a, b]);
    BinaryFunction { input, function: f, output_type, options: FunctionOptions::default() }
}

impl<F> BinaryFunction<F> where
    F: Fn(TemporalSeries, TemporalSeries) -> Result<Option<TemporalSeries>, TemporalError>,
 {
    /// Applies the function of the node to the values of its two inputs.
    pub fn evaluate(&self, s0: TemporalSeries, s1: TemporalSeries) -> (r: Result<
        Option<TemporalSeries>,
        TemporalError,
    >)
        requires
            self.function.requires((s0, s1)),
        ensures
            self.function.ensures((s0, s1), r),
    {
        (self.function)(s0, s1)
    }
}

} // verus!
