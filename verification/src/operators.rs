//! What a binary operator does between two evaluated operands: which
//! operation applies, by the operands' kinds and tensor orders, and the
//! error for every combination the language does not define.

use vstd::prelude::*;
use crate::ast::BinOp;
use crate::checks::{op_name, op_symbol};
use crate::error::{Error, ErrorModel};
use crate::text::{concat_str, decimal, decimal_string};

verus! {

/// The kind of an evaluated operand, with the shape of a tensor.
#[derive(Debug, Clone, Copy, PartialEq, Eq)]
pub enum Operand {
    Scalar,
    Tensor { order: usize, dim: usize },
    Equation,
    BoundaryCondition,
    Ode,
    OdeClassification,
    OdeSolution,
}

/// The operation a binary operator performs.
#[derive(Debug, Clone, Copy, PartialEq, Eq)]
pub enum BinaryRule {
    /// The scalar expression `a op b`.
    ScalarOp(BinOp),
    /// `A : B` of two second-order tensors, a scalar.
    DdotScalar,
    /// `A : B` of a second- and a fourth-order tensor (in either order), a
    /// second-order tensor; `swapped` when the fourth-order one is on the
    /// left.
    DdotSecondFourth { swapped: bool },
    /// `A & B`.
    Outer,
    /// `A * B` of two tensors.
    MatMul,
    /// `A ^ n` with a scalar exponent.
    TensorPower,
    /// `A + B` of two tensors.
    AddTensors,
    /// `A - B` of two tensors.
    SubTensors,
    /// Scalar times tensor; `tensor_left` when written `A * s`.
    Scale { tensor_left: bool },
    /// Tensor divided by scalar.
    DivideTensor,
}

/// The name of an operand kind in messages.
pub open spec fn kind_name_spec(o: Operand) -> Seq<char> {
    match o {
        Operand::Scalar => "Scalar"@,
        Operand::Tensor { .. } => "Tensor"@,
        Operand::Equation => "Equation"@,
        Operand::BoundaryCondition => "BoundaryCondition"@,
        Operand::Ode => "ODE"@,
        Operand::OdeClassification => "OdeClassification"@,
        Operand::OdeSolution => "OdeSolution"@,
    }
}

pub fn kind_name(o: Operand) -> (s: &'static str)
    ensures
        s@ == kind_name_spec(o),
{
    match o {
        Operand::Scalar => "Scalar",
        Operand::Tensor { .. } => "Tensor",
        Operand::Equation => "Equation",
        Operand::BoundaryCondition => "BoundaryCondition",
        Operand::Ode => "ODE",
        Operand::OdeClassification => "OdeClassification",
        Operand::OdeSolution => "OdeSolution",
    }
}

pub open spec fn between(l: Operand, r: Operand) -> Seq<char> {
    " is not defined between "@ + kind_name_spec(l) + " and "@ + kind_name_spec(r)
}

/// The operation `l op r` performs, or the message of the error it gives.
pub open spec fn binary_rule_spec(op: BinOp, l: Operand, r: Operand) -> Result<
    BinaryRule,
    Seq<char>,
> {
    match (op, l, r) {
        (BinOp::Ddot, Operand::Tensor { order: oa, dim: da }, Operand::Tensor { order: ob, dim: db }) => {
            if oa == 2 && ob == 2 {
                if da != db {
                    Err(
                        "dimension mismatch in `:`: "@ + decimal(da as nat) + " vs "@ + decimal(
                            db as nat,
                        ),
                    )
                } else {
                    Ok(BinaryRule::DdotScalar)
                }
            } else if oa == 2 && ob == 4 {
                Ok(BinaryRule::DdotSecondFourth { swapped: false })
            } else if oa == 4 && ob == 2 {
                Ok(BinaryRule::DdotSecondFourth { swapped: true })
            } else {
                Err(
                    "`:` supports 2:2, 2:4 and 4:2 contractions, got orders "@ + decimal(oa as nat)
                        + " and "@ + decimal(ob as nat),
                )
            }
        },
        (BinOp::Ddot, _, _) => Err("`:`"@ + between(l, r)),
        (BinOp::Outer, Operand::Tensor { .. }, Operand::Tensor { .. }) => Ok(BinaryRule::Outer),
        (BinOp::Outer, _, _) => Err("`&`"@ + between(l, r)),
        (_, Operand::Scalar, Operand::Scalar) => Ok(BinaryRule::ScalarOp(op)),
        (BinOp::Mul, Operand::Tensor { .. }, Operand::Tensor { .. }) => Ok(BinaryRule::MatMul),
        (BinOp::Pow, Operand::Tensor { .. }, Operand::Scalar) => Ok(BinaryRule::TensorPower),
        (BinOp::Add, Operand::Tensor { .. }, Operand::Tensor { .. }) => Ok(BinaryRule::AddTensors),
        (BinOp::Sub, Operand::Tensor { .. }, Operand::Tensor { .. }) => Ok(BinaryRule::SubTensors),
        (BinOp::Mul, Operand::Scalar, Operand::Tensor { .. }) => Ok(
            BinaryRule::Scale { tensor_left: false },
        ),
        (BinOp::Mul, Operand::Tensor { .. }, Operand::Scalar) => Ok(
            BinaryRule::Scale { tensor_left: true },
        ),
        (BinOp::Div, Operand::Tensor { .. }, Operand::Scalar) => Ok(BinaryRule::DivideTensor),
        _ => Err("operator `"@ + op_symbol(op) + "`"@ + between(l, r)),
    }
}

pub open spec fn rule_result_view(r: Result<BinaryRule, Error>) -> Result<BinaryRule, ErrorModel> {
    match r {
        Ok(x) => Ok(x),
        Err(e) => Err(e@),
    }
}

pub open spec fn with_no_line(r: Result<BinaryRule, Seq<char>>) -> Result<BinaryRule, ErrorModel> {
    match r {
        Ok(x) => Ok(x),
        Err(m) => Err(ErrorModel { message: m, line: None }),
    }
}

fn undefined_between(prefix: &str, l: Operand, r: Operand) -> (e: Error)
    ensures
        e@ == (ErrorModel { message: prefix@ + between(l, r), line: None }),
{
    let mut m = concat_str(prefix, " is not defined between ");
    m.append(kind_name(l));
    m.append(" and ");
    m.append(kind_name(r));
    assert(m@ =~= prefix@ + between(l, r));
    Error::msg(m)
}

/// The operation `l op r` performs (see [`binary_rule_spec`]).
pub fn binary_rule(op: BinOp, l: Operand, r: Operand) -> (res: Result<BinaryRule, Error>)
    ensures
        rule_result_view(res) == with_no_line(binary_rule_spec(op, l, r)),
{
    match (op, l, r) {
        (BinOp::Ddot, Operand::Tensor { order: oa, dim: da }, Operand::Tensor { order: ob, dim: db }) => {
            if oa == 2 && ob == 2 {
                if da != db {
                    let mut m = String::from_str("dimension mismatch in `:`: ");
                    m.append(decimal_string(da).as_str());
                    m.append(" vs ");
                    m.append(decimal_string(db).as_str());
                    Err(Error::msg(m))
                } else {
                    Ok(BinaryRule::DdotScalar)
                }
            } else if oa == 2 && ob == 4 {
                Ok(BinaryRule::DdotSecondFourth { swapped: false })
            } else if oa == 4 && ob == 2 {
                Ok(BinaryRule::DdotSecondFourth { swapped: true })
            } else {
                let mut m = String::from_str("`:` supports 2:2, 2:4 and 4:2 contractions, got orders ");
                m.append(decimal_string(oa).as_str());
                m.append(" and ");
                m.append(decimal_string(ob).as_str());
                Err(Error::msg(m))
            }
        },
        (BinOp::Ddot, _, _) => Err(undefined_between("`:`", l, r)),
        (BinOp::Outer, Operand::Tensor { .. }, Operand::Tensor { .. }) => Ok(BinaryRule::Outer),
        (BinOp::Outer, _, _) => Err(undefined_between("`&`", l, r)),
        (_, Operand::Scalar, Operand::Scalar) => Ok(BinaryRule::ScalarOp(op)),
        (BinOp::Mul, Operand::Tensor { .. }, Operand::Tensor { .. }) => Ok(BinaryRule::MatMul),
        (BinOp::Pow, Operand::Tensor { .. }, Operand::Scalar) => Ok(BinaryRule::TensorPower),
        (BinOp::Add, Operand::Tensor { .. }, Operand::Tensor { .. }) => Ok(BinaryRule::AddTensors),
        (BinOp::Sub, Operand::Tensor { .. }, Operand::Tensor { .. }) => Ok(BinaryRule::SubTensors),
        (BinOp::Mul, Operand::Scalar, Operand::Tensor { .. }) => Ok(
            BinaryRule::Scale { tensor_left: false },
        ),
        (BinOp::Mul, Operand::Tensor { .. }, Operand::Scalar) => Ok(
            BinaryRule::Scale { tensor_left: true },
        ),
        (BinOp::Div, Operand::Tensor { .. }, Operand::Scalar) => Ok(BinaryRule::DivideTensor),
        _ => {
            let mut m = concat_str("operator `", op_name(op));
            m.append("`");
            let e = undefined_between(m.as_str(), l, r);
            Err(e)
        },
    }
}

} // verus!
