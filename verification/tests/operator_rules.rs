use tensorforge::ast::BinOp;
use tensorforge::operators::{binary_rule, kind_name, BinaryRule, Operand};

fn t(order: usize) -> Operand {
    Operand::Tensor { order, dim: 3 }
}

fn message(op: BinOp, l: Operand, r: Operand) -> String {
    binary_rule(op, l, r).unwrap_err().message
}

#[test]
fn double_contractions_by_order() {
    assert_eq!(binary_rule(BinOp::Ddot, t(2), t(2)).unwrap(), BinaryRule::DdotScalar);
    assert_eq!(
        binary_rule(BinOp::Ddot, t(2), t(4)).unwrap(),
        BinaryRule::DdotSecondFourth { swapped: false }
    );
    assert_eq!(
        binary_rule(BinOp::Ddot, t(4), t(2)).unwrap(),
        BinaryRule::DdotSecondFourth { swapped: true }
    );
    assert_eq!(
        message(BinOp::Ddot, t(4), t(4)),
        "`:` supports 2:2, 2:4 and 4:2 contractions, got orders 4 and 4"
    );
    assert_eq!(
        message(BinOp::Ddot, Operand::Tensor { order: 2, dim: 3 }, Operand::Tensor { order: 2, dim: 2 }),
        "dimension mismatch in `:`: 3 vs 2"
    );
    assert_eq!(
        message(BinOp::Ddot, Operand::Scalar, t(2)),
        "`:` is not defined between Scalar and Tensor"
    );
}

#[test]
fn outer_products_need_tensors() {
    assert_eq!(binary_rule(BinOp::Outer, t(1), t(1)).unwrap(), BinaryRule::Outer);
    assert_eq!(
        message(BinOp::Outer, Operand::Scalar, Operand::Scalar),
        "`&` is not defined between Scalar and Scalar"
    );
}

#[test]
fn arithmetic_between_kinds() {
    assert_eq!(
        binary_rule(BinOp::Pow, Operand::Scalar, Operand::Scalar).unwrap(),
        BinaryRule::ScalarOp(BinOp::Pow)
    );
    assert_eq!(binary_rule(BinOp::Mul, t(2), t(2)).unwrap(), BinaryRule::MatMul);
    assert_eq!(binary_rule(BinOp::Pow, t(2), Operand::Scalar).unwrap(), BinaryRule::TensorPower);
    assert_eq!(binary_rule(BinOp::Add, t(2), t(2)).unwrap(), BinaryRule::AddTensors);
    assert_eq!(binary_rule(BinOp::Sub, t(1), t(1)).unwrap(), BinaryRule::SubTensors);
    assert_eq!(
        binary_rule(BinOp::Mul, Operand::Scalar, t(2)).unwrap(),
        BinaryRule::Scale { tensor_left: false }
    );
    assert_eq!(
        binary_rule(BinOp::Mul, t(2), Operand::Scalar).unwrap(),
        BinaryRule::Scale { tensor_left: true }
    );
    assert_eq!(binary_rule(BinOp::Div, t(2), Operand::Scalar).unwrap(), BinaryRule::DivideTensor);
}

#[test]
fn undefined_operators_name_both_kinds() {
    assert_eq!(
        message(BinOp::Div, Operand::Scalar, t(2)),
        "operator `/` is not defined between Scalar and Tensor"
    );
    assert_eq!(
        message(BinOp::Add, Operand::Scalar, t(2)),
        "operator `+` is not defined between Scalar and Tensor"
    );
    assert_eq!(
        message(BinOp::Mul, Operand::Equation, Operand::OdeSolution),
        "operator `*` is not defined between Equation and OdeSolution"
    );
    assert_eq!(kind_name(Operand::Ode), "ODE");
    assert_eq!(kind_name(Operand::BoundaryCondition), "BoundaryCondition");
}
