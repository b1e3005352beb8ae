use lhopital::expression::{Expression, LimitError};
use lhopital::literal::{Literal, ONE_BITS, ZERO_BITS};

fn lit(v: f64) -> Literal {
    Literal::from_bits(v.to_bits())
}

fn var() -> Box<Expression> {
    Box::new(Expression::Variable)
}

fn constant(v: f64) -> Box<Expression> {
    Box::new(Expression::Constant(lit(v)))
}

#[test]
fn literal_bits_of_zero_and_one() {
    assert_eq!(ZERO_BITS, 0.0f64.to_bits());
    assert_eq!(ONE_BITS, 1.0f64.to_bits());
    assert_eq!(Literal::zero(), lit(0.0));
    assert_eq!(Literal::one(), lit(1.0));
}

#[test]
fn lowering_counts_and_saturates() {
    let l = lit(3.5).lowered().lowered();
    assert_eq!(l, Literal { bits: 3.5f64.to_bits(), decrements: 2 });
    let top = Literal { bits: 7, decrements: u64::MAX };
    assert_eq!(top.lowered(), top);
}

#[test]
fn constant_differentiates_to_zero() {
    for v in [0.0, 4.0, -2.5, 1e300] {
        let d = Expression::Constant(lit(v)).differentiate();
        assert_eq!(d, Ok(Expression::Constant(Literal::zero())));
    }
}

#[test]
fn variable_differentiates_to_one() {
    assert_eq!(
        Expression::Variable.differentiate(),
        Ok(Expression::Constant(Literal::one()))
    );
}

#[test]
fn power_rule_on_variable() {
    let d = Expression::Power(var(), lit(2.0)).differentiate();
    assert_eq!(
        d,
        Ok(Expression::Product(
            constant(2.0),
            Box::new(Expression::Power(
                var(),
                Literal { bits: 2.0f64.to_bits(), decrements: 1 }
            )),
        ))
    );
}

#[test]
fn sum_and_difference_differentiate_term_by_term() {
    let sum = Expression::Sum(Box::new(Expression::Power(var(), lit(3.0))), var());
    let expected_power = Expression::Power(var()
        , Literal { bits: 3.0f64.to_bits(), decrements: 1 });
    assert_eq!(
        sum.differentiate(),
        Ok(Expression::Sum(
            Box::new(Expression::Product(constant(3.0), Box::new(expected_power))),
            Box::new(Expression::Constant(Literal::one())),
        ))
    );
    let diff = Expression::Difference(var(), constant(2.0));
    assert_eq!(
        diff.differentiate(),
        Ok(Expression::Difference(
            Box::new(Expression::Constant(Literal::one())),
            Box::new(Expression::Constant(Literal::zero())),
        ))
    );
}

#[test]
fn product_is_unsupported() {
    let p = Expression::Product(var(), var());
    assert_eq!(p.differentiate(), Err(LimitError::DifferentiationUnsupported));
    let p = Expression::Product(constant(1.0), constant(2.0));
    assert_eq!(p.differentiate(), Err(LimitError::DifferentiationUnsupported));
}

#[test]
fn power_of_composite_base_is_unsupported() {
    let base = Box::new(Expression::Sum(var(), constant(1.0)));
    let p = Expression::Power(base, lit(2.0));
    assert_eq!(p.differentiate(), Err(LimitError::DifferentiationUnsupported));
    let p = Expression::Power(constant(2.0), lit(2.0));
    assert_eq!(p.differentiate(), Err(LimitError::DifferentiationUnsupported));
}

#[test]
fn unsupported_inside_a_sum_is_reported() {
    let s = Expression::Sum(var(), Box::new(Expression::Product(var(), var())));
    assert_eq!(s.differentiate(), Err(LimitError::DifferentiationUnsupported));
    let d = Expression::Difference(Box::new(Expression::Power(constant(3.0), lit(2.0))), var());
    assert_eq!(d.differentiate(), Err(LimitError::DifferentiationUnsupported));
}

#[test]
fn differentiating_twice_nests_products_and_then_fails() {
    let once = Expression::Power(var(), lit(2.0)).differentiate().unwrap();
    assert!(matches!(once, Expression::Product(_, _)));
    assert_eq!(once.differentiate(), Err(LimitError::DifferentiationUnsupported));
}
