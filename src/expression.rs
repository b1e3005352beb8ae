use vstd::prelude::*;
use crate::literal::{Literal, ZERO_BITS, ONE_BITS};

verus! {

/// Why a limit could not be found.
#[derive(Debug, Clone, Copy, PartialEq, Eq, Structural)]
pub enum LimitError {
    /// The denominator is zero where the numerator is not.
    DivisionByZero,
    /// The iteration budget ran out while the form stayed 0/0.
    MaxIterationsExceeded,
    /// A product, or a power whose base is not the variable itself, had to be
    /// differentiated.
    DifferentiationUnsupported,
}

/// An arithmetic expression in one variable. Each child is owned by its parent.
#[derive(Debug, PartialEq)]
pub enum Expression {
    Constant(Literal),
    Variable,
    Sum(Box<Expression>, Box<Expression>),
    Difference(Box<Expression>, Box<Expression>),
    Product(Box<Expression>, Box<Expression>),
    Power(Box<Expression>, Literal),
}

/// The derivative of `e` with respect to the variable, or `None` where `e`
/// holds a node outside the supported rules (any product, or a power whose
/// base is not exactly the variable).
pub open spec fn derivative(e: Expression) -> Option<Expression>
    decreases e,
{
    match e {
        Expression::Constant(_) => Some(
            Expression::Constant(Literal { bits: ZERO_BITS, decrements: 0 }),
        ),
        Expression::Variable => Some(
            Expression::Constant(Literal { bits: ONE_BITS, decrements: 0 }),
        ),
        Expression::Sum(a, b) => match (derivative(*a), derivative(*b)) {
            (Some(da), Some(db)) => Some(Expression::Sum(Box::new(da), Box::new(db))),
            _ => None,
        },
        Expression::Difference(a, b) => match (derivative(*a), derivative(*b)) {
            (Some(da), Some(db)) => Some(Expression::Difference(Box::new(da), Box::new(db))),
            _ => None,
        },
        Expression::Product(_, _) => None,
        Expression::Power(base, n) => if *base is Variable {
            Some(
                Expression::Product(
                    Box::new(Expression::Constant(n)),
                    Box::new(Expression::Power(Box::new(Expression::Variable), n.lowered_spec())),
                ),
            )
        } else {
            None
        },
    }
}

/// The derivative of any constant is the constant zero.
pub proof fn lemma_constant_derivative_is_zero(c: Literal)
    ensures
        derivative(Expression::Constant(c)) == Some(
            Expression::Constant(Literal { bits: ZERO_BITS, decrements: 0 }),
        ),
{
}

/// The derivative of the variable is the constant one.
pub proof fn lemma_variable_derivative_is_one()
    ensures
        derivative(Expression::Variable) == Some(
            Expression::Constant(Literal { bits: ONE_BITS, decrements: 0 }),
        ),
{
}

/// Power rule: the variable raised to `n` has the derivative `n * x^(n-1)`.
pub proof fn lemma_power_rule(n: Literal)
    ensures
        derivative(Expression::Power(Box::new(Expression::Variable), n)) == Some(
            Expression::Product(
                Box::new(Expression::Constant(n)),
                Box::new(Expression::Power(Box::new(Expression::Variable), n.lowered_spec())),
            ),
        ),
{
}

/// Linearity: a sum and a difference are differentiated term by term. The
/// derivative exists exactly when both terms have one, and is then the sum
/// (difference) of their derivatives.
pub proof fn lemma_linearity(a: Expression, b: Expression)
    ensures
        derivative(Expression::Sum(Box::new(a), Box::new(b))) is Some <==> (
            derivative(a) is Some && derivative(b) is Some),
        derivative(Expression::Difference(Box::new(a), Box::new(b))) is Some <==> (
            derivative(a) is Some && derivative(b) is Some),
        derivative(a) is Some && derivative(b) is Some ==> {
            &&& derivative(Expression::Sum(Box::new(a), Box::new(b))) == Some(
                Expression::Sum(Box::new(derivative(a)->0), Box::new(derivative(b)->0)),
            )
            &&& derivative(Expression::Difference(Box::new(a), Box::new(b))) == Some(
                Expression::Difference(Box::new(derivative(a)->0), Box::new(derivative(b)->0)),
            )
        },
{
}

/// A product, and a power whose base is not exactly the variable, have no
/// derivative under the supported rules.
pub proof fn lemma_unsupported_shapes(a: Expression, b: Expression, n: Literal)
    ensures
        derivative(Expression::Product(Box::new(a), Box::new(b))) is None,
        !(a is Variable) ==> derivative(Expression::Power(Box::new(a), n)) is None,
{
}

impl Expression {
    /// The derivative of this expression, built as a new tree; the power rule
    /// applies to the variable raised to a literal, and no other product or
    /// power can be differentiated.
    pub fn differentiate(&self) -> (r: Result<Expression, LimitError>)
        ensures
            match derivative(*self) {
                Some(d) => r == Ok::<Expression, LimitError>(d),
                None => r == Err::<Expression, LimitError>(LimitError::DifferentiationUnsupported),
            },
        decreases self,
    {
        match self {
            Expression::Constant(_) => Ok(Expression::Constant(Literal::zero())),
            Expression::Variable => Ok(Expression::Constant(Literal::one())),
            Expression::Sum(a, b) => {
                let da = a.differentiate()?;
                let db = b.differentiate()?;
                Ok(Expression::Sum(Box::new(da), Box::new(db)))
            },
            Expression::Difference(a, b) => {
                let da = a.differentiate()?;
                let db = b.differentiate()?;
                Ok(Expression::Difference(Box::new(da), Box::new(db)))
            },
            Expression::Product(_, _) => Err(LimitError::DifferentiationUnsupported),
            Expression::Power(base, n) => {
                if let Expression::Variable = **base {
                    Ok(
                        Expression::Product(
                            Box::new(Expression::Constant(*n)),
                            Box::new(Expression::Power(Box::new(Expression::Variable), n.lowered())),
                        ),
                    )
                } else {
                    Err(LimitError::DifferentiationUnsupported)
                }
            },
        }
    }
}

} // verus!
