//! Limits of one-variable rational expressions at a point, resolving the
//! indeterminate form 0/0 by L'Hôpital's rule.
//!
//! The library holds the symbolic part: the expression tree, its derivative,
//! and the decisions of the limit resolver. Numeric evaluation is left to the
//! caller, who reports to the resolver how each evaluated pair compares with
//! zero.

pub mod literal;
pub mod expression;
pub mod resolver;
