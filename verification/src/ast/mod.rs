//! The source tree: expressions, statements, functions and classes, each
//! with the mathematical view that the contracts speak of.
pub mod declaration;
pub mod expression;
pub mod statement;
