//! Desugaring: classes, `this`, member access, `new` and operators on
//! objects are rewritten into functions, names and calls.
pub mod builders;
pub mod declarations;
pub mod error;
pub mod expressions;
pub mod laws;
pub mod model;
pub mod statements;
