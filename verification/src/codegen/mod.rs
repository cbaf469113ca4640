//! Code generation: from the desugared source tree to the instruction tree
//! of a module.
pub mod error;
pub mod functions;
pub mod generator;
pub mod handover;
pub mod labels;
pub mod laws;
pub mod model;
pub mod statements;
