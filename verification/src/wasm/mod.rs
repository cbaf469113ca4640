//! The WebAssembly binary format: sections, function types and the module
//! that holds them.
pub mod assemble;
pub mod encode;
pub mod leb128;
pub mod module;
pub mod section;
pub mod valtype;
