//! A small compiler core: desugaring of a typed source tree, generation of a
//! structured WebAssembly instruction tree from it, and encoding of modules in
//! the WebAssembly binary format.
pub mod ast;
pub mod codegen;
pub mod ident;
pub mod lowering;
pub mod span;
pub mod symbols;
pub mod text;
pub mod types;
pub mod wasm;
pub mod wast;
