//! The tables that the passes share: names in nested scopes, and the
//! layout of classes.
pub mod bindings;
pub mod semantic;
pub mod wast_table;
