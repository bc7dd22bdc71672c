//! Triangle-fan tessellation of shapes and the decisions of a single-pass
//! frame renderer, with their contracts.
pub mod fan;
pub mod renderer;
