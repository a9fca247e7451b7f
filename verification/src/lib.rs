//! A single-pass rewrite of calls to the `next/dynamic` lazy-load helper,
//! over a small model of a JavaScript module's syntax tree.
//!
//! Every executable function carries a contract stated over the mathematical
//! views of the tree types in [`ast`].

pub mod ast;
pub mod paths;
pub mod capture;
pub mod fragments;
pub mod pass;
pub mod patcher;
pub mod laws;
