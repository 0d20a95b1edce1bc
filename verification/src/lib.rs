//! Verified core of a desktop LaTeX editor's backend: the rules that decide
//! which files a project shows, which paths a request may touch, what a
//! compilation run returns, and what the stored metadata defaults to.
//!
//! Everything here works on plain values. The surrounding program performs
//! the file-system and engine calls and hands their outcomes in.

pub mod clock;
pub mod compile;
pub mod json;
pub mod meta;
pub mod names;
pub mod project;
pub mod report;
pub mod sandbox;
pub mod settings;
pub mod sibling_order;
pub mod store;
pub mod tree;
pub mod tree_laws;
