//! Static extraction of inline messages from translator calls, and the
//! rewrite of those calls to stable message identifiers.
//!
//! The library works on plain descriptions of syntax nodes (see [`ast`]):
//! a host walks its own syntax tree, hands each node's description to the
//! functions here, and writes the rewritten description back.

pub mod ast;
pub mod bindings;
pub mod callsite;
pub mod files;
pub mod hook;
pub mod imports;
pub mod key;
pub mod laws;
pub mod literal;
pub mod message;
pub mod output;
pub mod scope;
pub mod tracker;
pub mod traversal;
pub mod visitor;
pub mod walk;
