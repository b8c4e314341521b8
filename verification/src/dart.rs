//! The language itself: syntax tree, traversal, module graph.

pub mod ast;
pub mod identifiers;
pub mod loader;
pub mod op;
pub mod preorder;
pub mod visit;
pub mod walk;
