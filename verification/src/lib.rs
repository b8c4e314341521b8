//! Front end for a class-based scripting language in the style of Dart:
//! the syntax tree, a visitor framework over it, and the cache behind the
//! module graph.

pub mod dart;
pub mod node;
pub mod source;
