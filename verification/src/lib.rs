//! Reference resolution and navigation information for a source editor.
//!
//! Given what lies under a cursor in a source file, the library answers two
//! questions: where is the thing that the cursor refers to defined, and what
//! should an editor show when the cursor hovers over it.
//!
//! What the syntax tree holds at the cursor is handed in to [`locator`],
//! which finds the nodes under the cursor ([`syntax`] holds what is read off
//! them). What the semantic model and the symbol index know of those nodes
//! is handed in as plain values too ([`semantics`]). The answers are built
//! by [`goto_definition`] and [`hover`]; a place to go to is a
//! [`navigation_target`], and [`display`] puts a declaration into words.

pub mod display;
pub mod goto_definition;
pub mod hover;
pub mod locator;
pub mod navigation_target;
pub mod semantics;
pub mod syntax;
pub mod text;
