//! Turns an HTML-like markup document into a typed node tree, and maps each
//! node to a visual element by interpreting its utility-class tokens as
//! style mutations.
//!
//! The pipeline is: document text → structural events ([`reader`]) → node
//! tree ([`tree`]) → visual element tree ([`render`]), with every token of
//! a `class` attribute resolved by the rule engine in [`style`].

pub mod chars;
pub mod color;
pub mod events;
pub mod length;
pub mod reader;
pub mod render;
pub mod style;
pub mod tree;
