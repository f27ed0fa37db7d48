//! Source-location stamping for markup elements.
//!
//! Every markup element of a component file is described by a
//! [`node::TemplateNode`]: the file it was written in, the line and column span
//! of its tags and the declaration that lexically owns it. The pass in
//! [`visitor`] walks a syntax tree, gathers these descriptions and writes them,
//! encoded by [`compress`], onto the host elements of the tree.
pub mod compress;
pub mod config;
pub mod error;
pub mod json;
pub mod node;
pub mod pass;
pub mod scope;
pub mod span;
pub mod tag;
pub mod template;
pub mod tree;
pub mod visitor;
pub mod wire;

pub use crate::config::{Config, Options};
pub use crate::node::{TemplateNode, TemplateTag, TemplateTagPosition};
pub use crate::visitor::preprocess;
