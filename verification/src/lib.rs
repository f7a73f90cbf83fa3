//! Rewrites `t("<Chinese text>")` calls in a program tree so that the literal
//! becomes its translation key.

pub mod ast;
pub mod config;
pub mod error;
pub mod laws;
pub mod messages;
pub mod rewrite;
pub mod text;
pub mod transform;
pub mod visitor;

pub use crate::config::Config;
pub use crate::error::TransformError;
pub use crate::transform::process_transform;
pub use crate::visitor::TransformVisitor;
