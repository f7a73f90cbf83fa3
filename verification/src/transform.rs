//! The transform as a whole: configuration first, then the walk.

use vstd::prelude::*;
use crate::ast::Program;
use crate::config::Config;
use crate::error::TransformError;
use crate::rewrite::rewrite_program;
use crate::visitor::TransformVisitor;

verus! {

/// Runs the transform on `program`.
///
/// `config` is what deserializing the host's configuration text came to. Where
/// that failed the transform is refused and no tree comes back; otherwise the
/// whole program is walked.
pub fn process_transform(program: Program, config: Result<Config, serde_json::Error>) -> (out:
    Result<Program, TransformError>)
    ensures
        match config {
            Ok(_) => out matches Ok(rewritten) && rewritten@ == rewrite_program(program@),
            Err(_) => out == Err::<Program, TransformError>(TransformError::InvalidConfig),
        },
{
    let mut visitor = TransformVisitor::try_new(config)?;
    let mut program = program;
    visitor.visit_mut_program(&mut program);
    Ok(program)
}

} // verus!
