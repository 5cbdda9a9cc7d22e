//! Scaffolding generator core: turns a template directory tree into an
//! output tree by rendering each entry's relative path, and each file's
//! contents, as a handlebars template against an OpenAPI specification
//! document.
//!
//! The library holds the verified logic: relativizing and joining paths
//! (`paths`), the per-entry decision of what the output tree owes
//! (`generator`), the engine adapter with its `upper` and `lower` helpers
//! (`engine`), and the error values whose message chains the caller
//! prints (`errors`). The binary around it walks the template directory,
//! reads and writes files, and performs each returned action in traversal
//! order, stopping at the first error.

use vstd::prelude::*;

pub mod engine;
pub mod errors;
pub mod generator;
pub mod paths;

verus! {

/// The output-root argument defaults to the current working directory,
/// written as the relative path `"."`, when the caller gives none.
pub fn effective_target(target: Option<&str>) -> (r: String)
    ensures
        target matches Some(t) ==> r@ == t@,
        target is None ==> r@ == "."@,
{
    match target {
        Some(t) => t.to_owned(),
        None => ".".to_owned(),
    }
}

} // verus!
