//! Configuration decisions.
//!
//! The engine is driven by a handful of optional environment-style values.
//! The surrounding process reads them; the decisions on what they mean are
//! made here (and in `text`: the mode and debug switches).

use vstd::prelude::*;

verus! {

/// The backing path of the shared memory region: the explicit path when
/// set, else the legacy name; neither disables the engine.
pub fn choose_backing_path(path: Option<String>, name: Option<String>) -> (r: Option<String>)
    ensures
        path is Some ==> r == path,
        path is None ==> r == name,
{
    match path {
        Some(p) => Some(p),
        None => name,
    }
}

} // verus!
