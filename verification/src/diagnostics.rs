//! Liveness and version of the module.

use vstd::prelude::*;

verus! {

/// The release identifier of this module.
pub open spec fn version_text() -> Seq<char> {
    "0.1.0"@
}

/// A liveness probe: it answers `true` whenever it can be called at all,
/// and does no other work.
pub fn wasm_prover_health_check() -> (alive: bool)
    ensures
        alive,
{
    true
}

/// The release identifier of this module. It is the same for the life of
/// the process.
pub fn get_version() -> (version: String)
    ensures
        version@ == version_text(),
{
    "0.1.0".to_owned()
}

} // verus!
