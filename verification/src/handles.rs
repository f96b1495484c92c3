//! Opaque handles to values owned by collaborating engines.
//!
//! The module assets, module parts and filesystem paths that references
//! point at are created and stored by the surrounding build engine; this
//! core never looks inside them.  It only stores handles and compares them
//! for identity, so each handle is a plain numeric id: two handles denote
//! the same underlying value exactly when their ids are equal.

use vstd::prelude::*;

verus! {

/// Handle to an already-created module asset.
#[derive(Clone, Copy, Debug, PartialEq, Eq, Structural)]
pub struct ModuleHandle {
    pub id: u64,
}

/// Handle to a part of a module's exports, keyed by
/// `EcmaScriptModulesReferenceSubType::ImportPart`.
#[derive(Clone, Copy, Debug, PartialEq, Eq, Structural)]
pub struct ModulePartHandle {
    pub id: u64,
}

/// Handle to a filesystem path held by the resolution engine; the sole
/// input of the Node resolution-policy builders.
#[derive(Clone, Copy, Debug, PartialEq, Eq, Structural)]
pub struct FsPathHandle {
    pub id: u64,
}

} // verus!
