//! The resolution-policy record consumed by the generic resolver.
//!
//! The generic resolution engine owns this configuration: it walks
//! candidate paths, parses package manifests and pattern-matches
//! `exports`/`imports` fields.  This core only builds the record.  The
//! fields here are the ones the Node policy builders set; every other
//! knob of the engine keeps its engine-defined default.

use vstd::prelude::*;

use crate::handles::FsPathHandle;

verus! {

/// Whether a named resolution condition is considered set.
#[derive(Clone, Copy, Debug, PartialEq, Eq, Structural)]
pub enum ConditionValue {
    /// The condition is set (enabled) in the condition set.
    Enabled,
    /// The condition is unset.
    Unset,
}

/// An ordered list of named resolution conditions, as consulted when a
/// package's conditional `exports`/`imports` fields are matched.
pub type ResolutionConditions = Vec<(String, ConditionValue)>;

/// A module-lookup strategy.
#[derive(Clone, Debug, PartialEq, Eq)]
pub enum ResolveModules {
    /// Search upward for directories carrying one of the given names
    /// (e.g. `node_modules`), starting at the given root path.
    Nested(FsPathHandle, Vec<String>),
}

/// A strategy for resolving a request into a package directory.
#[derive(Clone, Debug, PartialEq, Eq)]
pub enum ResolveIntoPackage {
    /// Resolve through the package's conditional-exports field under the
    /// given condition set; conditions the set does not name are treated
    /// as `unspecified_conditions`.
    ExportsField { conditions: ResolutionConditions, unspecified_conditions: ConditionValue },
    /// Resolve through the package's main-like field of the given name.
    MainField { field: String },
}

/// A strategy for resolving a request inside a package (self-references).
#[derive(Clone, Debug, PartialEq, Eq)]
pub enum ResolveInPackage {
    /// Resolve through the package's conditional-imports field under the
    /// given condition set; conditions the set does not name are treated
    /// as `unspecified_conditions`.
    ImportsField { conditions: ResolutionConditions, unspecified_conditions: ConditionValue },
}

/// The resolution-policy record: extension order, module lookup, package
/// field precedence, default index names, and whether requests must carry
/// an explicit extension.
#[derive(Clone, Debug, PartialEq, Eq)]
pub struct ResolveOptions {
    /// Suffixes probed in order when a request has no explicit extension.
    pub extensions: Vec<String>,
    /// Module-lookup strategies in order.
    pub modules: Vec<ResolveModules>,
    /// Package-entry resolution strategies, tried in order.
    pub into_package: Vec<ResolveIntoPackage>,
    /// In-package (self-reference) resolution strategies, tried in order.
    pub in_package: Vec<ResolveInPackage>,
    /// Index base names tried when a directory is requested.
    pub default_files: Vec<String>,
    /// Whether request specifiers must carry an explicit extension.
    pub fully_specified: bool,
}

/// View of a condition list: each name's characters paired with its
/// value, in order.
pub open spec fn conditions_view(c: ResolutionConditions) -> Seq<(Seq<char>, ConditionValue)> {
    Seq::new(c@.len(), |i: int| (c@[i].0@, c@[i].1))
}

/// The Node.js condition set `{ "node": set, <second>: set }` (both enabled).
pub open spec fn node_conditions(second: Seq<char>) -> Seq<(Seq<char>, ConditionValue)> {
    seq![("node"@, ConditionValue::Enabled), (second, ConditionValue::Enabled)]
}

} // verus!
