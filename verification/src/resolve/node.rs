//! The two Node.js-compatible resolution policies.
//!
//! Both builders are deterministic, side-effect-free functions of the
//! root path handle alone: they touch no filesystem and produce the full
//! policy record that the generic resolver consumes.  The CommonJS policy
//! resolves under the `require` condition and tolerates extension-less
//! requests; the ECMAScript-module policy resolves under the `import`
//! condition and demands fully specified requests, mirroring strict ESM
//! resolution.

use vstd::prelude::*;

use crate::handles::FsPathHandle;
use crate::resolve::options::{
    conditions_view, node_conditions, ConditionValue, ResolutionConditions, ResolveInPackage,
    ResolveIntoPackage, ResolveModules, ResolveOptions,
};

verus! {

/// The canonical Node policy record for `root`, parameterized by the
/// condition that joins `node` (`require` or `import`) and by whether
/// requests must carry an explicit extension:
/// - probed extensions, in order: `.js`, `.json`, `.node`;
/// - module lookup: search upward for `node_modules` directories
///   starting at `root`;
/// - package entry resolution: the conditional-exports field first (with
///   unspecified conditions treated as unset), then the `main` field;
/// - self-references: the conditional-imports field under the same
///   condition set;
/// - default index base name: `index`.
pub open spec fn is_node_resolve_options(
    r: ResolveOptions,
    root: FsPathHandle,
    second_condition: Seq<char>,
    fully_specified: bool,
) -> bool {
    &&& r.extensions.deep_view() =~= seq![".js"@, ".json"@, ".node"@]
    &&& r.modules@.len() == 1
    &&& (r.modules@[0] matches ResolveModules::Nested(path, names) && path == root
        && names.deep_view() =~= seq!["node_modules"@])
    &&& r.into_package@.len() == 2
    &&& (r.into_package@[0] matches ResolveIntoPackage::ExportsField {
        conditions,
        unspecified_conditions,
    } && conditions_view(conditions) =~= node_conditions(second_condition)
        && unspecified_conditions == ConditionValue::Unset)
    &&& (r.into_package@[1] matches ResolveIntoPackage::MainField { field } && field@ == "main"@)
    &&& r.in_package@.len() == 1
    &&& (r.in_package@[0] matches ResolveInPackage::ImportsField {
        conditions,
        unspecified_conditions,
    } && conditions_view(conditions) =~= node_conditions(second_condition)
        && unspecified_conditions == ConditionValue::Unset)
    &&& r.default_files.deep_view() =~= seq!["index"@]
    &&& r.fully_specified == fully_specified
}

/// The condition list `[("node", set), (second, set)]`.
fn node_conditions_vec(second: &str) -> (c: ResolutionConditions)
    ensures
        conditions_view(c) =~= node_conditions(second@),
{
    let mut c: ResolutionConditions = Vec::new();
    c.push(("node".to_owned(), ConditionValue::Enabled));
    c.push((second.to_owned(), ConditionValue::Enabled));
    c
}

/// The probed extensions of both Node policies, in order.
fn node_extensions() -> (e: Vec<String>)
    ensures
        e.deep_view() =~= seq![".js"@, ".json"@, ".node"@],
{
    let mut e: Vec<String> = Vec::new();
    e.push(".js".to_owned());
    e.push(".json".to_owned());
    e.push(".node".to_owned());
    e
}

/// The shared shape of the two policies; only the second condition and
/// the extension requirement differ.
fn node_resolve_options(root: FsPathHandle, second: &str, fully_specified: bool) -> (r:
    ResolveOptions)
    ensures
        is_node_resolve_options(r, root, second@, fully_specified),
{
    let extensions = node_extensions();

    let mut names: Vec<String> = Vec::new();
    names.push("node_modules".to_owned());
    proof {
        assert(names.deep_view() =~= seq!["node_modules"@]);
    }
    let mut modules: Vec<ResolveModules> = Vec::new();
    modules.push(ResolveModules::Nested(root, names));

    let mut into_package: Vec<ResolveIntoPackage> = Vec::new();
    into_package.push(
        ResolveIntoPackage::ExportsField {
            conditions: node_conditions_vec(second),
            unspecified_conditions: ConditionValue::Unset,
        },
    );
    into_package.push(ResolveIntoPackage::MainField { field: "main".to_owned() });

    let mut in_package: Vec<ResolveInPackage> = Vec::new();
    in_package.push(
        ResolveInPackage::ImportsField {
            conditions: node_conditions_vec(second),
            unspecified_conditions: ConditionValue::Unset,
        },
    );

    let mut default_files: Vec<String> = Vec::new();
    default_files.push("index".to_owned());
    proof {
        assert(default_files.deep_view() =~= seq!["index"@]);
    }

    ResolveOptions { extensions, modules, into_package, in_package, default_files, fully_specified }
}

/// The resolution policy of Node's CommonJS module system: conditions
/// `node` and `require`, extension-less requests allowed.
pub fn node_cjs_resolve_options(root: FsPathHandle) -> (r: ResolveOptions)
    ensures
        is_node_resolve_options(r, root, "require"@, false),
{
    node_resolve_options(root, "require", false)
}

/// The resolution policy of Node's ECMAScript module system: conditions
/// `node` and `import`, requests must carry an explicit extension.
pub fn node_esm_resolve_options(root: FsPathHandle) -> (r: ResolveOptions)
    ensures
        is_node_resolve_options(r, root, "import"@, true),
{
    node_resolve_options(root, "import", true)
}

/// Both Node policies probe the same extensions, in this order:
/// `.js`, `.json`, `.node`.
pub proof fn lemma_node_policy_extensions(
    r: ResolveOptions,
    root: FsPathHandle,
    second: Seq<char>,
    fully_specified: bool,
)
    requires
        is_node_resolve_options(r, root, second, fully_specified),
    ensures
        r.extensions.deep_view() =~= seq![".js"@, ".json"@, ".node"@],
{
}

/// Both Node policies use `index` as the only default file base name,
/// and exports-field resolution precedes main-field resolution.
pub proof fn lemma_node_policy_field_precedence(
    r: ResolveOptions,
    root: FsPathHandle,
    second: Seq<char>,
    fully_specified: bool,
)
    requires
        is_node_resolve_options(r, root, second, fully_specified),
    ensures
        r.default_files.deep_view() =~= seq!["index"@],
        r.into_package@.len() == 2,
        r.into_package@[0] is ExportsField,
        r.into_package@[1] is MainField,
{
}

} // verus!
