//! Reference classification and resolution-policy core of a module bundler.
//!
//! For every import/require/`@import` discovered while building a module
//! graph, this crate classifies *why* the reference exists (its
//! [`reference_type::ReferenceType`]) so that rule matching can branch on the
//! semantic origin of a request, and, for Node.js-compatible module systems,
//! produces the canonical resolution-policy configuration handed to the
//! generic file-system resolution engine (see [`resolve::node`]).
//!
//! Every operation here is pure: construction, subsumption matching,
//! import-context accumulation and policy building never perform I/O and
//! never mutate shared state, so equal inputs always give equal outputs.

pub mod handles;
pub mod inner_assets;
pub mod reference_type;
pub mod resolve;
