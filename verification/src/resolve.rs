//! Construction of the resolution-policy configuration handed to the
//! generic file-system resolution engine.

pub mod node;
pub mod options;
