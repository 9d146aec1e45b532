//! Schema of the plugin descriptor file.
//!
//! Each plugin directory carries a small declarative descriptor document;
//! this system only consumes its `name` and `version` fields. Parsing the
//! document itself is the job of the surrounding application, which hands
//! the two fields over as plain strings.

use vstd::prelude::*;

verus! {

/// The descriptor of one plugin: its name and version.
pub struct PluginMeta {
    pub name: String,
    pub version: String,
}

} // verus!
