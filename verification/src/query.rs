//! Plugin metadata and the host-compatibility decision made at query time.

use crate::version::exe_version;
use vstd::prelude::*;

verus! {

/// Version of the metadata structure layout the plugin fills for the host.
pub const PLUGIN_INFO_VERSION: u32 = 1;

/// This plugin's own version number.
pub const PLUGIN_VERSION: u32 = 1;

/// The one runtime version this plugin supports: 1.5.97.0, packed the way
/// the host encodes versions (see `crate::version::exe_version`).
const RUNTIME_VERSION_1_5_97: u32 = 0x01050610;

/// The metadata a plugin declares to the host at query time, as plain values.
/// The unverified shim copies these fields into the host's own structure.
pub struct PluginDescriptor {
    pub info_version: u32,
    pub name: String,
    pub version: u32,
}

/// Builds this plugin's metadata: structure version 1, plugin version 1, and
/// the plugin's display name.
pub fn plugin_descriptor() -> (d: PluginDescriptor)
    ensures
        d.info_version == PLUGIN_INFO_VERSION,
        d.version == PLUGIN_VERSION,
        d.name@ == "My Rust SKSE Plugin"@,
{
    PluginDescriptor {
        info_version: PLUGIN_INFO_VERSION,
        name: String::from_str("My Rust SKSE Plugin"),
        version: PLUGIN_VERSION,
    }
}

/// The outcome of the host's compatibility query, in the order the checks
/// are made: loading inside the editor is refused first, then any runtime
/// other than the one supported version.
#[derive(Clone, Copy, PartialEq, Eq, Structural, Debug)]
pub enum QueryVerdict {
    Compatible,
    Editor,
    UnsupportedRuntime,
}

impl QueryVerdict {
    /// Whether the plugin reports itself compatible, the boolean the query
    /// entry point returns to the host.
    pub fn accepted(&self) -> (b: bool)
        ensures
            b <==> *self == QueryVerdict::Compatible,
    {
        match self {
            QueryVerdict::Compatible => true,
            QueryVerdict::Editor => false,
            QueryVerdict::UnsupportedRuntime => false,
        }
    }
}

/// Decides compatibility with the host from the two integers the host hands
/// over: its editor flag and its packed runtime version. The plugin is
/// compatible exactly when it is not running inside the editor and the
/// runtime is version 1.5.97.0.
pub fn evaluate_query(is_editor: u32, runtime_version: u32) -> (v: QueryVerdict)
    ensures
        (v == QueryVerdict::Editor) <==> (is_editor != 0),
        (v == QueryVerdict::UnsupportedRuntime) <==> (is_editor == 0 && runtime_version
            != exe_version(1, 5, 97, 0)),
        (v == QueryVerdict::Compatible) <==> (is_editor == 0 && runtime_version == exe_version(
            1,
            5,
            97,
            0,
        )),
{
    proof {
        assert(exe_version(1, 5, 97, 0) == 0x01050610u32) by (bit_vector);
    }
    if is_editor != 0 {
        QueryVerdict::Editor
    } else if runtime_version != RUNTIME_VERSION_1_5_97 {
        QueryVerdict::UnsupportedRuntime
    } else {
        QueryVerdict::Compatible
    }
}

} // verus!
