//! Host interface kinds and the opaque scripting-machine types the host owns.

use vstd::prelude::*;

verus! {

/// A value held by the host's scripting virtual machine. The host owns its
/// layout; the plugin only passes it through.
pub struct VMValue;

/// The execution state of the host's scripting virtual machine.
pub struct VMState;

/// A class descriptor inside the host's scripting virtual machine.
pub struct VMClassInfo;

/// An identifier inside the host's scripting virtual machine.
pub struct VMIdentifier;

/// A reference into the host's interned-string cache.
pub struct StringCacheRef;

/// The interface kinds a plugin can request from the host at load time. The
/// host identifies each kind by a small numeric code, given by `code`.
#[derive(Clone, Copy, PartialEq, Eq, Structural, Debug)]
pub enum KInterface {
    Invalid,
    Scaleform,
    Papyrus,
    Serialization,
    Task,
    Messaging,
    Object,
    Max,
}

impl KInterface {
    /// The numeric code the host uses for this interface kind.
    pub open spec fn spec_code(self) -> u32 {
        match self {
            KInterface::Invalid => 0,
            KInterface::Scaleform => 1,
            KInterface::Papyrus => 2,
            KInterface::Serialization => 3,
            KInterface::Task => 4,
            KInterface::Messaging => 5,
            KInterface::Object => 6,
            KInterface::Max => 7,
        }
    }

    /// The numeric code to hand the host when requesting this interface.
    pub fn code(&self) -> (c: u32)
        ensures
            c == self.spec_code(),
    {
        match self {
            KInterface::Invalid => 0,
            KInterface::Scaleform => 1,
            KInterface::Papyrus => 2,
            KInterface::Serialization => 3,
            KInterface::Task => 4,
            KInterface::Messaging => 5,
            KInterface::Object => 6,
            KInterface::Max => 7,
        }
    }
}

} // verus!
