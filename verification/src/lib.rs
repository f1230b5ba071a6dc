//! Verified core of a native plugin for a game engine's scripting extension
//! host. The host discovers the plugin by two entry points: a query call that
//! declares metadata and checks compatibility, and a load call that registers
//! against host interface tables. The foreign-function boundary itself cannot
//! be verified; this library holds the plugin's own logic — packing runtime
//! version numbers, naming host interface kinds, and deciding whether a host
//! is compatible — with exact contracts, so the unverified shim around it is
//! pass-through only.

pub mod interface;
pub mod query;
pub mod version;
