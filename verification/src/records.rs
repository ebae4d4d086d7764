//! Plain descriptive records consumed by a host registry. They carry no
//! behavior: the host reads the strings and renders or indexes them.

use vstd::prelude::*;

verus! {

/// Identifies one capability to the host: its short name, its version, and
/// human-readable title and description.
pub struct CellSpec {
    pub name: &'static str,
    pub version: &'static str,
    pub title: &'static str,
    pub description: &'static str,
}

/// Identifies one operation of a capability to the host.
pub struct FuncSpec {
    pub name: &'static str,
    pub title: &'static str,
    pub description: &'static str,
}

/// The owned form of a descriptive record, for hosts that build records at
/// runtime rather than from static text.
pub struct Spec {
    pub name: String,
    pub version: String,
    pub title: String,
    pub description: String,
}

} // verus!
