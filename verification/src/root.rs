//! The fixed symbolic namespaces of the configuration store, and the
//! synchronous resolution of a root name string to one of them.

use vstd::prelude::*;
use vstd::string::StringExecFns;

verus! {

/// One of the five well-known top-level namespaces of the store.
#[derive(Clone, Copy, Debug, PartialEq, Eq, Structural)]
pub enum StoreRoot {
    ClassesRoot,
    CurrentConfig,
    CurrentUser,
    LocalMachine,
    Users,
}

/// The permission requested when resolving a path within a root.
#[derive(Clone, Copy, Debug, PartialEq, Eq, Structural)]
pub enum AccessMode {
    Read,
    Write,
}

/// The root denoted by a name string, if the name is one of the five
/// well-known ones.
pub open spec fn spec_root_of_name(name: Seq<char>) -> Option<StoreRoot> {
    if name == "HKEY_CLASSES_ROOT"@ {
        Some(StoreRoot::ClassesRoot)
    } else if name == "HKEY_CURRENT_CONFIG"@ {
        Some(StoreRoot::CurrentConfig)
    } else if name == "HKEY_CURRENT_USER"@ {
        Some(StoreRoot::CurrentUser)
    } else if name == "HKEY_LOCAL_MACHINE"@ {
        Some(StoreRoot::LocalMachine)
    } else if name == "HKEY_USERS"@ {
        Some(StoreRoot::Users)
    } else {
        None
    }
}

/// Resolves a symbolic root name.  Any string other than the five
/// enumerated names yields `None`; the caller treats that as a terminal
/// input error, so such a request never reaches the worker.
pub fn root_of_name(name: &str) -> (r: Option<StoreRoot>)
    ensures
        r == spec_root_of_name(name@),
{
    let s = String::from_str(name);
    if s == String::from_str("HKEY_CLASSES_ROOT") {
        Some(StoreRoot::ClassesRoot)
    } else if s == String::from_str("HKEY_CURRENT_CONFIG") {
        Some(StoreRoot::CurrentConfig)
    } else if s == String::from_str("HKEY_CURRENT_USER") {
        Some(StoreRoot::CurrentUser)
    } else if s == String::from_str("HKEY_LOCAL_MACHINE") {
        Some(StoreRoot::LocalMachine)
    } else if s == String::from_str("HKEY_USERS") {
        Some(StoreRoot::Users)
    } else {
        None
    }
}

} // verus!
