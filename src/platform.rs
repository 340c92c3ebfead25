//! The desktop platforms a native backend can target, and the small platform-level values that
//! the rest of the library shares.
use vstd::prelude::*;

verus! {

/// A desktop platform family. Backends differ in which native actions they provide and in which
/// concrete modifier stands for the "primary" shortcut modifier.
#[derive(Clone, Copy, Debug, PartialEq, Eq, Structural, Hash)]
pub enum Platform {
    Linux,
    MacOs,
    Windows,
}

/// An error reported by the operating system while creating or changing a native resource.
/// It names the operation that failed and the resource involved.
#[derive(Clone, Debug)]
pub struct OsError {
    pub operation: String,
    pub resource: String,
}

impl OsError {
    pub fn new(operation: &str, resource: &str) -> (r: OsError)
        ensures
            r.operation@ == operation@,
            r.resource@ == resource@,
    {
        OsError { operation: operation.to_owned(), resource: resource.to_owned() }
    }
}

/// Identifies the input device an event came from.
#[derive(Clone, Copy, Debug, PartialEq, Eq, Structural, Hash, PartialOrd, Ord)]
pub struct DeviceId(pub usize);

impl DeviceId {
    /// A placeholder device, for events that no real device produced.
    pub fn dummy() -> (r: DeviceId)
        ensures
            r.0 == 0,
    {
        DeviceId(0)
    }
}

} // verus!
