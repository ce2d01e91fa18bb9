use vstd::prelude::*;

use crate::pagination::PaginationError;

verus! {

/// Why a call to the registry failed.
#[derive(Debug, Clone, Copy, PartialEq, Eq, Structural)]
pub enum RegistryError {
    /// The request could not be made, its body was not JSON of the expected
    /// shape, or the registry answered a deletion with a non-2xx status.
    Transport,
    /// A successful answer lacked a field the resolution needs, or held it
    /// with the wrong type.
    MalformedManifest,
}

/// The failure that a page reports to its caller, who shows a safe default instead.
#[derive(Debug, Clone, Copy, PartialEq, Eq, Structural)]
pub enum Error {
    Unknown,
}

impl From<RegistryError> for Error {
    fn from(e: RegistryError) -> (r: Error)
        ensures
            r == Error::Unknown,
    {
        Error::Unknown
    }
}

impl vstd::std_specs::convert::FromSpecImpl<RegistryError> for Error {
    open spec fn obeys_from_spec() -> bool {
        true
    }

    open spec fn from_spec(e: RegistryError) -> Error {
        Error::Unknown
    }
}

impl From<PaginationError> for Error {
    fn from(e: PaginationError) -> (r: Error)
        ensures
            r == Error::Unknown,
    {
        Error::Unknown
    }
}

impl vstd::std_specs::convert::FromSpecImpl<PaginationError> for Error {
    open spec fn obeys_from_spec() -> bool {
        true
    }

    open spec fn from_spec(e: PaginationError) -> Error {
        Error::Unknown
    }
}

} // verus!
