//! Error kinds shared by the resource model, the controller, the reaper and
//! the router.

use vstd::prelude::*;

verus! {

/// Every failure the library reports.
///
/// `BackingStoreFailure` carries a description of the underlying store error;
/// it is recovered by a fixed-interval retry. `MissingField` names the absent
/// field and marks a schema defect. `SerializationFailure` marks an object
/// that could not be encoded for the store. `ProbeFailure` is a status probe
/// that was unreachable or malformed; the reaper skips the entry for the
/// pass. `ProvisioningFailure` is surfaced to the routing caller after the
/// registry reservation has been rolled back.
#[derive(Debug)]
pub enum Error {
    BackingStoreFailure(String),
    MissingField(&'static str),
    SerializationFailure,
    ProbeFailure,
    ProvisioningFailure,
}

impl Error {
    /// A short, stable name for the kind, for logs and tests.
    pub fn kind_name(&self) -> (r: &'static str)
        ensures
            self matches Error::BackingStoreFailure(_) ==> r@ == "BackingStoreFailure"@,
            self matches Error::MissingField(_) ==> r@ == "MissingField"@,
            self matches Error::SerializationFailure ==> r@ == "SerializationFailure"@,
            self matches Error::ProbeFailure ==> r@ == "ProbeFailure"@,
            self matches Error::ProvisioningFailure ==> r@ == "ProvisioningFailure"@,
    {
        match self {
            Error::BackingStoreFailure(_) => "BackingStoreFailure",
            Error::MissingField(_) => "MissingField",
            Error::SerializationFailure => "SerializationFailure",
            Error::ProbeFailure => "ProbeFailure",
            Error::ProvisioningFailure => "ProvisioningFailure",
        }
    }
}

} // verus!
