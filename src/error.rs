//! Errors of the lookups.
use vstd::prelude::*;

verus! {

/// Why a lookup found nothing.
#[derive(Debug, PartialEq, Eq)]
pub enum LookupError {
    /// No registered partition type has this GUID text.
    Unknown(String),
    /// The name denotes no operating-system family: it is neither the name
    /// of a family nor that of a registered partition type.
    UnknownOperatingSystem(String),
}

} // verus!
