//! A registry of GPT partition-type GUIDs and the operating systems they
//! belong to, with lookups by GUID and by name.
use vstd::prelude::*;

pub mod error;
pub mod guid;
pub mod os;
pub mod registry;
pub mod text;

pub use error::LookupError;
pub use os::OperatingSystem;
pub use registry::{Type, REGISTRY, REGISTRY_LEN};

verus! {

} // verus!
