//! The operating-system families that partition types are classified by.
use vstd::prelude::*;

use crate::error::LookupError;
use crate::text::{folded, same_folded, same_text};

verus! {

/// Operating-system family of a partition type.
#[derive(Debug, PartialEq, Eq, Hash)]
pub enum OperatingSystem {
    /// No particular operating system
    NoOs,
    /// Android OS
    Android,
    /// Atari
    Atari,
    /// Ceph
    Ceph,
    /// ChromeOS
    Chrome,
    /// CoreOs
    CoreOs,
    /// A vendor-specific family, by name
    Custom(String),
    /// FreeBsd
    FreeBsd,
    /// FreeDesktop
    FreeDesktop,
    /// Haiku
    Haiku,
    /// Hp Unix
    HpUnix,
    /// Linux
    Linux,
    /// MidnightBsd
    MidnightBsd,
    /// MacOs
    MacOs,
    /// NetBsd
    NetBsd,
    /// Onie
    Onie,
    /// OpenBSD
    OpenBsd,
    /// Plan9
    Plan9,
    /// PowerPC
    PowerPc,
    /// Solaris
    Solaris,
    /// VmWare
    VmWare,
    /// Windows
    Windows,
    /// QNX
    QNX,
}

impl Clone for OperatingSystem {
    fn clone(&self) -> (r: Self)
        ensures
            r == *self,
    {
        match self {
            OperatingSystem::NoOs => OperatingSystem::NoOs,
            OperatingSystem::Android => OperatingSystem::Android,
            OperatingSystem::Atari => OperatingSystem::Atari,
            OperatingSystem::Ceph => OperatingSystem::Ceph,
            OperatingSystem::Chrome => OperatingSystem::Chrome,
            OperatingSystem::CoreOs => OperatingSystem::CoreOs,
            OperatingSystem::Custom(s) => OperatingSystem::Custom(s.clone()),
            OperatingSystem::FreeBsd => OperatingSystem::FreeBsd,
            OperatingSystem::FreeDesktop => OperatingSystem::FreeDesktop,
            OperatingSystem::Haiku => OperatingSystem::Haiku,
            OperatingSystem::HpUnix => OperatingSystem::HpUnix,
            OperatingSystem::Linux => OperatingSystem::Linux,
            OperatingSystem::MidnightBsd => OperatingSystem::MidnightBsd,
            OperatingSystem::MacOs => OperatingSystem::MacOs,
            OperatingSystem::NetBsd => OperatingSystem::NetBsd,
            OperatingSystem::Onie => OperatingSystem::Onie,
            OperatingSystem::OpenBsd => OperatingSystem::OpenBsd,
            OperatingSystem::Plan9 => OperatingSystem::Plan9,
            OperatingSystem::PowerPc => OperatingSystem::PowerPc,
            OperatingSystem::Solaris => OperatingSystem::Solaris,
            OperatingSystem::VmWare => OperatingSystem::VmWare,
            OperatingSystem::Windows => OperatingSystem::Windows,
            OperatingSystem::QNX => OperatingSystem::QNX,
        }
    }
}

/// The family that a name denotes, compared without regard to case.
pub open spec fn family_named(s: Seq<char>) -> Option<OperatingSystem> {
    let f = folded(s);
    if f == folded("unused"@) {
        Some(OperatingSystem::NoOs)
    } else if f == folded("android"@) {
        Some(OperatingSystem::Android)
    } else if f == folded("atari"@) {
        Some(OperatingSystem::Atari)
    } else if f == folded("Ceph"@) {
        Some(OperatingSystem::Ceph)
    } else if f == folded("Chrome"@) {
        Some(OperatingSystem::Chrome)
    } else if f == folded("FreeBsd"@) {
        Some(OperatingSystem::FreeBsd)
    } else if f == folded("FreeDesktop"@) {
        Some(OperatingSystem::FreeDesktop)
    } else if f == folded("Haiku"@) {
        Some(OperatingSystem::Haiku)
    } else if f == folded("HP-UX"@) {
        Some(OperatingSystem::HpUnix)
    } else if f == folded("Linux"@) {
        Some(OperatingSystem::Linux)
    } else if f == folded("MacOS"@) {
        Some(OperatingSystem::MacOs)
    } else if f == folded("MidnightBsd"@) {
        Some(OperatingSystem::MidnightBsd)
    } else if f == folded("Onie"@) {
        Some(OperatingSystem::Onie)
    } else if f == folded("PowerPc"@) {
        Some(OperatingSystem::PowerPc)
    } else if f == folded("Solaris Illumos"@) {
        Some(OperatingSystem::Solaris)
    } else {
        None
    }
}

impl OperatingSystem {
    /// Looks up an operating-system family by its name, ignoring case.
    pub fn from_name(s: &str) -> (r: Result<OperatingSystem, LookupError>)
        ensures
            match family_named(s@) {
                Some(os) => r == Ok::<OperatingSystem, LookupError>(os),
                None => r matches Err(LookupError::UnknownOperatingSystem(m)) && m@ == s@,
            },
    {
        if same_folded(s, "unused") {
            Ok(OperatingSystem::NoOs)
        } else if same_folded(s, "android") {
            Ok(OperatingSystem::Android)
        } else if same_folded(s, "atari") {
            Ok(OperatingSystem::Atari)
        } else if same_folded(s, "Ceph") {
            Ok(OperatingSystem::Ceph)
        } else if same_folded(s, "Chrome") {
            Ok(OperatingSystem::Chrome)
        } else if same_folded(s, "FreeBsd") {
            Ok(OperatingSystem::FreeBsd)
        } else if same_folded(s, "FreeDesktop") {
            Ok(OperatingSystem::FreeDesktop)
        } else if same_folded(s, "Haiku") {
            Ok(OperatingSystem::Haiku)
        } else if same_folded(s, "HP-UX") {
            Ok(OperatingSystem::HpUnix)
        } else if same_folded(s, "Linux") {
            Ok(OperatingSystem::Linux)
        } else if same_folded(s, "MacOS") {
            Ok(OperatingSystem::MacOs)
        } else if same_folded(s, "MidnightBsd") {
            Ok(OperatingSystem::MidnightBsd)
        } else if same_folded(s, "Onie") {
            Ok(OperatingSystem::Onie)
        } else if same_folded(s, "PowerPc") {
            Ok(OperatingSystem::PowerPc)
        } else if same_folded(s, "Solaris Illumos") {
            Ok(OperatingSystem::Solaris)
        } else {
            Err(LookupError::UnknownOperatingSystem(s.to_owned()))
        }
    }
}

/// Whether two families are the same: custom ones by the characters of their
/// names, the others by variant.
pub open spec fn same_family_spec(a: OperatingSystem, b: OperatingSystem) -> bool {
    match (a, b) {
        (OperatingSystem::Custom(x), OperatingSystem::Custom(y)) => x@ == y@,
        _ => a == b,
    }
}

/// Whether two families are the same.
pub(crate) fn same_family(a: &OperatingSystem, b: &OperatingSystem) -> (r: bool)
    ensures
        r == same_family_spec(*a, *b),
{
    match (a, b) {
        (OperatingSystem::Custom(x), OperatingSystem::Custom(y)) => same_text(x.as_str(), y.as_str()),
        (OperatingSystem::NoOs, OperatingSystem::NoOs) => true,
        (OperatingSystem::Android, OperatingSystem::Android) => true,
        (OperatingSystem::Atari, OperatingSystem::Atari) => true,
        (OperatingSystem::Ceph, OperatingSystem::Ceph) => true,
        (OperatingSystem::Chrome, OperatingSystem::Chrome) => true,
        (OperatingSystem::CoreOs, OperatingSystem::CoreOs) => true,
        (OperatingSystem::FreeBsd, OperatingSystem::FreeBsd) => true,
        (OperatingSystem::FreeDesktop, OperatingSystem::FreeDesktop) => true,
        (OperatingSystem::Haiku, OperatingSystem::Haiku) => true,
        (OperatingSystem::HpUnix, OperatingSystem::HpUnix) => true,
        (OperatingSystem::Linux, OperatingSystem::Linux) => true,
        (OperatingSystem::MidnightBsd, OperatingSystem::MidnightBsd) => true,
        (OperatingSystem::MacOs, OperatingSystem::MacOs) => true,
        (OperatingSystem::NetBsd, OperatingSystem::NetBsd) => true,
        (OperatingSystem::Onie, OperatingSystem::Onie) => true,
        (OperatingSystem::OpenBsd, OperatingSystem::OpenBsd) => true,
        (OperatingSystem::Plan9, OperatingSystem::Plan9) => true,
        (OperatingSystem::PowerPc, OperatingSystem::PowerPc) => true,
        (OperatingSystem::Solaris, OperatingSystem::Solaris) => true,
        (OperatingSystem::VmWare, OperatingSystem::VmWare) => true,
        (OperatingSystem::Windows, OperatingSystem::Windows) => true,
        (OperatingSystem::QNX, OperatingSystem::QNX) => true,
        _ => false,
    }
}

impl std::str::FromStr for OperatingSystem {
    type Err = LookupError;

    fn from_str(s: &str) -> Result<OperatingSystem, LookupError> {
        OperatingSystem::from_name(s)
    }
}

} // verus!
