//! The partition-type registry and its lookups.
use vstd::prelude::*;

use crate::error::LookupError;
use crate::guid::{guid_text, nibble, upper_hyphenated};
use crate::os::{family_named, same_family, same_family_spec, OperatingSystem};
use crate::text::{folded, same_folded, same_text};
use vstd::arithmetic::power::lemma_pow_positive;

verus! {

/// A GPT partition type: its type-GUID and the operating-system family
/// that the GUID belongs to.
#[derive(Debug, PartialEq, Eq)]
pub struct Type {
    /// Type-GUID for a GPT partition, in canonical upper-case text.
    pub guid: &'static str,
    /// Well-known operating-system family for this type-GUID.
    pub os: OperatingSystem,
}

impl Clone for Type {
    fn clone(&self) -> (r: Self)
        ensures
            r == *self,
    {
        Type { guid: self.guid, os: self.os.clone() }
    }
}

impl Default for Type {
    /// The placeholder for a partition that has not been classified yet: the
    /// all-zero GUID, of no particular operating system.
    fn default() -> (r: Type)
        ensures
            r.guid@ == guid_text(0),
            r.os == OperatingSystem::NoOs,
    {
        let r = Type { guid: "00000000-0000-0000-0000-000000000000", os: OperatingSystem::NoOs };
        proof {
            reveal_strlit("00000000-0000-0000-0000-000000000000");
            assert forall|k: int| 0 <= k < 32 implies nibble(0, k) == 0 by {
                lemma_pow_positive(16, (31 - k) as nat);
            }
            assert(r.guid@ =~= guid_text(0));
        }
        r
    }
}

/// Number of entries in [`REGISTRY`].
pub const REGISTRY_LEN: usize = 194;

/// Every known partition type, in declaration order: its name, its
/// type-GUID and its operating-system family. Some GUIDs occur more than
/// once; a lookup by GUID then yields the first of them.
pub const REGISTRY: [(&'static str, &'static str, OperatingSystem); REGISTRY_LEN] = [
    // unused
    ("UNUSED", "00000000-0000-0000-0000-000000000000", OperatingSystem::NoOs),
    // MBR Partition Scheme
    ("MBR", "024DEE41-33E7-11D3-9D69-0008C781F39F", OperatingSystem::NoOs),
    // EFI System Partition
    ("EFI", "C12A7328-F81F-11D2-BA4B-00A0C93EC93B", OperatingSystem::NoOs),
    // BIOS Boot Partition
    ("BIOS", "21686148-6449-6E6F-744E-656564454649", OperatingSystem::NoOs),
    // Intel Fast Flash (iFFS) Partition
    ("FLASH", "D3BFE2DE-3DAF-11DF-BA40-E3A556D89593", OperatingSystem::NoOs),
    // Sony Boot Partition
    ("SONY_BOOT", "F4019732-066E-4E12-8273-346C5641494F", OperatingSystem::NoOs),
    // Lenovo Boot Partition
    ("LENOVO_BOOT", "BFBFAFE7-A34F-448A-9A5B-6213EB736C22", OperatingSystem::NoOs),
    // Microsoft Reserved Partition
    ("MICROSOFT_RESERVED", "E3C9E316-0B5C-4DB8-817D-F92DF00215AE", OperatingSystem::Windows),
    // Basic Data Partition
    ("BASIC", "EBD0A0A2-B9E5-4433-87C0-68B6B72699C7", OperatingSystem::Windows),
    // Logical Disk Manager Metadata Partition
    ("WINDOWS_METADATA", "5808C8AA-7E8F-42E0-85D2-E1E90434CFB3", OperatingSystem::Windows),
    // Logical Disk Manager Data Partition
    ("WINDOWS_DATA", "AF9B60A0-1431-4F62-BC68-3311714A69AD", OperatingSystem::Windows),
    // Windows Recovery Environment
    ("WINDOWS_RECOVERY", "DE94BBA4-06D1-4D40-A16A-BFD50179D6AC", OperatingSystem::Windows),
    // IBM General Parallel File System Partition
    ("WINDOWS_PARALLEL", "37AFFC90-EF7D-4E96-91C3-2D7AE055B174", OperatingSystem::Windows),
    // Storage Spaces Partition
    ("WINDOWS_STORAGESPACES", "E75CAF8F-F680-4CEE-AFA3-B001E56EFC2D", OperatingSystem::Windows),
    // HP Unix Data Partition
    ("HPUNIX_DATA", "75894C1E-3AEB-11D3-B7C1-7B03A0000000", OperatingSystem::HpUnix),
    // HP Unix Service Partition
    ("HPUNIX_SERVICE", "E2A1E728-32E3-11D6-A682-7B03A0000000", OperatingSystem::HpUnix),
    // Linux Filesystem Data
    ("LINUX_FS", "0FC63DAF-8483-4772-8E79-3D69D8477DE4", OperatingSystem::Linux),
    // Linux RAID Partition
    ("LINUX_RAID", "A19D880F-05FC-4D3B-A006-743F0F84911E", OperatingSystem::Linux),
    // Linux Root Partition (x86)
    ("LINUX_ROOT_X86", "44479540-F297-41B2-9AF7-D131D5F0458A", OperatingSystem::Linux),
    // Linux Root Partition (x86-64)
    ("LINUX_ROOT_X64", "4F68BCE3-E8CD-4DB1-96E7-FBCAF984B709", OperatingSystem::Linux),
    // Linux Root Partition (32-bit ARM)
    ("LINUX_ROOT_ARM_32", "69DAD710-2CE4-4E3C-B16C-21A1D49ABED3", OperatingSystem::Linux),
    // Linux Root Partition (64-bit ARM/AArch64)
    ("LINUX_ROOT_ARM_64", "B921B045-1DF0-41C3-AF44-4C6F280D3FAE", OperatingSystem::Linux),
    // Linux Swap Partition
    ("LINUX_SWAP", "0657FD6D-A4AB-43C4-84E5-0933C84B4F4F", OperatingSystem::Linux),
    // Linux Logical Volume Manager Partition
    ("LINUX_LVM", "E6D6D379-F507-44C2-A23C-238F2A3DF928", OperatingSystem::Linux),
    // Linux /home Partition
    ("LINUX_HOME", "933AC7E1-2EB4-4F13-B844-0E14E2AEF915", OperatingSystem::Linux),
    // Linux /srv (Server Data) Partition
    ("LINUX_SRV", "3B8F8425-20E0-4F3B-907F-1A25A76F98E8", OperatingSystem::Linux),
    // Linux Plain dm-crypt Partition
    ("LINUX_DMCRYPT", "7FFEC5C9-2D00-49B7-8941-3EA10A5586B7", OperatingSystem::Linux),
    // Linux LUKS Partition
    ("LINUX_LUKS", "CA7D7CCB-63ED-4C53-861C-1742536059CC", OperatingSystem::Linux),
    // Linux Reserved
    ("LINUX_RESERVED", "8DA63339-0007-60C0-C436-083AC8230908", OperatingSystem::Linux),
    // FreeBSD Data Partition
    ("FREEBSD_DATA", "516E7CB4-6ECF-11D6-8FF8-00022D09712B", OperatingSystem::FreeBsd),
    // FreeBSD Boot Partition
    ("FREEBSD_BOOT", "83BD6B9D-7F41-11DC-BE0B-001560B84F0F", OperatingSystem::FreeBsd),
    // FreeBSD Swap Partition
    ("FREEBSD_SWAP", "516E7CB5-6ECF-11D6-8FF8-00022D09712B", OperatingSystem::FreeBsd),
    // FreeBSD Unix File System (UFS) Partition
    ("FREEBSD_UFS", "516E7CB6-6ECF-11D6-8FF8-00022D09712B", OperatingSystem::FreeBsd),
    // FreeBSD Vinium Volume Manager Partition
    ("FREEBSD_VINIUM", "516E7CB8-6ECF-11D6-8FF8-00022D09712B", OperatingSystem::FreeBsd),
    // FreeBSD ZFS Partition
    ("FREEBSD_ZFS", "516E7CBA-6ECF-11D6-8FF8-00022D09712B", OperatingSystem::FreeBsd),
    // Apple Hierarchical File System Plus (HFS+) Partition
    ("MACOS_HFSPLUS", "48465300-0000-11AA-AA11-00306543ECAC", OperatingSystem::MacOs),
    // Apple UFS
    ("MACOS_UFS", "55465300-0000-11AA-AA11-00306543ECAC", OperatingSystem::MacOs),
    // Apple ZFS
    ("MACOS_ZFS", "6A898CC3-1DD2-11B2-99A6-080020736631", OperatingSystem::MacOs),
    // Apple RAID Partition
    ("MACOS_RAID", "52414944-0000-11AA-AA11-00306543ECAC", OperatingSystem::MacOs),
    // APple RAID Partition, offline
    ("MACOS_RAID_OFFLINE", "52414944-5F4F-11AA-AA11-00306543ECAC", OperatingSystem::MacOs),
    // Apple Boot Partition (Recovery HD)
    ("MACOS_RECOVERY", "426F6F74-0000-11AA-AA11-00306543ECAC", OperatingSystem::MacOs),
    // Apple Label
    ("MACOS_LABEL", "4C616265-6C00-11AA-AA11-00306543ECAC", OperatingSystem::MacOs),
    // Apple TV Recovery Partition
    ("MACOS_TV_RECOVERY", "5265636F-7665-11AA-AA11-00306543ECAC", OperatingSystem::MacOs),
    // Apple Core Storage Partition
    ("MACOS_CORE", "53746F72-6167-11AA-AA11-00306543ECAC", OperatingSystem::MacOs),
    // Apple SoftRAID_Status
    ("MACOS_SOFTRAID_STATUS", "B6FA30DA-92D2-4A9A-96F1-871EC6486200", OperatingSystem::MacOs),
    // Apple SoftRAID_Scratch
    ("MACOS_SOFTRAID_SCRATCH", "2E313465-19B9-463F-8126-8A7993773801", OperatingSystem::MacOs),
    // Apple SoftRAID_Volume
    ("MACOS_SOFTRAID_VOLUME", "FA709C7E-65B1-4593-BFD5-E71D61DE9B02", OperatingSystem::MacOs),
    // Apple SOftRAID_Cache
    ("MACOS_SOFTRAID_CACHE", "BBBA6DF5-F46F-4A89-8F59-8765B2727503", OperatingSystem::MacOs),
    // Apple APFS
    ("MACOS_APFS", "7C3457EF-0000-11AA-AA11-00306543ECAC", OperatingSystem::MacOs),
    // Solaris Boot Partition
    ("SOLARIS_BOOT", "6A82CB45-1DD2-11B2-99A6-080020736631", OperatingSystem::Solaris),
    // Solaris Root Partition
    ("SOLARIS_ROOT", "6A85CF4D-1DD2-11B2-99A6-080020736631", OperatingSystem::Solaris),
    // Solaris Swap Partition
    ("SOLARIS_SWAP", "6A87C46F-1DD2-11B2-99A6-080020736631", OperatingSystem::Solaris),
    // Solaris Backup Partition
    ("SOLARIS_BACKUP", "6A8B642B-1DD2-11B2-99A6-080020736631", OperatingSystem::Solaris),
    // Solaris /var Partition
    ("SOLARIS_VAR", "6A8EF2E9-1DD2-11B2-99A6-080020736631", OperatingSystem::Solaris),
    // Solaris /home Partition
    ("SOLARIS_HOME", "6A90BA39-1DD2-11B2-99A6-080020736631", OperatingSystem::Solaris),
    // Solaris Alternate Sector
    ("SOLARIS_ALT", "6A9283A5-1DD2-11B2-99A6-080020736631", OperatingSystem::Solaris),
    // Solaris Reserved
    ("SOLARIS_RESERVED1", "6A945A3B-1DD2-11B2-99A6-080020736631", OperatingSystem::Solaris),
    // Solaris Reserved
    ("SOLARIS_RESERVED2", "6A9630D1-1DD2-11B2-99A6-080020736631", OperatingSystem::Solaris),
    // Solaris Reserved
    ("SOLARIS_RESERVED3", "6A980767-1DD2-11B2-99A6-080020736631", OperatingSystem::Solaris),
    // Solaris Reserved
    ("SOLARIS_RESERVED4", "6A96237F-1DD2-11B2-99A6-080020736631", OperatingSystem::Solaris),
    // Solaris Reserved
    ("SOLARIS_RESERVED5", "6A8D2AC7-1DD2-11B2-99A6-080020736631", OperatingSystem::Solaris),
    // NetBSD Swap Partition
    ("NETBSD_SWAP", "49F48D32-B10E-11DC-B99B-0019D1879648", OperatingSystem::NetBsd),
    // NetBSD FFS Partition
    ("NETBSD_FFS", "49F48D5A-B10E-11DC-B99B-0019D1879648", OperatingSystem::NetBsd),
    // NetBSD LFS Partition
    ("NETBSD_LFS", "49F48D82-B10E-11DC-B99B-0019D1879648", OperatingSystem::NetBsd),
    // NetBSD RAID Partition
    ("NETBSD_RAID", "49F48DAA-B10E-11DC-B99B-0019D1879648", OperatingSystem::NetBsd),
    // NetBSD Concatenated Partition
    ("NETBSD_CONCAT", "2DB519C4-B10F-11DC-B99B-0019D1879648", OperatingSystem::NetBsd),
    // NetBSD Encrypted Partition
    ("NETBSD_ENCRYPTED", "2DB519EC-B10F-11DC-B99B-0019D1879648", OperatingSystem::NetBsd),
    // ChromeOS Kernel
    ("CHROME_KERNEL", "FE3A2A5D-4F32-41A7-B725-ACCC3285A309", OperatingSystem::Chrome),
    // ChromeOS rootfs
    ("CHROME_ROOTFS", "3CB8E202-3B7E-47DD-8A3C-7FF2A13CFCEC", OperatingSystem::Chrome),
    // ChromeOS Future Use
    ("CHROME_FUTURE", "2E0A753D-9E48-43B0-8337-B15192CB1B5E", OperatingSystem::Chrome),
    // CoreOS /usr partition (coreos-usr)
    ("COREOS_USR", "5DFBF5F4-2848-4BAC-AA5E-0D9A20B745A6", OperatingSystem::CoreOs),
    // CoreOS Resizable rootfs (coreos-resize)
    ("COREOS_ROOTFS_RESIZE", "3884DD41-8582-4404-B9A8-E9B84F2DF50E", OperatingSystem::CoreOs),
    // CoreOS OEM customizations (coreos-reserved)
    ("COREOS_OEM", "C95DC21A-DF0E-4340-8D7B-26CBFA9A03E0", OperatingSystem::CoreOs),
    // CoreOS Root filesystem on RAID (coreos-root-raid)
    ("COREOS_ROOT_RAID", "BE9067B9-EA49-4F15-B4F6-F36F8C9E1818", OperatingSystem::CoreOs),
    // Haiku BFS
    ("HAIKU_BFS", "42465331-3BA3-10F1-802A-4861696B7521", OperatingSystem::Haiku),
    // MidnightBSD Boot Partition
    ("MIDNIGHT_BOOT", "85D5E45E-237C-11E1-B4B3-E89A8F7FC3A7", OperatingSystem::MidnightBsd),
    // MidnightBSD Data Partition
    ("MIDNIGHT_DATA", "85D5E45A-237C-11E1-B4B3-E89A8F7FC3A7", OperatingSystem::MidnightBsd),
    // MidnightBSD Swap Partition
    ("MIDNIGHT_SWAP", "85D5E45B-237C-11E1-B4B3-E89A8F7FC3A7", OperatingSystem::MidnightBsd),
    // MidnightBSD Unix File System (UFS) Partition
    ("MIDNIGHT_UFS", "0394EF8B-237E-11E1-B4B3-E89A8F7FC3A7", OperatingSystem::MidnightBsd),
    // MidnightBSD Vinium Volume Manager Partition
    ("MIDNIGHT_VINIUM", "85D5E45C-237C-11E1-B4B3-E89A8F7FC3A7", OperatingSystem::MidnightBsd),
    // MidnightBSD ZFS Partition
    ("MIDNIGHT_ZFS", "85D5E45D-237C-11E1-B4B3-E89A8F7FC3A7", OperatingSystem::MidnightBsd),
    // Ceph Journal
    ("CEPH_JOURNAL", "45B0969E-9B03-4F30-B4C6-B4B80CEFF106", OperatingSystem::Ceph),
    // Ceph dm-crypt Encryted Journal
    ("CEPH_CRYPT_JOURNAL", "45B0969E-9B03-4F30-B4C6-5EC00CEFF106", OperatingSystem::Ceph),
    // Ceph OSD
    ("CEPH_OSD", "4FBD7E29-9D25-41B8-AFD0-062C0CEFF05D", OperatingSystem::Ceph),
    // Ceph dm-crypt OSD
    ("CEPH_CRYPT", "4FBD7E29-9D25-41B8-AFD0-5EC00CEFF05D", OperatingSystem::Ceph),
    // Ceph Disk In Creation
    ("CEPH_DISK_CREATION", "89C57F98-2FE5-4DC0-89C1-F3AD0CEFF2BE", OperatingSystem::Ceph),
    // Ceph dm-crypt Disk In Creation
    ("CEPH_CRYPT_CREATION", "89C57F98-2FE5-4DC0-89C1-5EC00CEFF2BE", OperatingSystem::Ceph),
    // OpenBSD Data Partition
    ("OPENBSD_DATA", "824CC7A0-36A8-11E3-890A-952519AD3F61", OperatingSystem::OpenBsd),
    // QNX Power-safe (QNX6) File System
    ("QNX_FS", "CEF5A9AD-73BC-4601-89F3-CDEEEEE321A1", OperatingSystem::QNX),
    // Plan 9 Partition
    ("PLAN9_PART", "C91818F9-8025-47AF-89D2-F030D7000C2C", OperatingSystem::Plan9),
    // VMWare vmkcore (coredump partition)
    ("VMWARE_COREDUMP", "9D275380-40AD-11DB-BF97-000C2911D1B8", OperatingSystem::VmWare),
    // VMWare VMFS Filesystem Partition
    ("VMWARE_VMFS", "AA31E02A-400F-11DB-9590-000C2911D1B8", OperatingSystem::VmWare),
    // VMware Reserved
    ("VMWARE_RESERVED", "9198EFFC-31C0-11DB-8F78-000C2911D1B8", OperatingSystem::VmWare),
    // Android Bootloader
    ("ANDROID_BOOTLOADER", "2568845D-2332-4675-BC39-8FA5A4748D15", OperatingSystem::Android),
    // Android Bootloader2
    ("ANDROID_BOOTLOADER2", "114EAFFE-1552-4022-B26E-9B053604CF84", OperatingSystem::Android),
    // Android Boot
    ("ANDROID_BOOT", "49A4D17F-93A3-45C1-A0DE-F50B2EBE2599", OperatingSystem::Android),
    // Android Recovery
    ("ANDROID_RECOVERY", "4177C722-9E92-4AAB-8644-43502BFD5506", OperatingSystem::Android),
    // Android Misc
    ("ANDROID_MISC", "EF32A33B-A409-486C-9141-9FFB711F6266", OperatingSystem::Android),
    // Android Metadata
    ("ANDROID_META", "20AC26BE-20B7-11E3-84C5-6CFDB94711E9", OperatingSystem::Android),
    // Android System
    ("ANDROID_SYSTEM", "38F428E6-D326-425D-9140-6E0EA133647C", OperatingSystem::Android),
    // Android Cache
    ("ANDROID_CACHE", "A893EF21-E428-470A-9E55-0668FD91A2D9", OperatingSystem::Android),
    // Android Data
    ("ANDROID_DATA", "DC76DDA9-5AC1-491C-AF42-A82591580C0D", OperatingSystem::Android),
    // Android Persistent
    ("ANDROID_PERSISTENT", "EBC597D0-2053-4B15-8B64-E0AAC75F4DB1", OperatingSystem::Android),
    // Android Factory
    ("ANDROID_FACTORY", "8F68CC74-C5E5-48DA-BE91-A0C8C15E9C80", OperatingSystem::Android),
    // Android Fastboot/Tertiary
    ("ANDROID_FASTBOOT", "767941D0-2085-11E3-AD3B-6CFDB94711E9", OperatingSystem::Android),
    // Android OEM
    ("ANDROID_OEM", "AC6D7924-EB71-4DF8-B48D-E267B27148FF", OperatingSystem::Android),
    // ONIE Boot
    ("ONIE_BOOT", "7412F7D5-A156-4B13-81DC-867174929325", OperatingSystem::Onie),
    // ONIE Config
    ("ONIE_CONFIG", "D4E6E2CD-4469-46F3-B5CB-1BFF57AFC149", OperatingSystem::Onie),
    // PowerPC PReP Boot
    ("PPC_BOOT", "9E1A2D38-C612-4316-AA26-8B49521E5A8B", OperatingSystem::PowerPc),
    // FreeDesktop Shared Boot Loader Configuration
    ("FREEDESK_BOOT", "BC13C2FF-59E6-4262-A352-B275FD6F7172", OperatingSystem::FreeDesktop),
    // Atari Basic Data Partition (GEM, BGM, F32)
    ("ATARI_DATA", "734E5AFE-F61A-11E6-BC64-92361F002671", OperatingSystem::Atari),
    // Android ssd partition
    ("ANDROID_SSD_MISC", "2C86E742-745E-4FDD-BFD8-B6A7AC638772", OperatingSystem::Android),
    // Android persist partition
    ("ANDROID_PERSIST_MISC", "6C95E238-E343-4BA8-B489-8681ED22AD0B", OperatingSystem::Android),
    // Android misc partition
    ("ANDROID_MISC_MISC", "82ACC91F-357C-4A68-9C8F-689E1B1A23A1", OperatingSystem::Android),
    // Android param partition
    ("ANDROID_PARAM_MISC", "6D679BAB-23C7-466E-90AC-A39897C15640", OperatingSystem::Android),
    // Android keystore partition
    ("ANDROID_KEYSTORE_MISC", "DE7D4029-0F5B-41C8-AE7E-F6C023A02B33", OperatingSystem::Android),
    // Android frp partition
    ("ANDROID_FRP_MISC", "91B72D4D-71E0-4CBF-9B8E-236381CFF17A", OperatingSystem::Android),
    // Android op2 partition
    ("ANDROID_OP2_MISC", "5594C694-C871-4B5F-90B1-690A6F68E0F7", OperatingSystem::Android),
    // Android oem_dycnvbk partition
    ("ANDROID_OEM_DYCNVBK_MISC", "EBBEADAE-22C9-E33B-8F5D-0E81686A68CC", OperatingSystem::Android),
    // Android oem_stanvbk partition
    ("ANDROID_OEM_STANVBK_MISC", "0A288B1E-22C9-E33B-8F5D-0E81686A68CC", OperatingSystem::Android),
    // Android reserve1 partition
    ("ANDROID_RESERVE1_MISC", "004A6838-062A-44DF-8152-4F340C052255", OperatingSystem::Android),
    // Android config partition
    ("ANDROID_CONFIG", "04377754-DE64-4ADB-852F-F01E702DF13B", OperatingSystem::Android),
    // Android system_a partition
    ("ANDROID_SYSTEM_A_MISC", "97D7B011-54DA-4835-B3C4-917AD6E73D74", OperatingSystem::Android),
    // Android system_b partition
    ("ANDROID_SYSTEM_B_MISC", "77036CD4-03D5-42BB-8ED1-37E5A88BAA34", OperatingSystem::Android),
    // Android odm_b partition
    ("ANDROID_ODM_B", "E4B6514E-2577-495D-A484-1A0C460C6101", OperatingSystem::Android),
    // Android userdata partition
    ("ANDROID_USERDATA_MISC", "1B81E7E6-F50D-419B-A739-2AEEF8DA3335", OperatingSystem::Android),
    // Android xbl_a partition
    ("ANDROID_XBL_A_MISC", "DEA0BA2C-CBDD-4805-B4F9-F428251C3E98", OperatingSystem::Android),
    // Android xbl_config_a partition
    ("ANDROID_XBL_CONFIG_A_MISC", "5A325AE4-4276-B66D-0ADD-3494DF27706A", OperatingSystem::Android),
    // Android xbl_config_b partition
    ("ANDROID_XBL_CONFIG_B_MISC", "5A325AE4-4276-B66D-0ADD-3494DF27706A", OperatingSystem::Android),
    // Android ALIGN_TO_128K_1 partition
    ("ANDROID_ALIGN_TO_128K_1_MISC", "FDE1604B-D68B-4BD4-973D-962AE7A1ED88", OperatingSystem::Android),
    // Android cdt partition
    ("ANDROID_CDT_MISC", "A19F205F-CCD8-4B6D-8F1E-2D9BC24CFFB1", OperatingSystem::Android),
    // Android ddr partition
    ("ANDROID_DDR_MISC", "20A0C19C-286A-42FA-9CE7-F64C3226A794", OperatingSystem::Android),
    // Android aop_a partition
    ("ANDROID_AOP_A_MISC", "D69E90A5-4CAB-0071-F6DF-AB977F141A7F", OperatingSystem::Android),
    // Android tz_a partition
    ("ANDROID_TZ_A_MISC", "A053AA7F-40B8-4B1C-BA08-2F68AC71A4F4", OperatingSystem::Android),
    // Android hyp_a partition
    ("ANDROID_HYP_A_MISC", "E1A6A689-0C8D-4CC6-B4E8-55A4320FBD8A", OperatingSystem::Android),
    // Android modem_a partition
    ("ANDROID_MODEM_A_MISC", "EBD0A0A2-B9E5-4433-87C0-68B6B72699C7", OperatingSystem::Android),
    // Android bluetooth_a partition
    ("ANDROID_BLUETOOTH_A_MISC", "6CB747F1-C2EF-4092-ADD0-CA39F79C7AF4", OperatingSystem::Android),
    // Android mdtpsecapp_a partition
    ("ANDROID_MDTPSECAPP_A_MISC", "EA02D680-8712-4552-A3BE-E6087829C1E6", OperatingSystem::Android),
    // Android mdtp_a partition
    ("ANDROID_MDTP_A_MISC", "3878408A-E263-4B67-B878-6340B35B11E3", OperatingSystem::Android),
    // Android abl_a partition
    ("ANDROID_ABL_A_MISC", "BD6928A1-4CE0-A038-4F3A-1495E3EDDFFB", OperatingSystem::Android),
    // Android dsp_a partition
    ("ANDROID_DSP_A_MISC", "7EFE5010-2A1A-4A1A-B8BC-990257813512", OperatingSystem::Android),
    // Android keymaster_a partition
    ("ANDROID_KEYMASTER_A_MISC", "A11D2A7C-D82A-4C2F-8A01-1805240E6626", OperatingSystem::Android),
    // Android boot_a partition
    ("ANDROID_BOOT_A_MISC", "20117F86-E985-4357-B9EE-374BC1D8487D", OperatingSystem::Android),
    // Android cmnlib_a partition
    ("ANDROID_CMNLIB_A_MISC", "73471795-AB54-43F9-A847-4F72EA5CBEF5", OperatingSystem::Android),
    // Android cmnlib64_a partition
    ("ANDROID_CMNLIB64_A_MISC", "8EA64893-1267-4A1B-947C-7C362ACAAD2C", OperatingSystem::Android),
    // Android devcfg_a partition
    ("ANDROID_DEVCFG_A_MISC", "F65D4B16-343D-4E25-AAFC-BE99B6556A6D", OperatingSystem::Android),
    // Android qupfw_a partition
    ("ANDROID_QUPFW_A_MISC", "21D1219F-2ED1-4AB4-930A-41A16AE75F7F", OperatingSystem::Android),
    // Android vbmeta_a partition
    ("ANDROID_VBMETA_A", "4B7A15D6-322C-42AC-8110-88B7DA0C5D77", OperatingSystem::Android),
    // Android dtbo_a partition
    ("ANDROID_DTBO_A_MISC", "24D0D418-D31D-4D8D-AC2C-4D4305188450", OperatingSystem::Android),
    // Android storsec_a partition
    ("ANDROID_STORSEC_A_MISC", "02DB45FE-AD1B-4CB6-AECC-0042C637DEFA", OperatingSystem::Android),
    // Android LOGO_a partition
    ("ANDROID_LOGO_A_MISC", "9AD51E4D-3088-43EA-8EC7-991AD619F88E", OperatingSystem::Android),
    // Android fw_4j1ed_a partition
    ("ANDROID_FW_4J1ED_A_MISC", "9846625A-FE09-425B-A08F-2BF5F1F8D838", OperatingSystem::Android),
    // Android fw_4u1ea_a partition
    ("ANDROID_FW_4U1EA_A_MISC", "9846625A-FE09-425B-A08F-2BF5F1F8D839", OperatingSystem::Android),
    // Android fw_ufs3_a partition
    ("ANDROID_FW_UFS3_A_MISC", "9846625A-FE09-425B-A08F-2BF5F1F8D83A", OperatingSystem::Android),
    // Android fw_ufs4_a partition
    ("ANDROID_FW_UFS4_A_MISC", "9846625A-FE09-425B-A08F-2BF5F1F8D83B", OperatingSystem::Android),
    // Android fw_ufs5_a partition
    ("ANDROID_FW_UFS5_A_MISC", "9846625A-FE09-425B-A08F-2BF5F1F8D83C", OperatingSystem::Android),
    // Android fw_ufs6_a partition
    ("ANDROID_FW_UFS6_A_MISC", "9846625A-FE09-425B-A08F-2BF5F1F8D83D", OperatingSystem::Android),
    // Android fw_ufs7_a partition
    ("ANDROID_FW_UFS7_A_MISC", "9846625A-FE09-425B-A08F-2BF5F1F8D83E", OperatingSystem::Android),
    // Android fw_ufs8_a partition
    ("ANDROID_FW_UFS8_A_MISC", "9846625A-FE09-425B-A08F-2BF5F1F8D83F", OperatingSystem::Android),
    // Android tz_b partition
    ("ANDROID_TZ_B_MISC", "77036CD4-03D5-42BB-8ED1-37E5A88BAA34", OperatingSystem::Android),
    // Android modem_b partition
    ("ANDROID_MODEM_B_MISC", "77036CD4-03D5-42BB-8ED1-37E5A88BAA34", OperatingSystem::Android),
    // Android mdtpsecapp_b partition
    ("ANDROID_MDTPSECAPP_B_MISC", "77036CD4-03D5-42BB-8ED1-37E5A88BAA34", OperatingSystem::Android),
    // Android abl_b partition
    ("ANDROID_ABL_B_MISC", "77036CD4-03D5-42BB-8ED1-37E5A88BAA34", OperatingSystem::Android),
    // Android keymaster_b partition
    ("ANDROID_KEYMASTER_B_MISC", "77036CD4-03D5-42BB-8ED1-37E5A88BAA34", OperatingSystem::Android),
    // Android cmnlib_b partition
    ("ANDROID_CMNLIB_B_MISC", "77036CD4-03D5-42BB-8ED1-37E5A88BAA34", OperatingSystem::Android),
    // Android devcfg_b partition
    ("ANDROID_DEVCFG_B_MISC", "77036CD4-03D5-42BB-8ED1-37E5A88BAA34", OperatingSystem::Android),
    // Android vendor_b partition
    ("ANDROID_VENDOR_B_MISC", "77036CD4-03D5-42BB-8ED1-37E5A88BAA34", OperatingSystem::Android),
    // Android dtbo_b partition
    ("ANDROID_DTBO_B_MISC", "77036CD4-03D5-42BB-8ED1-37E5A88BAA34", OperatingSystem::Android),
    // Android LOGO_b partition
    ("ANDROID_LOGO_B_MISC", "77036CD4-03D5-42BB-8ED1-37E5A88BAA34", OperatingSystem::Android),
    // Android fw_4u1ea_b partition
    ("ANDROID_FW_4U1EA_B_MISC", "77036CD4-03D5-42BB-8ED1-37E5A88BAA34", OperatingSystem::Android),
    // Android fw_ufs4_b partition
    ("ANDROID_FW_UFS4_B_MISC", "77036CD4-03D5-42BB-8ED1-37E5A88BAA34", OperatingSystem::Android),
    // Android fw_ufs6_b partition
    ("ANDROID_FW_UFS6_B_MISC", "77036CD4-03D5-42BB-8ED1-37E5A88BAA34", OperatingSystem::Android),
    // Android fw_ufs8_b partition
    ("ANDROID_FW_UFS8_B_MISC", "77036CD4-03D5-42BB-8ED1-37E5A88BAA34", OperatingSystem::Android),
    // Android minidump partition
    ("ANDROID_MINIDUMP_MISC", "961743CA-BD08-48D5-BD8C-25EFEB7C7AC2", OperatingSystem::Android),
    // Android boot_aging partition
    ("ANDROID_BOOT_AGING_MISC", "CA98971A-A88F-4342-BC74-58D1B639B636", OperatingSystem::Android),
    // Android op1 partition
    ("ANDROID_OP1_MISC", "D1E30BCB-7D78-4FB6-B598-55FC4892644C", OperatingSystem::Android),
    // Android sec partition
    ("ANDROID_SEC_MISC", "303E6AC3-AF15-4C54-9E9B-D9A8FBECF401", OperatingSystem::Android),
    // Android devinfo partition
    ("ANDROID_DEVINFO_MISC", "65ADDCF4-0C5C-4D9A-AC2D-D90B5CBFCD03", OperatingSystem::Android),
    // Android dip partition
    ("ANDROID_DIP_MISC", "4114B077-005D-4E12-AC8C-B493BDA684FB", OperatingSystem::Android),
    // Android apdp partition
    ("ANDROID_APDP_MISC", "E6E98DA2-E22A-4D12-AB33-169E7DEAA507", OperatingSystem::Android),
    // Android msadp partition
    ("ANDROID_MSADP_MISC", "ED9E8101-05FA-46B7-82AA-8D58770D200B", OperatingSystem::Android),
    // Android spunvm partition
    ("ANDROID_SPUNVM_MISC", "E42E2B4C-33B0-429B-B1EF-D341C547022C", OperatingSystem::Android),
    // Android splash partition
    ("ANDROID_SPLASH_MISC", "AD99F201-DC71-4E30-9630-E19EEF553D1B", OperatingSystem::Android),
    // Android limits partition
    ("ANDROID_LIMITS_MISC", "10A0C19C-516A-5444-5CE3-664C3226A794", OperatingSystem::Android),
    // Android toolsfv partition
    ("ANDROID_TOOLSFV_MISC", "97745ABA-135A-44C3-9ADC-05616173C24C", OperatingSystem::Android),
    // Android logfs partition
    ("ANDROID_LOGFS_MISC", "BC0330EB-3410-4951-A617-03898DBE3372", OperatingSystem::Android),
    // Android sti partition
    ("ANDROID_STI_MISC", "AA9A5C4C-4F1F-7D3A-014A-22BD33BF7191", OperatingSystem::Android),
    // Android logdump partition
    ("ANDROID_LOGDUMP_MISC", "5AF80809-AABB-4943-9168-CDFC38742598", OperatingSystem::Android),
    // Android ImageFv partition
    ("ANDROID_IMAGEFV_MISC", "17911177-C9E6-4372-933C-804B678E666F", OperatingSystem::Android),
    // Android ALIGN_TO_128K_2 partition
    ("ANDROID_ALIGN_TO_128K_2_MISC", "6891A3B7-0CCC-4705-BB53-2673CAC193BD", OperatingSystem::Android),
    // Android modemst1 partition
    ("ANDROID_MODEMST1_MISC", "EBBEADAF-22C9-E33B-8F5D-0E81686A68CB", OperatingSystem::Android),
    // Android modemst2 partition
    ("ANDROID_MODEMST2_MISC", "0A288B1F-22C9-E33B-8F5D-0E81686A68CB", OperatingSystem::Android),
    // Android fsg partition
    ("ANDROID_FSG_MISC", "638FF8E2-22C9-E33B-8F5D-0E81686A68CB", OperatingSystem::Android),
    // Android fsc partition
    ("ANDROID_FSC_MISC", "57B90A16-22C9-E33B-8F5D-0E81686A68CB", OperatingSystem::Android),
];

/// The partition type that entry `i` of the registry describes.
pub open spec fn entry_type(i: int) -> Type {
    Type { guid: REGISTRY@[i].1, os: REGISTRY@[i].2 }
}

/// The first index from `i` on at which `p` holds, if any.
pub open spec fn first_from(p: spec_fn(int) -> bool, i: int) -> Option<int>
    decreases REGISTRY_LEN - i,
{
    if 0 <= i < REGISTRY_LEN {
        if p(i) {
            Some(i)
        } else {
            first_from(p, i + 1)
        }
    } else {
        None
    }
}

/// What `first_from` yields: an index from `i` on at which `p` holds, with
/// `p` false at every index between; or nothing, where `p` holds at no index
/// from `i` on.
pub proof fn lemma_first_from(p: spec_fn(int) -> bool, i: int)
    requires
        0 <= i,
    ensures
        match first_from(p, i) {
            Some(k) => i <= k < REGISTRY_LEN && p(k) && forall|j: int| i <= j < k ==> !#[trigger] p(j),
            None => forall|j: int| i <= j < REGISTRY_LEN ==> !#[trigger] p(j),
        },
    decreases REGISTRY_LEN - i,
{
    if i < REGISTRY_LEN && !p(i) {
        lemma_first_from(p, i + 1);
    }
}

/// Entries whose GUID text is `text`.
pub open spec fn guid_pred(text: Seq<char>) -> spec_fn(int) -> bool {
    |i: int| REGISTRY@[i].1@ == text
}

/// Entries whose name is `s`, without regard to case.
pub open spec fn name_pred(s: Seq<char>) -> spec_fn(int) -> bool {
    |i: int| folded(REGISTRY@[i].0@) == folded(s)
}

/// Entries of the family `os`.
pub open spec fn family_pred(os: OperatingSystem) -> spec_fn(int) -> bool {
    |i: int| same_family_spec(REGISTRY@[i].2, os)
}

/// The entry that a lookup of the GUID text `text` yields: the first one
/// with exactly that text.
pub open spec fn guid_index(text: Seq<char>) -> Option<int> {
    first_from(guid_pred(text), 0)
}

/// The family that the name `s` denotes: the family of that name; else the
/// family of the registered partition type of that name. Case is ignored.
pub open spec fn family_of_name(s: Seq<char>) -> Option<OperatingSystem> {
    match family_named(s) {
        Some(os) => Some(os),
        None => match first_from(name_pred(s), 0) {
            Some(i) => Some(REGISTRY@[i].2),
            None => None,
        },
    }
}

/// The entry that a lookup of the name `s` yields: the first entry, in
/// declaration order, of the family that `s` denotes. Every name of one
/// family thus yields the same entry.
pub open spec fn name_index(s: Seq<char>) -> Option<int> {
    match family_of_name(s) {
        Some(os) => first_from(family_pred(os), 0),
        None => None,
    }
}

/// What a search over the registry looks for.
enum Key<'a> {
    Guid(&'a str),
    Name(&'a str),
    Family(&'a OperatingSystem),
}

spec fn key_pred(key: Key) -> spec_fn(int) -> bool {
    match key {
        Key::Guid(t) => guid_pred(t@),
        Key::Name(s) => name_pred(s@),
        Key::Family(os) => family_pred(*os),
    }
}

/// The first entry that `key` picks out.
fn position(key: Key) -> (r: Option<usize>)
    ensures
        match r {
            Some(k) => k < REGISTRY_LEN && first_from(key_pred(key), 0) == Some(k as int),
            None => first_from(key_pred(key), 0) is None,
        },
{
    proof {
        lemma_first_from(key_pred(key), 0);
    }
    let table = REGISTRY;
    let mut i: usize = 0;
    while i < REGISTRY_LEN
        invariant
            table@ == REGISTRY@,
            0 <= i <= REGISTRY_LEN,
            first_from(key_pred(key), 0) == first_from(key_pred(key), i as int),
        decreases REGISTRY_LEN - i,
    {
        let found = match key {
            Key::Guid(t) => same_text(table[i].1, t),
            Key::Name(s) => same_folded(table[i].0, s),
            Key::Family(os) => same_family(&table[i].2, os),
        };
        if found {
            return Some(i);
        }
        i = i + 1;
    }
    None
}

/// The partition type of entry `i`.
fn entry(i: usize) -> (r: Type)
    requires
        i < REGISTRY_LEN,
    ensures
        r == entry_type(i as int),
{
    let table = REGISTRY;
    Type { guid: table[i].1, os: table[i].2.clone() }
}

impl Type {
    /// Looks up a partition type by the canonical text of its type-GUID.
    /// Where several entries share the text, the first one is returned.
    pub fn from_guid(text: &str) -> (r: Result<Type, LookupError>)
        ensures
            match guid_index(text@) {
                Some(i) => r == Ok::<Type, LookupError>(entry_type(i)),
                None => r matches Err(LookupError::Unknown(m)) && m@ == text@,
            },
    {
        match position(Key::Guid(text)) {
            Some(i) => Ok(entry(i)),
            None => Err(LookupError::Unknown(text.to_owned())),
        }
    }

    /// Looks up a partition type by a 128-bit GUID, read most significant
    /// byte first: its canonical upper-case text is matched against the
    /// registry.
    pub fn from_uuid(u: u128) -> (r: Result<Type, LookupError>)
        ensures
            match guid_index(guid_text(u)) {
                Some(i) => r == Ok::<Type, LookupError>(entry_type(i)),
                None => r matches Err(LookupError::Unknown(m)) && m@ == guid_text(u),
            },
    {
        let text = upper_hyphenated(u);
        Type::from_guid(text.as_str())
    }

    /// Looks up a partition type by name, ignoring case. The name denotes an
    /// operating-system family, by the family's own name or by the name of a
    /// registered partition type of that family; the first entry of that
    /// family in declaration order is returned.
    pub fn from_name(name: &str) -> (r: Result<Type, LookupError>)
        ensures
            match name_index(name@) {
                Some(i) => r == Ok::<Type, LookupError>(entry_type(i)),
                None => r matches Err(LookupError::UnknownOperatingSystem(m)) && m@ == name@,
            },
    {
        let os = match OperatingSystem::from_name(name) {
            Ok(os) => os,
            Err(e) => match position(Key::Name(name)) {
                Some(i) => {
                    let table = REGISTRY;
                    table[i].2.clone()
                },
                None => {
                    return Err(e);
                },
            },
        };
        match position(Key::Family(&os)) {
            Some(i) => Ok(entry(i)),
            None => Err(LookupError::UnknownOperatingSystem(name.to_owned())),
        }
    }
}

impl std::str::FromStr for Type {
    type Err = LookupError;

    fn from_str(s: &str) -> Result<Type, LookupError> {
        Type::from_guid(s)
    }
}

/// Where several entries share a GUID text, a lookup of that text yields the
/// first of them in declaration order.
pub proof fn lemma_guid_lookup_first_wins(text: Seq<char>, i: int)
    requires
        0 <= i < REGISTRY_LEN,
        REGISTRY@[i].1@ == text,
    ensures
        guid_index(text) matches Some(k) && k <= i && REGISTRY@[k].1@ == text && forall|j: int|
            0 <= j < k ==> #[trigger] REGISTRY@[j].1@ != text,
{
    let p = guid_pred(text);
    lemma_first_from(p, 0);
    assert(p(i));
    let k = guid_index(text)->0;
    assert forall|j: int| 0 <= j < k implies #[trigger] REGISTRY@[j].1@ != text by {
        assert(!p(j));
    }
}

/// A registered GUID is found again: where entry `i` holds the canonical text
/// of `v` and no earlier entry holds the same text, a lookup of `v` yields
/// entry `i`.
pub proof fn lemma_registered_guid_found(i: int, v: u128)
    requires
        0 <= i < REGISTRY_LEN,
        REGISTRY@[i].1@ == guid_text(v),
        forall|j: int| 0 <= j < i ==> #[trigger] REGISTRY@[j].1@ != REGISTRY@[i].1@,
    ensures
        guid_index(guid_text(v)) == Some(i),
{
    let p = guid_pred(guid_text(v));
    lemma_first_from(p, 0);
    assert(p(i));
    let k = guid_index(guid_text(v))->0;
    if k < i {
        assert(p(k));
    }
}

/// A value whose canonical text no entry holds is reported unknown.
pub proof fn lemma_unregistered_guid_unknown(v: u128)
    requires
        forall|i: int| 0 <= i < REGISTRY_LEN ==> #[trigger] REGISTRY@[i].1@ != guid_text(v),
    ensures
        guid_index(guid_text(v)) is None,
{
    lemma_first_from(guid_pred(guid_text(v)), 0);
}

/// Names that are equal once folded (upper case, and the Kelvin sign, onto
/// ASCII lower case) are looked up alike, as partition
/// types and as operating-system families.
pub proof fn lemma_name_lookup_ignores_case(a: Seq<char>, b: Seq<char>)
    requires
        folded(a) == folded(b),
    ensures
        name_index(a) == name_index(b),
        family_named(a) == family_named(b),
{
    assert(name_pred(a) =~= name_pred(b));
}

/// The lookups keep no state: equal inputs give equal results.
pub proof fn lemma_lookups_deterministic(a: Seq<char>, b: Seq<char>, u: u128, w: u128)
    requires
        a == b,
        u == w,
    ensures
        guid_index(a) == guid_index(b),
        name_index(a) == name_index(b),
        family_named(a) == family_named(b),
        guid_index(guid_text(u)) == guid_index(guid_text(w)),
{
}

/// Lookups by name give one representative per family: two names whose
/// lookups yield entries of the same family yield the same entry, and no
/// earlier entry is of that family.
pub proof fn lemma_name_lookup_one_per_family(a: Seq<char>, b: Seq<char>)
    requires
        name_index(a) is Some,
        name_index(b) is Some,
        REGISTRY@[name_index(a)->0].2 == REGISTRY@[name_index(b)->0].2,
    ensures
        name_index(a) == name_index(b),
        forall|j: int|
            0 <= j < name_index(a)->0 ==> !same_family_spec(
                #[trigger] REGISTRY@[j].2,
                REGISTRY@[name_index(a)->0].2,
            ),
{
    let oa = family_of_name(a)->0;
    let ob = family_of_name(b)->0;
    let pa = family_pred(oa);
    let pb = family_pred(ob);
    lemma_first_from(pa, 0);
    lemma_first_from(pb, 0);
    let i = name_index(a)->0;
    assert(pa(i));
    assert(pb(name_index(b)->0));
    assert(pa =~= pb);
    assert forall|j: int| 0 <= j < i implies !same_family_spec(
        #[trigger] REGISTRY@[j].2,
        REGISTRY@[i].2,
    ) by {
        assert(!pa(j));
    }
}

} // verus!
