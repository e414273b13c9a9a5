use std::str::FromStr;

use partition_types::{LookupError, OperatingSystem, Type, REGISTRY, REGISTRY_LEN};

fn linux_fs() -> Type {
    Type { guid: "0FC63DAF-8483-4772-8E79-3D69D8477DE4", os: OperatingSystem::Linux }
}

fn uuid_value(text: &str) -> u128 {
    uuid::Uuid::parse_str(text).unwrap().as_u128()
}

#[test]
fn test_partition_fromstr_guid() {
    let p = "0FC63DAF-8483-4772-8E79-3D69D8477DE4";
    let t = Type::from_str(p).unwrap();
    println!("result: {:?}", t);
    assert_eq!(t, linux_fs());
}

#[test]
fn test_partition_from_name() {
    // mix case as part of the test
    let p = "Linux_FS";
    let t = Type::from_name(p).unwrap();
    println!("result: {:?}", t);
    assert_eq!(t, linux_fs());
}

#[test]
fn uuid_of_linux_filesystem() {
    let u = uuid_value("0FC63DAF-8483-4772-8E79-3D69D8477DE4");
    assert_eq!(u, 0x0FC63DAF_8483_4772_8E79_3D69D8477DE4);
    assert_eq!(Type::from_uuid(u), Ok(linux_fs()));
}

#[test]
fn uuid_parsed_from_lower_case_text() {
    let u = uuid_value("0fc63daf-8483-4772-8e79-3d69d8477de4");
    assert_eq!(Type::from_uuid(u), Ok(linux_fs()));
}

#[test]
fn all_zero_uuid_is_unused() {
    assert_eq!(
        Type::from_uuid(0),
        Ok(Type { guid: "00000000-0000-0000-0000-000000000000", os: OperatingSystem::NoOs })
    );
}

#[test]
fn unregistered_uuid_is_unknown() {
    assert_eq!(
        Type::from_uuid(0x11111111_1111_1111_1111_111111111111),
        Err(LookupError::Unknown("11111111-1111-1111-1111-111111111111".to_string()))
    );
}

#[test]
fn unknown_uuid_error_carries_upper_case_text() {
    assert_eq!(
        Type::from_uuid(0xDEADBEEF_0000_0000_0000_00000000ABCD),
        Err(LookupError::Unknown("DEADBEEF-0000-0000-0000-00000000ABCD".to_string()))
    );
}

#[test]
fn unknown_name_is_unknown_operating_system() {
    assert_eq!(
        Type::from_name("not-a-real-os"),
        Err(LookupError::UnknownOperatingSystem("not-a-real-os".to_string()))
    );
}

#[test]
fn name_lookup_ignores_case() {
    let lower = Type::from_name("linux");
    let upper = Type::from_name("LINUX");
    assert_eq!(lower, upper);
    assert_eq!(lower, Ok(linux_fs()));
    assert_eq!(Type::from_name("LiNuX_rAiD"), Type::from_name("linux_raid"));
}

#[test]
fn name_of_partition_type_gives_first_entry_of_its_family() {
    assert_eq!(Type::from_name("linux_raid"), Ok(linux_fs()));
    assert_eq!(Type::from_name("LINUX_SWAP"), Type::from_name("linux"));
    assert_eq!(
        Type::from_name("efi"),
        Ok(Type { guid: "00000000-0000-0000-0000-000000000000", os: OperatingSystem::NoOs })
    );
    assert_eq!(
        Type::from_name("basic"),
        Ok(Type { guid: "E3C9E316-0B5C-4DB8-817D-F92DF00215AE", os: OperatingSystem::Windows })
    );
}

#[test]
fn kelvin_sign_folds_to_k() {
    let kelvin = "HAI\u{212A}U";
    assert_eq!(kelvin.to_lowercase(), "haiku");
    assert_eq!(OperatingSystem::from_name(kelvin), Ok(OperatingSystem::Haiku));
    assert_eq!(Type::from_name(kelvin), Type::from_name("Haiku"));
    assert_eq!(
        Type::from_name(kelvin),
        Ok(Type { guid: "42465331-3BA3-10F1-802A-4861696B7521", os: OperatingSystem::Haiku })
    );
}

#[test]
fn family_name_gives_first_entry_of_family() {
    assert_eq!(
        Type::from_name("hp-ux"),
        Ok(Type { guid: "75894C1E-3AEB-11D3-B7C1-7B03A0000000", os: OperatingSystem::HpUnix })
    );
    assert_eq!(
        Type::from_name("SOLARIS ILLUMOS"),
        Ok(Type { guid: "6A82CB45-1DD2-11B2-99A6-080020736631", os: OperatingSystem::Solaris })
    );
    assert_eq!(
        Type::from_name("Android"),
        Ok(Type { guid: "2568845D-2332-4675-BC39-8FA5A4748D15", os: OperatingSystem::Android })
    );
    assert_eq!(
        Type::from_name("unused"),
        Ok(Type { guid: "00000000-0000-0000-0000-000000000000", os: OperatingSystem::NoOs })
    );
}

#[test]
fn family_names() {
    assert_eq!(OperatingSystem::from_name("unused"), Ok(OperatingSystem::NoOs));
    assert_eq!(OperatingSystem::from_name("MACOS"), Ok(OperatingSystem::MacOs));
    assert_eq!(OperatingSystem::from_str("freebsd"), Ok(OperatingSystem::FreeBsd));
    assert_eq!(OperatingSystem::from_str("HP-UX"), Ok(OperatingSystem::HpUnix));
    assert_eq!(OperatingSystem::from_str("Solaris Illumos"), Ok(OperatingSystem::Solaris));
    assert_eq!(
        OperatingSystem::from_str("Solaris"),
        Err(LookupError::UnknownOperatingSystem("Solaris".to_string()))
    );
    assert_eq!(
        OperatingSystem::from_name(""),
        Err(LookupError::UnknownOperatingSystem(String::new()))
    );
}

#[test]
fn guid_text_match_is_exact() {
    assert_eq!(
        Type::from_guid("0fc63daf-8483-4772-8e79-3d69d8477de4"),
        Err(LookupError::Unknown("0fc63daf-8483-4772-8e79-3d69d8477de4".to_string()))
    );
    assert_eq!(Type::from_guid(""), Err(LookupError::Unknown(String::new())));
}

#[test]
fn shared_guid_yields_first_entry() {
    // Basic Data (Windows) comes before the Android modem entry with the same GUID.
    assert_eq!(
        Type::from_uuid(0xEBD0A0A2_B9E5_4433_87C0_68B6B72699C7),
        Ok(Type { guid: "EBD0A0A2-B9E5-4433-87C0-68B6B72699C7", os: OperatingSystem::Windows })
    );
}

#[test]
fn every_registered_guid_round_trips() {
    assert_eq!(REGISTRY.len(), REGISTRY_LEN);
    for (i, entry) in REGISTRY.iter().enumerate() {
        let first = REGISTRY.iter().position(|e| e.1 == entry.1).unwrap();
        let expected = Type { guid: REGISTRY[first].1, os: REGISTRY[first].2.clone() };
        assert_eq!(Type::from_uuid(uuid_value(entry.1)), Ok(expected.clone()), "entry {}", i);
        assert_eq!(Type::from_guid(entry.1), Ok(expected));
    }
}

#[test]
fn every_registered_name_gives_first_entry_of_its_family() {
    for entry in REGISTRY.iter() {
        let first = REGISTRY.iter().find(|e| e.2 == entry.2).unwrap();
        let expected = Type { guid: first.1, os: first.2.clone() };
        assert_eq!(Type::from_name(&entry.0.to_lowercase()), Ok(expected.clone()));
        assert_eq!(Type::from_name(entry.0), Ok(expected));
    }
}

#[test]
fn lookups_repeat_alike() {
    let u = 0x0FC63DAF_8483_4772_8E79_3D69D8477DE4;
    assert_eq!(Type::from_uuid(u), Type::from_uuid(u));
    assert_eq!(Type::from_name("linux"), Type::from_name("linux"));
    assert_eq!(Type::from_name("bogus"), Type::from_name("bogus"));
    assert_eq!(Type::from_uuid(7), Type::from_uuid(7));
}

#[test]
fn default_is_unclassified() {
    assert_eq!(
        Type::default(),
        Type { guid: "00000000-0000-0000-0000-000000000000", os: OperatingSystem::NoOs }
    );
}

#[test]
fn clone_keeps_value() {
    let t = Type { guid: "X", os: OperatingSystem::Custom("vendor".to_string()) };
    assert_eq!(t.clone(), t);
}
