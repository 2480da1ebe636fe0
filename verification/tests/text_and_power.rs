use oc_tool::errors::{GroupPolicyTweakError, RegistryTweakError};
use oc_tool::power::{
    enumeration_finished, fallback_name, friendly_name, guid_buffer_size, guid_from_bytes,
    name_buffer_units, name_or_unknown, name_probe, size_query_succeeded, NameProbe, PowerScheme,
};
use oc_tool::text::{eq_ignore_ascii_case, str_contains, str_equal};
use oc_tool::tweaks::powershell::script::{command_line, script_outcome};
use oc_tool::tweaks::registry::path::{parse_registry_path, RegistryHive};

#[test]
fn registry_path_splits_hive_and_subkey() {
    match parse_registry_path("HKEY_LOCAL_MACHINE\\SYSTEM\\CurrentControlSet\\Control") {
        Ok((hive, sub)) => {
            assert_eq!(hive, RegistryHive::LocalMachine);
            assert_eq!(sub, "SYSTEM\\CurrentControlSet\\Control");
        }
        Err(e) => panic!("unexpected {:?}", e),
    }
    match parse_registry_path("HKEY_CURRENT_USER\\Control Panel\\Desktop") {
        Ok((hive, sub)) => {
            assert_eq!(hive, RegistryHive::CurrentUser);
            assert_eq!(sub, "Control Panel\\Desktop");
        }
        Err(e) => panic!("unexpected {:?}", e),
    }
}

#[test]
fn registry_path_errors() {
    match parse_registry_path("HKEY_USERS\\S-1-5-19") {
        Err(RegistryTweakError::UnsupportedHive(h)) => assert_eq!(h, "HKEY_USERS"),
        other => panic!("unexpected {:?}", other),
    }
    match parse_registry_path("HKEY_LOCAL_MACHINE") {
        Err(RegistryTweakError::InvalidKeyFormat(p)) => assert_eq!(p, "HKEY_LOCAL_MACHINE"),
        other => panic!("unexpected {:?}", other),
    }
    match parse_registry_path("") {
        Err(RegistryTweakError::UnsupportedHive(h)) => assert_eq!(h, ""),
        other => panic!("unexpected {:?}", other),
    }
}

#[test]
fn error_messages() {
    assert_eq!(
        RegistryTweakError::UnsupportedHive("HKEY_USERS".to_string()).message(),
        "Unsupported registry hive: HKEY_USERS"
    );
    assert_eq!(
        RegistryTweakError::InvalidKeyFormat("X".to_string()).message(),
        "Invalid registry key format: X"
    );
    assert_eq!(
        GroupPolicyTweakError::DeleteValueError("denied".to_string()).message(),
        "Failed to delete group policy value: denied"
    );
}

#[test]
fn command_line_escapes_quotes() {
    assert_eq!(
        command_line("Get-Service -Name \"DPS\"").unwrap(),
        "powershell -NoProfile -ExecutionPolicy Bypass -WindowStyle Hidden -Command \"Get-Service -Name \\\"DPS\\\"\""
    );
    assert_eq!(command_line("a\0b").unwrap_err(), "Failed to convert command line to CString");
}

#[test]
fn script_outcome_prefers_error_output() {
    assert_eq!(script_outcome("  Enabled\r\n", "").unwrap(), "Enabled");
    assert_eq!(
        script_outcome("Enabled", "  access denied \n").unwrap_err(),
        "PowerShell script error: access denied"
    );
}

#[test]
fn guid_from_enumeration_buffer() {
    // 381b4222-f694-41f0-9685-ff5bb260df2e (Balanced), as Windows lays it out.
    let bytes: Vec<u8> = vec![
        0x22, 0x42, 0x1b, 0x38, 0x94, 0xf6, 0xf0, 0x41, 0x96, 0x85, 0xff, 0x5b, 0xb2, 0x60, 0xdf, 0x2e,
    ];
    assert_eq!(guid_from_bytes(&bytes), Some(0x381b4222_f694_41f0_9685_ff5bb260df2e));
    assert_eq!(guid_from_bytes(&bytes[..15].to_vec()), None);
}

#[test]
fn friendly_names() {
    let units: Vec<u16> = "Balanced".encode_utf16().chain([0u16, 65, 66]).collect();
    assert_eq!(friendly_name(units), "Balanced");
    assert_eq!(friendly_name(vec![0u16, 0]), "Unknown");
    assert_eq!(friendly_name(vec![]), "Unknown");
    assert_eq!(friendly_name(vec![0xD800u16]), "\u{FFFD}");
    assert_eq!(name_or_unknown(String::new()), "Unknown");
    assert_eq!(name_or_unknown("Power saver".to_string()), "Power saver");
    assert_eq!(fallback_name("Scheme", 3), "Unknown Scheme 3");
    assert_eq!(fallback_name("Setting", 12), "Unknown Setting 12");
}

#[test]
fn win32_codes() {
    assert!(enumeration_finished(259, "anything"));
    assert!(enumeration_finished(1, "The operation completed successfully."));
    assert!(!enumeration_finished(87, "The parameter is incorrect."));
    assert!(size_query_succeeded(0));
    assert!(size_query_succeeded(234));
    assert!(!size_query_succeeded(5));
    assert_eq!(name_probe(234), NameProbe::Fetch);
    assert_eq!(name_probe(2), NameProbe::Unknown);
    assert_eq!(name_probe(5), NameProbe::Fail);
    assert_eq!(name_buffer_units(0), 1);
    assert_eq!(name_buffer_units(18), 9);
    assert_eq!(guid_buffer_size(0), 16);
    assert_eq!(guid_buffer_size(20), 20);
}

#[test]
fn power_scheme_copy() {
    let s = PowerScheme { name: "Balanced".to_string(), guid: 7 };
    let d = s.duplicate();
    assert_eq!(d.name, "Balanced");
    assert_eq!(d.guid, 7);
}

#[test]
fn text_helpers() {
    assert!(str_equal("abc", "abc"));
    assert!(!str_equal("abc", "abd"));
    assert!(eq_ignore_ascii_case("Explorer.EXE", "explorer.exe"));
    assert!(str_contains("State ON", "ON"));
    assert!(!str_contains("State", "ON"));
}

#[test]
fn friendly_names_decode_surrogates() {
    // "A", U+1F600 as a surrogate pair, a lone high surrogate, "B", then NUL.
    let units = vec![0x0041u16, 0xD83D, 0xDE00, 0xD800, 0x0042, 0, 0x0043];
    assert_eq!(friendly_name(units), "A\u{1F600}\u{FFFD}B");
    // A lone low surrogate is replaced too.
    assert_eq!(friendly_name(vec![0xDC00u16, 0x0061]), "\u{FFFD}a");
    assert_eq!(friendly_name(vec![0u16, 0x41]), "Unknown");
}
