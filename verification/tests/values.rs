use oc_tool::errors::RegistryTweakError;
use oc_tool::tweaks::msr::method::{core_affinity_mask, join_msr_value, split_msr_value};
use oc_tool::tweaks::registry::method::RegistryKeyValue;
use oc_tool::tweaks::registry::value::{decode_value, encode_value, REG_BINARY, REG_DWORD};

#[test]
fn dword_encodes_little_endian() {
    match encode_value(&RegistryKeyValue::Dword(0x12345678)) {
        Some((t, bytes)) => {
            assert_eq!(t, REG_DWORD);
            assert_eq!(bytes, vec![0x78, 0x56, 0x34, 0x12]);
        }
        None => panic!("a DWORD is stored"),
    }
}

#[test]
fn binary_encodes_unchanged_and_deleted_is_not_stored() {
    match encode_value(&RegistryKeyValue::Binary(vec![1, 2, 3])) {
        Some((t, bytes)) => {
            assert_eq!(t, REG_BINARY);
            assert_eq!(bytes, vec![1, 2, 3]);
        }
        None => panic!("binary data is stored"),
    }
    assert!(encode_value(&RegistryKeyValue::Deleted).is_none());
}

#[test]
fn dword_decodes_from_four_bytes() {
    match decode_value(REG_DWORD, vec![0x26, 0, 0, 0]) {
        Ok(RegistryKeyValue::Dword(v)) => assert_eq!(v, 38),
        other => panic!("unexpected {:?}", other),
    }
    match decode_value(REG_DWORD, vec![0xff, 0xff, 0xff, 0xff]) {
        Ok(RegistryKeyValue::Dword(v)) => assert_eq!(v, u32::MAX),
        other => panic!("unexpected {:?}", other),
    }
}

#[test]
fn decode_round_trips_encode() {
    for v in [0u32, 1, 255, 256, 0xdead_beef, u32::MAX] {
        let (t, bytes) = encode_value(&RegistryKeyValue::Dword(v)).unwrap();
        match decode_value(t, bytes) {
            Ok(RegistryKeyValue::Dword(back)) => assert_eq!(back, v),
            other => panic!("unexpected {:?}", other),
        }
    }
}

#[test]
fn unsupported_types_are_refused() {
    match decode_value(1, vec![0x41, 0]) {
        Err(RegistryTweakError::ReadValueError(m)) => assert_eq!(m, "Unsupported registry value type"),
        other => panic!("unexpected {:?}", other),
    }
    match decode_value(REG_DWORD, vec![1, 2, 3]) {
        Err(RegistryTweakError::ReadValueError(m)) => assert_eq!(m, "Unsupported registry value type"),
        other => panic!("unexpected {:?}", other),
    }
    match decode_value(REG_BINARY, vec![9, 8]) {
        Ok(RegistryKeyValue::Binary(b)) => assert_eq!(b, vec![9, 8]),
        other => panic!("unexpected {:?}", other),
    }
}

#[test]
fn msr_values_split_into_halves_and_join_back() {
    assert_eq!(split_msr_value(0x0000_0001_8000_0002), (0x8000_0002, 0x1));
    assert_eq!(join_msr_value(0x8000_0002, 0x1), 0x0000_0001_8000_0002);
    for v in [0u64, 1, 0xffff_ffff, 0x1_0000_0000, u64::MAX, 0x1234_5678_9abc_def0] {
        let (eax, edx) = split_msr_value(v);
        assert_eq!(join_msr_value(eax, edx), v);
    }
}

#[test]
fn affinity_mask_selects_one_core() {
    assert_eq!(core_affinity_mask(0), 1);
    assert_eq!(core_affinity_mask(5), 0b10_0000);
    assert_eq!(core_affinity_mask(63), 1u64 << 63);
}
