//! Registry values as the registry stores them: a type code and bytes.
use vstd::prelude::*;
use vstd::string::StringExecFns;
use crate::errors::RegistryTweakError;
use crate::tweaks::registry::method::{RegistryKeyValue, RegistryValueView};

verus! {

/// The type code of a 32-bit little-endian value, `REG_DWORD`.
pub const REG_DWORD: u32 = 4;

/// The type code of raw bytes, `REG_BINARY`.
pub const REG_BINARY: u32 = 3;

/// The 32-bit value of four little-endian bytes.
pub open spec fn le_u32(b: Seq<u8>) -> u32 {
    (b[0] + b[1] * 0x100 + b[2] * 0x10000 + b[3] * 0x1000000) as u32
}

/// The four little-endian bytes of a 32-bit value.
pub open spec fn le_bytes(v: u32) -> Seq<u8> {
    seq![(v % 0x100) as u8, ((v / 0x100) % 0x100) as u8, ((v / 0x10000) % 0x100) as u8, (v / 0x1000000) as u8]
}

/// The value a stored type and its bytes stand for: a `REG_DWORD` of four
/// bytes or a `REG_BINARY`; any other type, or a `REG_DWORD` of another
/// length, is not one the tweaks know.
pub fn decode_value(value_type: u32, bytes: Vec<u8>) -> (r: Result<RegistryKeyValue, RegistryTweakError>)
    ensures
        value_type == REG_DWORD && bytes.len() == 4 ==> (r matches Ok(v) && v@ == RegistryValueView::Dword(le_u32(bytes@))),
        value_type == REG_BINARY ==> (r matches Ok(v) && v@ == RegistryValueView::Binary(bytes@)),
        !(value_type == REG_DWORD && bytes.len() == 4) && value_type != REG_BINARY ==> (r matches Err(RegistryTweakError::ReadValueError(m)) && m@ == "Unsupported registry value type"@),
{
    if value_type == REG_DWORD && bytes.len() == 4 {
        let v: u32 = bytes[0] as u32 + bytes[1] as u32 * 0x100 + bytes[2] as u32 * 0x10000 + bytes[3] as u32 * 0x1000000;
        Ok(RegistryKeyValue::Dword(v))
    } else if value_type == REG_BINARY {
        Ok(RegistryKeyValue::Binary(bytes))
    } else {
        Err(RegistryTweakError::ReadValueError(String::from_str("Unsupported registry value type")))
    }
}

/// The type and bytes that store a value; `Deleted` is not stored but
/// removed, and has none.
pub fn encode_value(value: &RegistryKeyValue) -> (r: Option<(u32, Vec<u8>)>)
    ensures
        match value@ {
            RegistryValueView::Dword(d) => r matches Some((t, b)) && t == REG_DWORD && b@ == le_bytes(d),
            RegistryValueView::Binary(bs) => r matches Some((t, b)) && t == REG_BINARY && b@ == bs,
            RegistryValueView::Deleted => r is None,
        },
{
    match value {
        RegistryKeyValue::Dword(d) => {
            let d = *d;
            let b = vec![(d % 0x100) as u8, ((d / 0x100) % 0x100) as u8, ((d / 0x10000) % 0x100) as u8, (d / 0x1000000) as u8];
            assert(b@ =~= le_bytes(d));
            Some((REG_DWORD, b))
        },
        RegistryKeyValue::Binary(bytes) => {
            let mut b: Vec<u8> = Vec::new();
            let mut i: usize = 0;
            while i < bytes.len()
                invariant
                    i <= bytes.len(),
                    b@ == bytes@.take(i as int),
                decreases bytes.len() - i,
            {
                b.push(bytes[i]);
                assert(b@ =~= bytes@.take(i + 1));
                i = i + 1;
            }
            assert(bytes@.take(i as int) =~= bytes@);
            Some((REG_BINARY, b))
        },
        RegistryKeyValue::Deleted => None,
    }
}

/// Storing a 32-bit value and reading its bytes back gives the value.
pub proof fn lemma_dword_round_trip(v: u32)
    ensures
        le_u32(le_bytes(v)) == v,
{
}

} // verus!
