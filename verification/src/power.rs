//! Power schemes and their settings, as the power management functions of
//! Windows list them. A GUID is held as a 128-bit integer.
use vstd::prelude::*;
use vstd::string::StringExecFns;
use widestring::U16String;
use crate::text::{chars_of, digits, digits_of, push_all, str_equal, string_from_chars};

verus! {

/// A power scheme: its friendly name and GUID.
#[derive(Debug, Clone)]
pub struct PowerScheme {
    pub name: String,
    pub guid: u128,
}

impl PowerScheme {
    /// A copy of this scheme.
    pub fn duplicate(&self) -> (r: PowerScheme)
        ensures
            r == *self,
    {
        PowerScheme { name: self.name.clone(), guid: self.guid }
    }
}

/// A subgroup of power settings within a scheme.
#[derive(Debug, Clone)]
pub struct PowerSubgroup {
    pub _name: String,
    pub _guid: u128,
    pub settings: Vec<PowerSetting>,
}

/// One power setting: its friendly name and GUID.
#[derive(Debug, Clone)]
pub struct PowerSetting {
    pub name: String,
    pub guid: u128,
}

/// The Win32 code `ERROR_NO_MORE_ITEMS`, which ends an enumeration.
pub const ERROR_NO_MORE_ITEMS: u32 = 259;

/// The Win32 code `ERROR_MORE_DATA`: the first call of a two-call read only
/// reported the size of the buffer it needs.
pub const ERROR_MORE_DATA: u32 = 234;

/// The Win32 code `ERROR_FILE_NOT_FOUND`.
pub const ERROR_FILE_NOT_FOUND: u32 = 2;

/// Whether a failed enumeration call only means that there is nothing left
/// to enumerate: its code is `ERROR_NO_MORE_ITEMS`, or its message reports
/// success.
pub fn enumeration_finished(code: u32, message: &str) -> (r: bool)
    ensures
        r == (code == ERROR_NO_MORE_ITEMS || message@ == "The operation completed successfully."@),
{
    code == ERROR_NO_MORE_ITEMS || str_equal(message, "The operation completed successfully.")
}

/// Whether the first call of a two-call read may be followed by the second:
/// it succeeded, or it asked for a larger buffer.
pub fn size_query_succeeded(code: u32) -> (r: bool)
    ensures
        r == (code == 0 || code == ERROR_MORE_DATA),
{
    code == 0 || code == ERROR_MORE_DATA
}

/// What the first call of a friendly-name read leads to.
#[derive(Debug, Clone, Copy, PartialEq, Eq, Structural)]
pub enum NameProbe {
    /// Read the name into a buffer of the size reported.
    Fetch,
    /// There is no name: it is shown as "Unknown".
    Unknown,
    /// The read failed.
    Fail,
}

/// What the code of the first call of a friendly-name read leads to.
pub fn name_probe(code: u32) -> (r: NameProbe)
    ensures
        r == (if code == 0 || code == ERROR_MORE_DATA {
            NameProbe::Fetch
        } else if code == ERROR_FILE_NOT_FOUND {
            NameProbe::Unknown
        } else {
            NameProbe::Fail
        }),
{
    if code == 0 || code == ERROR_MORE_DATA {
        NameProbe::Fetch
    } else if code == ERROR_FILE_NOT_FOUND {
        NameProbe::Unknown
    } else {
        NameProbe::Fail
    }
}

/// The number of UTF-16 units of the buffer for a name of `size` bytes: at
/// least one unit, for an empty name.
pub fn name_buffer_units(size: u32) -> (r: usize)
    ensures
        r == (if size < 2 { 1 } else { size / 2 }),
{
    if size < 2 {
        1
    } else {
        (size / 2) as usize
    }
}

/// The number of bytes of the buffer that receives a GUID: at least 16.
pub fn guid_buffer_size(size: u32) -> (r: u32)
    ensures
        r == (if size < 16 { 16 } else { size }),
{
    if size < 16 {
        16
    } else {
        size
    }
}

/// The GUID, as a 128-bit integer, held by the first 16 bytes of a buffer in
/// the layout of Windows: a 32-bit and two 16-bit fields in little-endian
/// order, then 8 bytes in order.
pub open spec fn guid_value(b: Seq<u8>) -> int {
    let data1 = b[0] + b[1] * 0x100 + b[2] * 0x10000 + b[3] * 0x1000000;
    let data2 = b[4] + b[5] * 0x100;
    let data3 = b[6] + b[7] * 0x100;
    let data4 = b[8] * 0x100000000000000 + b[9] * 0x1000000000000 + b[10] * 0x10000000000
        + b[11] * 0x100000000 + b[12] * 0x1000000 + b[13] * 0x10000 + b[14] * 0x100 + b[15];
    data1 * 0x1000000000000000000000000 + data2 * 0x100000000000000000000 + data3 * 0x10000000000000000 + data4
}

/// The GUID held by a buffer that an enumeration filled, or `None` when the
/// buffer is shorter than a GUID.
pub fn guid_from_bytes(b: &Vec<u8>) -> (r: Option<u128>)
    ensures
        b.len() < 16 ==> r is None,
        b.len() >= 16 ==> r == Some(guid_value(b@) as u128),
{
    if b.len() < 16 {
        return None;
    }
    let data1: u128 = b[0] as u128 + b[1] as u128 * 0x100 + b[2] as u128 * 0x10000 + b[3] as u128 * 0x1000000;
    let data2: u128 = b[4] as u128 + b[5] as u128 * 0x100;
    let data3: u128 = b[6] as u128 + b[7] as u128 * 0x100;
    let data4: u128 = b[8] as u128 * 0x100000000000000 + b[9] as u128 * 0x1000000000000 + b[10] as u128 * 0x10000000000
        + b[11] as u128 * 0x100000000 + b[12] as u128 * 0x1000000 + b[13] as u128 * 0x10000 + b[14] as u128 * 0x100 + b[15] as u128;
    Some(data1 * 0x1000000000000000000000000 + data2 * 0x100000000000000000000 + data3 * 0x10000000000000000 + data4)
}

/// UTF-16 decoding with replacement: a unit outside the surrogate range is
/// the character of that code point; a high surrogate followed by a low one
/// is the character they encode together; any other surrogate stands alone
/// and becomes the replacement character U+FFFD.
pub open spec fn utf16_lossy(units: Seq<u16>) -> Seq<char>
    decreases units.len(),
{
    if units.len() == 0 {
        Seq::empty()
    } else if units[0] < 0xD800 || units[0] > 0xDFFF {
        seq![units[0] as char] + utf16_lossy(units.drop_first())
    } else if units[0] <= 0xDBFF && units.len() >= 2 && 0xDC00 <= units[1] <= 0xDFFF {
        seq![((0x10000 + (units[0] - 0xD800) * 0x400 + (units[1] - 0xDC00)) as u32) as char] + utf16_lossy(units.skip(2))
    } else {
        seq!['\u{FFFD}'] + utf16_lossy(units.drop_first())
    }
}

/// Calls `widestring::U16String::from_vec(units).to_string_lossy()`, which
/// hands the units to `String::from_utf16_lossy`: UTF-16 decoding in which
/// each unpaired surrogate is replaced by U+FFFD, as `utf16_lossy` states.
#[verifier::external_body]
fn decode_utf16_lossy(units: Vec<u16>) -> (r: String)
    ensures
        r@ == utf16_lossy(units@),
{
    U16String::from_vec(units).to_string_lossy()
}

/// The units before the first NUL unit, or all of them when there is none.
pub open spec fn before_nul(units: Seq<u16>) -> Seq<u16>
    decreases units.len(),
{
    if units.len() == 0 {
        units
    } else if units[0] == 0 {
        Seq::empty()
    } else {
        seq![units[0]] + before_nul(units.drop_first())
    }
}

/// A name as shown: an empty name is shown as "Unknown".
pub open spec fn shown_name(decoded: Seq<char>) -> Seq<char> {
    if decoded.len() == 0 { "Unknown"@ } else { decoded }
}

/// The name to show for a decoded friendly name.
pub fn name_or_unknown(decoded: String) -> (r: String)
    ensures
        r@ == shown_name(decoded@),
{
    let chars = chars_of(decoded.as_str());
    if chars.len() == 0 {
        String::from_str("Unknown")
    } else {
        decoded
    }
}

proof fn lemma_before_nul_at(units: Seq<u16>, p: int)
    requires
        0 <= p <= units.len(),
        p < units.len() ==> units[p] == 0,
        forall|j: int| 0 <= j < p ==> units[j] != 0,
    ensures
        before_nul(units) == units.take(p),
    decreases units.len(),
{
    if units.len() > 0 && p > 0 {
        assert forall|j: int| 0 <= j < p - 1 implies units.drop_first()[j] != 0 by {
            assert(units.drop_first()[j] == units[j + 1]);
        }
        lemma_before_nul_at(units.drop_first(), p - 1);
        assert(units.take(p) =~= seq![units[0]] + units.drop_first().take(p - 1));
    } else if units.len() > 0 {
        assert(units.take(0) =~= Seq::<u16>::empty());
    } else {
        assert(units.take(p) =~= units);
    }
}

/// The friendly name held by the buffer of a name read: the units before the
/// first NUL, decoded, or "Unknown" when that is empty.
pub fn friendly_name(buffer: Vec<u16>) -> (r: String)
    ensures
        r@ == shown_name(utf16_lossy(before_nul(buffer@))),
{
    let mut len: usize = 0;
    while len < buffer.len() && buffer[len] != 0
        invariant
            len <= buffer.len(),
            forall|j: int| 0 <= j < len ==> buffer@[j] != 0,
        decreases buffer.len() - len,
    {
        len = len + 1;
    }
    proof {
        lemma_before_nul_at(buffer@, len as int);
    }
    let mut units = buffer;
    units.truncate(len);
    name_or_unknown(decode_utf16_lossy(units))
}

/// The name given to an element of a power enumeration whose friendly name
/// could not be read: "Unknown", the kind of element, and its position.
pub fn fallback_name(kind: &str, index: u32) -> (r: String)
    ensures
        r@ == "Unknown "@ + kind@ + " "@ + digits(index as nat),
{
    let mut v = chars_of("Unknown ");
    let k = chars_of(kind);
    push_all(&mut v, &k);
    let sp = chars_of(" ");
    push_all(&mut v, &sp);
    let d = digits_of(index as u64);
    push_all(&mut v, &d);
    string_from_chars(v)
}

} // verus!
