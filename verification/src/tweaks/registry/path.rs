//! Registry paths such as `HKEY_LOCAL_MACHINE\SYSTEM\CurrentControlSet`: the
//! hive before the first backslash, and the subkey after it.
use vstd::prelude::*;
use crate::errors::RegistryTweakError;
use crate::text::{chars_of, str_equal, string_from_chars};

verus! {

/// The hives that registry tweaks write to.
#[derive(Debug, Clone, Copy, PartialEq, Eq, Structural)]
pub enum RegistryHive {
    LocalMachine,
    CurrentUser,
}

/// The position of the first backslash in `s`, or -1 when there is none.
pub open spec fn first_backslash(s: Seq<char>) -> int
    decreases s.len(),
{
    if s.len() == 0 {
        -1
    } else if s[0] == '\\' {
        0
    } else if first_backslash(s.drop_first()) < 0 {
        -1
    } else {
        first_backslash(s.drop_first()) + 1
    }
}

/// The hive part of a path: everything before the first backslash, or the
/// whole path when it has none.
pub open spec fn hive_part(path: Seq<char>) -> Seq<char> {
    let p = first_backslash(path);
    if p < 0 { path } else { path.take(p) }
}

/// The hive a hive name stands for, if it is one of those supported.
pub open spec fn hive_named(name: Seq<char>) -> Option<RegistryHive> {
    if name == "HKEY_LOCAL_MACHINE"@ {
        Some(RegistryHive::LocalMachine)
    } else if name == "HKEY_CURRENT_USER"@ {
        Some(RegistryHive::CurrentUser)
    } else {
        None
    }
}

proof fn lemma_first_backslash(s: Seq<char>)
    ensures
        -1 <= first_backslash(s) < s.len(),
        first_backslash(s) >= 0 ==> s[first_backslash(s)] == '\\',
        forall|j: int| 0 <= j < s.len() && (first_backslash(s) < 0 || j < first_backslash(s)) ==> s[j] != '\\',
    decreases s.len(),
{
    if s.len() > 0 && s[0] != '\\' {
        lemma_first_backslash(s.drop_first());
        assert forall|j: int| 1 <= j < s.len() implies s[j] == s.drop_first()[j - 1] by {}
    }
}

proof fn lemma_first_backslash_is(s: Seq<char>, p: int)
    requires
        -1 <= p < s.len(),
        p >= 0 ==> s[p] == '\\',
        forall|j: int| 0 <= j < s.len() && (p < 0 || j < p) ==> s[j] != '\\',
    ensures
        first_backslash(s) == p,
    decreases s.len(),
{
    if s.len() > 0 && s[0] != '\\' {
        assert forall|j: int| 0 <= j < s.drop_first().len() && (p - 1 < 0 || j < p - 1) implies s.drop_first()[j] != '\\' by {
            assert(s.drop_first()[j] == s[j + 1]);
        }
        if p >= 0 {
            lemma_first_backslash_is(s.drop_first(), p - 1);
        } else {
            lemma_first_backslash_is(s.drop_first(), -1);
        }
    }
}

/// Splits a registry path into its hive and subkey. An unknown hive is an
/// error that names it; a supported hive without a subkey (no backslash)
/// makes the whole path an invalid key.
pub fn parse_registry_path(path: &str) -> (r: Result<(RegistryHive, String), RegistryTweakError>)
    ensures
        match hive_named(hive_part(path@)) {
            None => r matches Err(RegistryTweakError::UnsupportedHive(name)) && name@ == hive_part(path@),
            Some(hive) => if first_backslash(path@) < 0 {
                r matches Err(RegistryTweakError::InvalidKeyFormat(p)) && p@ == path@
            } else {
                r matches Ok((h, sub)) && h == hive && sub@ == path@.skip(first_backslash(path@) + 1)
            },
        },
{
    let chars = chars_of(path);
    let mut p: usize = 0;
    while p < chars.len() && chars[p] != '\\'
        invariant
            chars@ == path@,
            p <= chars.len(),
            forall|j: int| 0 <= j < p ==> chars@[j] != '\\',
        decreases chars.len() - p,
    {
        p = p + 1;
    }
    let found = p < chars.len();
    proof {
        lemma_first_backslash_is(path@, if found { p as int } else { -1 });
    }
    let mut hive_chars: Vec<char> = Vec::new();
    let mut i: usize = 0;
    while i < p
        invariant
            chars@ == path@,
            p <= chars.len(),
            i <= p,
            hive_chars@ == chars@.take(i as int),
        decreases p - i,
    {
        hive_chars.push(chars[i]);
        assert(hive_chars@ =~= chars@.take(i + 1));
        i = i + 1;
    }
    assert(hive_chars@ =~= hive_part(path@)) by {
        if !found {
            assert(chars@.take(p as int) =~= chars@);
        }
    }
    let hive_name = string_from_chars(hive_chars);
    let hive = if str_equal(hive_name.as_str(), "HKEY_LOCAL_MACHINE") {
        RegistryHive::LocalMachine
    } else if str_equal(hive_name.as_str(), "HKEY_CURRENT_USER") {
        RegistryHive::CurrentUser
    } else {
        return Err(RegistryTweakError::UnsupportedHive(hive_name));
    };
    if !found {
        return Err(RegistryTweakError::InvalidKeyFormat(string_from_chars(chars)));
    }
    let mut sub_chars: Vec<char> = Vec::new();
    let mut k: usize = p + 1;
    while k < chars.len()
        invariant
            chars@ == path@,
            p < chars.len(),
            p + 1 <= k <= chars.len(),
            sub_chars@ == chars@.subrange(p + 1, k as int),
        decreases chars.len() - k,
    {
        sub_chars.push(chars[k]);
        assert(sub_chars@ =~= chars@.subrange(p + 1, k + 1));
        k = k + 1;
    }
    assert(sub_chars@ =~= path@.skip(p + 1));
    Ok((hive, string_from_chars(sub_chars)))
}

} // verus!
