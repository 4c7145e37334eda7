//! Feature flags: a read-only mapping from feature keys to booleans, and the
//! named features that the sandbox resolution rules consult.

use vstd::prelude::*;

verus! {

/// The features that the sandbox resolution rules read, each stored in the
/// configuration under a stable string key.
#[derive(Clone, Copy, Debug, PartialEq, Eq, Structural)]
pub enum Feature {
    /// The base sandbox toggle, keyed `windows_sandbox`.
    WindowsSandbox,
    /// The elevated sandbox toggle, keyed `windows_sandbox_elevated`.
    WindowsSandboxElevated,
}

impl Feature {
    /// The configuration key of this feature, as a sequence of characters.
    pub open spec fn spec_key(self) -> Seq<char> {
        match self {
            Feature::WindowsSandbox => "windows_sandbox"@,
            Feature::WindowsSandboxElevated => "windows_sandbox_elevated"@,
        }
    }

    /// The configuration key under which this feature is stored.
    pub fn key(&self) -> (r: String)
        ensures
            r@ == self.spec_key(),
    {
        match self {
            Feature::WindowsSandbox => "windows_sandbox".to_owned(),
            Feature::WindowsSandboxElevated => "windows_sandbox_elevated".to_owned(),
        }
    }
}

/// The key of the deprecated boolean toggle that predates the named features,
/// recognized for backward compatibility.
pub open spec fn spec_experimental_key() -> Seq<char> {
    "enable_experimental_windows_sandbox"@
}

/// The deprecated experimental toggle's configuration key.
pub fn experimental_key() -> (r: String)
    ensures
        r@ == spec_experimental_key(),
{
    "enable_experimental_windows_sandbox".to_owned()
}

/// One feature entry: a key and whether that feature is enabled.
#[derive(Clone, Debug, PartialEq, Eq)]
pub struct FlagEntry {
    /// The feature key this entry sets.
    pub key: String,
    /// Whether the feature is enabled.
    pub value: bool,
}

/// What a sequence of entries associates with `key`: the value of the first
/// entry carrying the key, or nothing when no entry does.
pub open spec fn spec_get(entries: Seq<FlagEntry>, key: Seq<char>) -> Option<bool>
    decreases entries.len(),
{
    if entries.len() == 0 {
        None
    } else if entries[0].key@ == key {
        Some(entries[0].value)
    } else {
        spec_get(entries.subrange(1, entries.len() as int), key)
    }
}

/// Whether some entry carries `key`, whatever its value.
pub open spec fn spec_has_key(entries: Seq<FlagEntry>, key: Seq<char>) -> bool {
    spec_get(entries, key) is Some
}

/// Whether `key` is present and enabled; a missing key counts as disabled.
pub open spec fn spec_flag(entries: Seq<FlagEntry>, key: Seq<char>) -> bool {
    spec_get(entries, key) == Some(true)
}

/// The value associated with `key`, or nothing when the key is absent.
pub fn entries_get(entries: &Vec<FlagEntry>, key: &String) -> (r: Option<bool>)
    ensures
        r == spec_get(entries@, key@),
{
    let ghost s = entries@;
    let n = entries.len();
    proof {
        assert(s.subrange(0, n as int) =~= s);
    }
    for i in 0..n
        invariant
            n == s.len(),
            s == entries@,
            spec_get(s, key@) == spec_get(s.subrange(i as int, n as int), key@),
    {
        if entries[i].key == *key {
            proof {
                assert(s.subrange(i as int, n as int)[0] == s[i as int]);
            }
            return Some(entries[i].value);
        }
        proof {
            assert(s.subrange(i as int, n as int)[0] == s[i as int]);
            assert(s.subrange(i as int, n as int).subrange(1, n - i) =~= s.subrange(
                i + 1,
                n as int,
            ));
        }
    }
    proof {
        assert(s.subrange(n as int, n as int).len() == 0);
    }
    None
}

/// Whether the entries carry `key` at all, whatever its value.
pub fn entries_contains_key(entries: &Vec<FlagEntry>, key: &String) -> (r: bool)
    ensures
        r == spec_has_key(entries@, key@),
{
    entries_get(entries, key).is_some()
}

/// Whether `key` is present and enabled; a missing key counts as disabled.
pub fn entries_flag_enabled(entries: &Vec<FlagEntry>, key: &String) -> (r: bool)
    ensures
        r == spec_flag(entries@, key@),
{
    match entries_get(entries, key) {
        Some(value) => value,
        None => false,
    }
}

/// A read-only mapping of feature keys to booleans, with the entries in the
/// order the configuration gave them.
#[derive(Clone, Debug, PartialEq, Eq)]
pub struct FeatureFlags {
    /// The key/value entries of the mapping.
    pub entries: Vec<FlagEntry>,
}

impl FeatureFlags {
    /// Whether `feature` is enabled; a feature whose key is absent is disabled.
    pub fn enabled(&self, feature: Feature) -> (r: bool)
        ensures
            r == spec_flag(self.entries@, feature.spec_key()),
    {
        entries_flag_enabled(&self.entries, &feature.key())
    }
}

} // verus!
