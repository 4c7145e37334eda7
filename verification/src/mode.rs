//! The mode resolver: from the raw, not-yet-merged document and profile
//! fragments to an optional two-valued sandbox mode, honoring legacy flags
//! first and falling back to structured settings.

use crate::config::ConfigDocument;
use crate::config::ConfigProfile;
use crate::config::WindowsSandboxMode;
use crate::config::WindowsSettings;
use crate::flags::Feature;
use crate::flags::FeatureFlags;
use crate::flags::FlagEntry;
use crate::flags::entries_contains_key;
use crate::flags::entries_flag_enabled;
use crate::flags::experimental_key;
use crate::flags::spec_experimental_key;
use crate::flags::spec_flag;
use crate::flags::spec_has_key;
use vstd::prelude::*;

verus! {

/// The mode the legacy flag entries resolve to: the elevated key wins; else
/// the base key or the deprecated experimental key yields the unelevated
/// mode; else nothing. A missing key counts as false, never as an error.
pub open spec fn spec_legacy_mode_from_entries(entries: Seq<FlagEntry>) -> Option<
    WindowsSandboxMode,
> {
    if spec_flag(entries, Feature::WindowsSandboxElevated.spec_key()) {
        Some(WindowsSandboxMode::Elevated)
    } else if spec_flag(entries, Feature::WindowsSandbox.spec_key()) || spec_flag(
        entries,
        spec_experimental_key(),
    ) {
        Some(WindowsSandboxMode::Unelevated)
    } else {
        None
    }
}

/// Whether any of the three legacy keys is present in the entries at all,
/// whatever its value.
pub open spec fn spec_legacy_keys_present(entries: Seq<FlagEntry>) -> bool {
    ||| spec_has_key(entries, Feature::WindowsSandboxElevated.spec_key())
    ||| spec_has_key(entries, Feature::WindowsSandbox.spec_key())
    ||| spec_has_key(entries, spec_experimental_key())
}

/// The legacy mode of an optional feature-flag mapping; an absent mapping
/// yields nothing.
pub open spec fn spec_legacy_mode(features: Option<FeatureFlags>) -> Option<WindowsSandboxMode> {
    match features {
        Some(f) => spec_legacy_mode_from_entries(f.entries@),
        None => None,
    }
}

/// Whether an optional feature-flag mapping carries any legacy key; an absent
/// mapping carries none.
pub open spec fn spec_keys_present(features: Option<FeatureFlags>) -> bool {
    match features {
        Some(f) => spec_legacy_keys_present(f.entries@),
        None => false,
    }
}

/// The structured sandbox setting of an optional Windows section.
pub open spec fn spec_setting(windows: Option<WindowsSettings>) -> Option<WindowsSandboxMode> {
    match windows {
        Some(w) => w.sandbox,
        None => None,
    }
}

/// The mode the raw fragments resolve to, first match winning: the profile's
/// legacy flags; then, if the profile touched any legacy key without yielding
/// a mode, nothing (an explicit opt-out that must not be overridden); then the
/// profile's structured setting; then the document's structured setting; then
/// the document's legacy flags.
pub open spec fn spec_resolved_mode(cfg: ConfigDocument, profile: ConfigProfile) -> Option<
    WindowsSandboxMode,
> {
    if spec_legacy_mode(profile.features) is Some {
        spec_legacy_mode(profile.features)
    } else if spec_keys_present(profile.features) {
        None
    } else if spec_setting(profile.windows) is Some {
        spec_setting(profile.windows)
    } else if spec_setting(cfg.windows) is Some {
        spec_setting(cfg.windows)
    } else {
        spec_legacy_mode(cfg.features)
    }
}

/// The mode the legacy flag entries resolve to.
pub fn legacy_windows_sandbox_mode_from_entries(entries: &Vec<FlagEntry>) -> (r: Option<
    WindowsSandboxMode,
>)
    ensures
        r == spec_legacy_mode_from_entries(entries@),
{
    if entries_flag_enabled(entries, &Feature::WindowsSandboxElevated.key()) {
        return Some(WindowsSandboxMode::Elevated);
    }
    if entries_flag_enabled(entries, &Feature::WindowsSandbox.key()) || entries_flag_enabled(
        entries,
        &experimental_key(),
    ) {
        Some(WindowsSandboxMode::Unelevated)
    } else {
        None
    }
}

/// The mode an optional feature-flag mapping's legacy keys resolve to.
pub fn legacy_windows_sandbox_mode(features: Option<&FeatureFlags>) -> (r: Option<
    WindowsSandboxMode,
>)
    ensures
        r == (match features {
            Some(f) => spec_legacy_mode_from_entries(f.entries@),
            None => None::<WindowsSandboxMode>,
        }),
{
    match features {
        Some(f) => legacy_windows_sandbox_mode_from_entries(&f.entries),
        None => None,
    }
}

/// Whether an optional feature-flag mapping carries any of the three legacy
/// keys at all, even one set to false.
pub fn legacy_windows_sandbox_keys_present(features: Option<&FeatureFlags>) -> (r: bool)
    ensures
        r == (match features {
            Some(f) => spec_legacy_keys_present(f.entries@),
            None => false,
        }),
{
    match features {
        Some(f) => {
            entries_contains_key(&f.entries, &Feature::WindowsSandboxElevated.key())
                || entries_contains_key(&f.entries, &Feature::WindowsSandbox.key())
                || entries_contains_key(&f.entries, &experimental_key())
        },
        None => false,
    }
}

/// The mode the raw document and profile fragments resolve to, with the
/// precedence `spec_resolved_mode` states.
pub fn resolve_windows_sandbox_mode(cfg: &ConfigDocument, profile: &ConfigProfile) -> (r: Option<
    WindowsSandboxMode,
>)
    ensures
        r == spec_resolved_mode(*cfg, *profile),
{
    if let Some(mode) = legacy_windows_sandbox_mode(profile.features.as_ref()) {
        return Some(mode);
    }
    if legacy_windows_sandbox_keys_present(profile.features.as_ref()) {
        return None;
    }
    let profile_setting = match &profile.windows {
        Some(w) => w.sandbox,
        None => None,
    };
    if let Some(mode) = profile_setting {
        return Some(mode);
    }
    let document_setting = match &cfg.windows {
        Some(w) => w.sandbox,
        None => None,
    };
    if let Some(mode) = document_setting {
        return Some(mode);
    }
    legacy_windows_sandbox_mode(cfg.features.as_ref())
}

/// Legacy flags on the profile win outright: when they yield a mode, that
/// mode is the resolution, whatever the document says.
pub proof fn lemma_profile_legacy_flags_win(
    cfg: ConfigDocument,
    profile: ConfigProfile,
    mode: WindowsSandboxMode,
)
    requires
        spec_legacy_mode(profile.features) == Some(mode),
    ensures
        spec_resolved_mode(cfg, profile) == Some(mode),
{
}

/// The opt-out guard: a profile that touches a legacy key without any key
/// enabling the sandbox resolves to "not set", never falling through to a
/// structured setting or to the document.
pub proof fn lemma_opt_out_guard(cfg: ConfigDocument, profile: ConfigProfile)
    requires
        spec_keys_present(profile.features),
        spec_legacy_mode(profile.features) is None,
    ensures
        spec_resolved_mode(cfg, profile) is None,
{
}

/// The deprecated experimental key is equivalent to the base key: two entry
/// sequences that agree on the elevated key and on the disjunction of the
/// base and experimental keys resolve to the same legacy mode.
pub proof fn lemma_experimental_key_equivalence(e1: Seq<FlagEntry>, e2: Seq<FlagEntry>)
    requires
        spec_flag(e1, Feature::WindowsSandboxElevated.spec_key()) == spec_flag(
            e2,
            Feature::WindowsSandboxElevated.spec_key(),
        ),
        (spec_flag(e1, Feature::WindowsSandbox.spec_key()) || spec_flag(
            e1,
            spec_experimental_key(),
        )) == (spec_flag(e2, Feature::WindowsSandbox.spec_key()) || spec_flag(
            e2,
            spec_experimental_key(),
        )),
    ensures
        spec_legacy_mode_from_entries(e1) == spec_legacy_mode_from_entries(e2),
{
}

/// Full fallback to the document's structured setting: a profile with no
/// legacy keys, no legacy mode and no structured setting of its own takes the
/// document's setting when the document carries one.
pub proof fn lemma_document_setting_fallback(cfg: ConfigDocument, profile: ConfigProfile)
    requires
        spec_legacy_mode(profile.features) is None,
        !spec_keys_present(profile.features),
        spec_setting(profile.windows) is None,
        spec_setting(cfg.windows) is Some,
    ensures
        spec_resolved_mode(cfg, profile) == spec_setting(cfg.windows),
{
}

} // verus!
