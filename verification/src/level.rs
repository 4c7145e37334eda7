//! The level resolver: from the fully merged configuration (or, failing a
//! structured setting there, from the merged feature flags) to the effective
//! three-valued sandbox level.

use crate::config::Config;
use crate::config::WindowsSandboxMode;
use crate::flags::Feature;
use crate::flags::FeatureFlags;
use crate::flags::FlagEntry;
use crate::flags::spec_flag;
use vstd::prelude::*;

verus! {

/// The effective, fully resolved isolation strength, ordered by strength:
/// `Elevated` is stronger than `RestrictedToken`, which is stronger than
/// `Disabled`.
#[derive(Clone, Copy, Debug, PartialEq, Eq, Structural)]
pub enum WindowsSandboxLevel {
    /// No sandbox at all.
    Disabled,
    /// A sandbox built from a restricted token, without elevation.
    RestrictedToken,
    /// An elevated sandbox.
    Elevated,
}

/// The level the feature flags resolve to: the elevated toggle wins
/// unconditionally; otherwise the base toggle decides between a restricted
/// token and no sandbox.
pub open spec fn spec_level_from_features(entries: Seq<FlagEntry>) -> WindowsSandboxLevel {
    if spec_flag(entries, Feature::WindowsSandboxElevated.spec_key()) {
        WindowsSandboxLevel::Elevated
    } else if spec_flag(entries, Feature::WindowsSandbox.spec_key()) {
        WindowsSandboxLevel::RestrictedToken
    } else {
        WindowsSandboxLevel::Disabled
    }
}

/// The level a merged configuration resolves to: a structured setting, when
/// present, is mapped directly and the flags are never consulted; otherwise
/// the flags decide.
pub open spec fn spec_level_from_config(config: Config) -> WindowsSandboxLevel {
    match config.windows_sandbox_mode {
        Some(WindowsSandboxMode::Elevated) => WindowsSandboxLevel::Elevated,
        Some(WindowsSandboxMode::Unelevated) => WindowsSandboxLevel::RestrictedToken,
        None => spec_level_from_features(config.features.entries@),
    }
}

/// Resolution of the effective sandbox level, attached to the level type.
pub trait WindowsSandboxLevelExt {
    /// The level the merged configuration resolves to.
    fn from_config(config: &Config) -> (r: WindowsSandboxLevel)
        ensures
            r == spec_level_from_config(*config),
    ;

    /// The level the merged feature flags alone resolve to.
    fn from_features(features: &FeatureFlags) -> (r: WindowsSandboxLevel)
        ensures
            r == spec_level_from_features(features.entries@),
    ;
}

impl WindowsSandboxLevelExt for WindowsSandboxLevel {
    fn from_config(config: &Config) -> (r: WindowsSandboxLevel) {
        match config.windows_sandbox_mode {
            Some(WindowsSandboxMode::Elevated) => WindowsSandboxLevel::Elevated,
            Some(WindowsSandboxMode::Unelevated) => WindowsSandboxLevel::RestrictedToken,
            None => Self::from_features(&config.features),
        }
    }

    fn from_features(features: &FeatureFlags) -> (r: WindowsSandboxLevel) {
        if features.enabled(Feature::WindowsSandboxElevated) {
            return WindowsSandboxLevel::Elevated;
        }
        if features.enabled(Feature::WindowsSandbox) {
            WindowsSandboxLevel::RestrictedToken
        } else {
            WindowsSandboxLevel::Disabled
        }
    }
}

/// The level the merged configuration resolves to.
pub fn windows_sandbox_level_from_config(config: &Config) -> (r: WindowsSandboxLevel)
    ensures
        r == spec_level_from_config(*config),
{
    WindowsSandboxLevel::from_config(config)
}

/// The level the merged feature flags alone resolve to.
pub fn windows_sandbox_level_from_features(features: &FeatureFlags) -> (r: WindowsSandboxLevel)
    ensures
        r == spec_level_from_features(features.entries@),
{
    WindowsSandboxLevel::from_features(features)
}

/// Level resolution is total: every configuration resolves to exactly one of
/// the three levels; no input is rejected and no input fails.
pub proof fn lemma_level_resolution_total(config: Config)
    ensures
        spec_level_from_config(config) is Disabled || spec_level_from_config(config)
            is RestrictedToken || spec_level_from_config(config) is Elevated,
{
}

/// The flags form a strict priority chain: the elevated toggle wins whatever
/// the base toggle says; only then does the base toggle decide between a
/// restricted token and no sandbox.
pub proof fn lemma_flag_priority(entries: Seq<FlagEntry>)
    ensures
        spec_flag(entries, Feature::WindowsSandboxElevated.spec_key())
            ==> spec_level_from_features(entries) == WindowsSandboxLevel::Elevated,
        !spec_flag(entries, Feature::WindowsSandboxElevated.spec_key()) && spec_flag(
            entries,
            Feature::WindowsSandbox.spec_key(),
        ) ==> spec_level_from_features(entries) == WindowsSandboxLevel::RestrictedToken,
        !spec_flag(entries, Feature::WindowsSandboxElevated.spec_key()) && !spec_flag(
            entries,
            Feature::WindowsSandbox.spec_key(),
        ) ==> spec_level_from_features(entries) == WindowsSandboxLevel::Disabled,
{
}

/// A structured setting overrides the flags: two configurations that carry the
/// same explicit setting resolve to the same level, whatever their flags, and
/// that level is the direct image of the setting.
pub proof fn lemma_structured_setting_overrides(c1: Config, c2: Config)
    requires
        c1.windows_sandbox_mode is Some,
        c1.windows_sandbox_mode == c2.windows_sandbox_mode,
    ensures
        spec_level_from_config(c1) == spec_level_from_config(c2),
        spec_level_from_config(c1) == (if c1.windows_sandbox_mode == Some(
            WindowsSandboxMode::Elevated,
        ) {
            WindowsSandboxLevel::Elevated
        } else {
            WindowsSandboxLevel::RestrictedToken
        }),
{
}

} // verus!
