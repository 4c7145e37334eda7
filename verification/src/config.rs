//! The configuration values the resolvers read: the structured sandbox
//! setting, the raw per-document and per-profile fragments, and the fully
//! merged runtime configuration.

use crate::flags::FeatureFlags;
use vstd::prelude::*;

verus! {

/// The two-valued structured sandbox setting found in raw configuration.
/// Absence of a value means "not set"; there is no disabled variant.
#[derive(Clone, Copy, Debug, PartialEq, Eq, Structural)]
pub enum WindowsSandboxMode {
    /// Run the sandbox with an elevated token.
    Elevated,
    /// Run the sandbox without elevation.
    Unelevated,
}

/// The Windows section of a raw configuration fragment.
#[derive(Clone, Debug, PartialEq, Eq)]
pub struct WindowsSettings {
    /// The structured sandbox setting, when the fragment carries one.
    pub sandbox: Option<WindowsSandboxMode>,
}

/// The global (document-level) raw configuration fragment.
#[derive(Clone, Debug, PartialEq, Eq)]
pub struct ConfigDocument {
    /// The document's Windows section, when present.
    pub windows: Option<WindowsSettings>,
    /// The document's feature-flag mapping, when present.
    pub features: Option<FeatureFlags>,
}

/// A named profile overlay: a raw fragment that takes precedence over the
/// document it belongs to.
#[derive(Clone, Debug, PartialEq, Eq)]
pub struct ConfigProfile {
    /// The profile's Windows section, when present.
    pub windows: Option<WindowsSettings>,
    /// The profile's feature-flag mapping, when present.
    pub features: Option<FeatureFlags>,
}

/// The fully merged runtime configuration: one structured sandbox setting and
/// one merged feature-flag mapping.
#[derive(Clone, Debug, PartialEq, Eq)]
pub struct Config {
    /// The merged structured sandbox setting, when any layer set one.
    pub windows_sandbox_mode: Option<WindowsSandboxMode>,
    /// The merged feature flags.
    pub features: FeatureFlags,
}

} // verus!
