//! What the harness reads from its configuration.

use crate::config::auth::DummyAuthConfig;
use crate::features::FileSystemFeature;
use crate::flags::FileFlags;
use vstd::prelude::*;

pub mod auth;

verus! {

/// Settings that every feature understands. There are none yet.
#[derive(Clone, Copy, Debug, PartialEq, Eq, Structural)]
pub struct CommonFeatureConfig {}

impl Default for CommonFeatureConfig {
    fn default() -> (config: Self)
        ensures
            config == (CommonFeatureConfig {  }),
    {
        CommonFeatureConfig {  }
    }
}

/// The optional capabilities that the filesystem under test is declared to
/// have.
#[derive(Debug, PartialEq, Eq)]
pub struct FeaturesConfig {
    /// File flags that the filesystem can store.
    pub file_flags: Vec<FileFlags>,
    /// A second filesystem, for tests that cross from one to another.
    pub secondary_fs: Option<String>,
    /// The enabled features, each with its settings.
    pub fs_features: Vec<(FileSystemFeature, CommonFeatureConfig)>,
}

impl FeaturesConfig {
    /// The enabled features: the keys of `fs_features`, in order.
    pub open spec fn spec_enabled_features(self) -> Seq<FileSystemFeature> {
        self.fs_features@.map_values(|entry: (FileSystemFeature, CommonFeatureConfig)| entry.0)
    }

    /// The enabled features: the keys of `fs_features`, in order.
    pub fn enabled_features(&self) -> (enabled: Vec<FileSystemFeature>)
        ensures
            enabled@ == self.spec_enabled_features(),
    {
        let mut enabled: Vec<FileSystemFeature> = Vec::new();
        let mut i: usize = 0;
        while i < self.fs_features.len()
            invariant
                i <= self.fs_features.len(),
                enabled@ == self.spec_enabled_features().take(i as int),
            decreases self.fs_features.len() - i,
        {
            enabled.push(self.fs_features[i].0);
            assert(self.spec_enabled_features().take(i + 1) =~= self.spec_enabled_features().take(
                i as int,
            ).push(self.fs_features@[i as int].0));
            i += 1;
        }
        assert(self.spec_enabled_features().take(i as int) =~= self.spec_enabled_features());
        enabled
    }
}

impl Default for FeaturesConfig {
    /// No file flags, no second filesystem, no features.
    fn default() -> (config: Self)
        ensures
            config.file_flags@.len() == 0,
            config.secondary_fs is None,
            config.fs_features@.len() == 0,
    {
        FeaturesConfig { file_flags: Vec::new(), secondary_fs: None, fs_features: Vec::new() }
    }
}

/// The nap time that is used when the configuration names none: one second,
/// in nanoseconds.
pub const DEFAULT_NAPTIME: u64 = 1_000_000_000;

/// Settings that depend on the filesystem under test.
#[derive(Clone, Copy, Debug, PartialEq, Eq, Structural)]
pub struct SettingsConfig {
    /// How long to wait for a change of a timestamp to show, in nanoseconds.
    pub naptime: u64,
    /// Whether the filesystem may be mounted anew during the run.
    pub allow_remount: bool,
}

impl Default for SettingsConfig {
    /// A nap of one second, and no mounting anew.
    fn default() -> (settings: Self)
        ensures
            settings == (SettingsConfig { naptime: 1_000_000_000, allow_remount: false }),
    {
        SettingsConfig { naptime: DEFAULT_NAPTIME, allow_remount: false }
    }
}

/// Everything the harness reads from its configuration.
#[derive(Debug, PartialEq, Eq)]
pub struct Config {
    /// The optional capabilities of the filesystem.
    pub features: FeaturesConfig,
    /// The settings.
    pub settings: SettingsConfig,
    /// The identities that test cases may borrow.
    pub dummy_auth: DummyAuthConfig,
}

} // verus!
