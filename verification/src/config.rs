//! The settings of the controller.

use vstd::prelude::*;

use crate::k8s::Interval;

verus! {

/// The settings for reconciling user accounts.
#[derive(Clone, Copy, Debug, PartialEq, Eq, Structural)]
pub struct AtlasUserConfig {
    /// How long to wait before a resource is looked at again.
    pub requeue_duration: Interval,
    /// Whether the remote account may be deleted when its resource is.
    /// While this is off a deletion waits: the finalizer stays on the
    /// resource until the setting is turned on or the finalizer is removed by
    /// hand.
    pub safe_to_delete: bool,
}

impl Default for AtlasUserConfig {
    fn default() -> (config: Self)
        ensures
            config.requeue_duration == (Interval { secs: 60, nanos: 0 }),
            !config.safe_to_delete,
    {
        AtlasUserConfig { requeue_duration: Interval::from_secs(60), safe_to_delete: false }
    }
}

/// The settings of the whole controller.
#[derive(Clone, Copy, Debug, PartialEq, Eq, Structural)]
pub struct Config {
    pub atlas_user: AtlasUserConfig,
}

impl Default for Config {
    fn default() -> (config: Self)
        ensures
            config.atlas_user.requeue_duration == (Interval { secs: 60, nanos: 0 }),
            !config.atlas_user.safe_to_delete,
    {
        Config { atlas_user: AtlasUserConfig::default() }
    }
}

} // verus!
