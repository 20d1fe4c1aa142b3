//! Plugin configuration.

use vstd::prelude::*;

use crate::loader::{PmxLoaderSettings, default_loader_settings};

verus! {

#[derive(Debug, Clone, Copy)]
pub struct PmxPlugin {
    pub settings: PmxLoaderSettings,
}

impl PmxPlugin {
    pub fn new() -> (r: Self)
        ensures
            default_loader_settings(r.settings),
    {
        PmxPlugin { settings: PmxLoaderSettings::default() }
    }

    pub fn with_settings(settings: PmxLoaderSettings) -> (r: Self)
        ensures
            r.settings == settings,
    {
        PmxPlugin { settings }
    }
}

impl Default for PmxPlugin {
    fn default() -> (r: Self)
        ensures
            default_loader_settings(r.settings),
    {
        PmxPlugin::new()
    }
}

} // verus!
