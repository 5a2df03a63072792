//! The safe-area record handed to the host when the safe area is enabled.

use vstd::prelude::*;

use crate::appearance::AppearanceConfig;

verus! {

/// Safe area configuration options.
pub struct SafeAreaConfig {
    /// Offset for the safe area.
    pub offset: i32,
    /// Additional appearance configurations.
    pub appearance: AppearanceConfig,
}

} // verus!
