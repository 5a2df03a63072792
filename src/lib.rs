//! Appearance and safe-area configuration for a host application's system
//! bars, with field-level defaults, and the ping round trip of the plugin.

pub mod appearance;
pub mod input;
pub mod ping;
pub mod safe_area;

pub use appearance::{
    default_custom_colors_for_system_bars, default_navigation_bar_color,
    default_navigation_bar_content, default_status_bar_color, default_status_bar_content,
    AppearanceConfig, AppearanceFields,
};
pub use input::{JsonField, JsonInput};
pub use ping::{ping, PingRequest, PingResponse};
pub use safe_area::SafeAreaConfig;
