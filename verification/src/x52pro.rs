pub mod device;
pub mod light_mode_to_state_mapper;
pub mod status_level_to_mode_mapper;

pub use light_mode_to_state_mapper::{LightModeToStateMapper, ALERT_FLASH_MILLISECONDS};
pub use status_level_to_mode_mapper::StatusLevelToModeMapper;
