use crate::game::StatusLevel;
use crate::x52pro::device::LightMode;
use vstd::prelude::*;

verus! {

/// Maps status levels to light modes based on the given configuration.
#[derive(Clone, Copy, Debug, PartialEq, Eq, Structural)]
pub struct StatusLevelToModeMapper {
    pub inactive: LightMode,
    pub active: LightMode,
    pub blocked: LightMode,
    pub alert: LightMode,
}

impl StatusLevelToModeMapper {
    /// The light mode configured for the status level.
    pub open spec fn mode_for(self, status_level: StatusLevel) -> LightMode {
        match status_level {
            StatusLevel::Inactive => self.inactive,
            StatusLevel::Active => self.active,
            StatusLevel::Blocked => self.blocked,
            StatusLevel::Alert => self.alert,
        }
    }

    /// Returns a new instance of the mapper.
    pub fn new(
        inactive: LightMode,
        active: LightMode,
        blocked: LightMode,
        alert: LightMode,
    ) -> (mapper: Self)
        ensures
            mapper.inactive == inactive,
            mapper.active == active,
            mapper.blocked == blocked,
            mapper.alert == alert,
    {
        Self { inactive, active, blocked, alert }
    }

    /// Returns the light mode configured for the status level.
    pub fn map(&self, status_level: &StatusLevel) -> (light_mode: LightMode)
        ensures
            light_mode == self.mode_for(*status_level),
    {
        match status_level {
            StatusLevel::Inactive => self.inactive,
            StatusLevel::Active => self.active,
            StatusLevel::Blocked => self.blocked,
            StatusLevel::Alert => self.alert,
        }
    }
}

} // verus!
