use crate::game::GlobalStatus;
use crate::text::str_eq;
use crate::x52pro::device::{BooleanLightMode, LightMode, RedAmberGreenLightMode};
use crate::x52pro::StatusLevelToModeMapper;
use vstd::prelude::*;

verus! {

/// What is wrong with a configuration: a word that names no light mode.
#[derive(Clone, Copy, Debug, PartialEq, Eq, Structural)]
pub enum ConfigError {
    /// The word for the mode of the boolean lights is not one of them.
    UnknownBooleanLightMode,
    /// The word for the mode of the red/amber/green lights is not one of them.
    UnknownRedAmberGreenLightMode,
}

impl BooleanLightMode {
    /// The mode that the word names in a configuration, if it names one.
    pub open spec fn named(token: Seq<char>) -> Option<BooleanLightMode> {
        if token == "off"@ {
            Some(BooleanLightMode::Off)
        } else if token == "on"@ {
            Some(BooleanLightMode::On)
        } else if token == "flash"@ {
            Some(BooleanLightMode::Flash)
        } else {
            None
        }
    }

    /// The word that names the mode in a configuration.
    pub open spec fn name(self) -> Seq<char> {
        match self {
            BooleanLightMode::Off => "off"@,
            BooleanLightMode::On => "on"@,
            BooleanLightMode::Flash => "flash"@,
        }
    }

    /// Returns the mode that the word names in a configuration, or nothing
    /// if it names none.
    pub fn from_token(token: &str) -> (light_mode: Option<BooleanLightMode>)
        ensures
            light_mode == Self::named(token@),
    {
        if str_eq(token, "off") {
            Some(BooleanLightMode::Off)
        } else if str_eq(token, "on") {
            Some(BooleanLightMode::On)
        } else if str_eq(token, "flash") {
            Some(BooleanLightMode::Flash)
        } else {
            None
        }
    }

    /// Returns the word that names the mode in a configuration.
    pub fn token(&self) -> (token: &'static str)
        ensures
            token@ == self.name(),
    {
        match self {
            BooleanLightMode::Off => "off",
            BooleanLightMode::On => "on",
            BooleanLightMode::Flash => "flash",
        }
    }
}

impl RedAmberGreenLightMode {
    /// The mode that the word names in a configuration, if it names one.
    pub open spec fn named(token: Seq<char>) -> Option<RedAmberGreenLightMode> {
        if token == "off"@ {
            Some(RedAmberGreenLightMode::Off)
        } else if token == "red"@ {
            Some(RedAmberGreenLightMode::Red)
        } else if token == "amber"@ {
            Some(RedAmberGreenLightMode::Amber)
        } else if token == "green"@ {
            Some(RedAmberGreenLightMode::Green)
        } else if token == "red-amber"@ {
            Some(RedAmberGreenLightMode::RedAmber)
        } else if token == "red-flash"@ {
            Some(RedAmberGreenLightMode::RedFlash)
        } else if token == "red-amber-flash"@ {
            Some(RedAmberGreenLightMode::RedAmberFlash)
        } else if token == "red-green-flash"@ {
            Some(RedAmberGreenLightMode::RedGreenFlash)
        } else if token == "amber-flash"@ {
            Some(RedAmberGreenLightMode::AmberFlash)
        } else if token == "amber-red-flash"@ {
            Some(RedAmberGreenLightMode::AmberRedFlash)
        } else if token == "amber-green-flash"@ {
            Some(RedAmberGreenLightMode::AmberGreenFlash)
        } else if token == "green-flash"@ {
            Some(RedAmberGreenLightMode::GreenFlash)
        } else if token == "green-amber-flash"@ {
            Some(RedAmberGreenLightMode::GreenAmberFlash)
        } else if token == "green-red-flash"@ {
            Some(RedAmberGreenLightMode::GreenRedFlash)
        } else {
            None
        }
    }

    /// The word that names the mode in a configuration.
    pub open spec fn name(self) -> Seq<char> {
        match self {
            RedAmberGreenLightMode::Off => "off"@,
            RedAmberGreenLightMode::Red => "red"@,
            RedAmberGreenLightMode::Amber => "amber"@,
            RedAmberGreenLightMode::Green => "green"@,
            RedAmberGreenLightMode::RedAmber => "red-amber"@,
            RedAmberGreenLightMode::RedFlash => "red-flash"@,
            RedAmberGreenLightMode::RedAmberFlash => "red-amber-flash"@,
            RedAmberGreenLightMode::RedGreenFlash => "red-green-flash"@,
            RedAmberGreenLightMode::AmberFlash => "amber-flash"@,
            RedAmberGreenLightMode::AmberRedFlash => "amber-red-flash"@,
            RedAmberGreenLightMode::AmberGreenFlash => "amber-green-flash"@,
            RedAmberGreenLightMode::GreenFlash => "green-flash"@,
            RedAmberGreenLightMode::GreenAmberFlash => "green-amber-flash"@,
            RedAmberGreenLightMode::GreenRedFlash => "green-red-flash"@,
        }
    }

    /// Returns the mode that the word names in a configuration, or nothing
    /// if it names none.
    pub fn from_token(token: &str) -> (light_mode: Option<RedAmberGreenLightMode>)
        ensures
            light_mode == Self::named(token@),
    {
        if str_eq(token, "off") {
            Some(RedAmberGreenLightMode::Off)
        } else if str_eq(token, "red") {
            Some(RedAmberGreenLightMode::Red)
        } else if str_eq(token, "amber") {
            Some(RedAmberGreenLightMode::Amber)
        } else if str_eq(token, "green") {
            Some(RedAmberGreenLightMode::Green)
        } else if str_eq(token, "red-amber") {
            Some(RedAmberGreenLightMode::RedAmber)
        } else if str_eq(token, "red-flash") {
            Some(RedAmberGreenLightMode::RedFlash)
        } else if str_eq(token, "red-amber-flash") {
            Some(RedAmberGreenLightMode::RedAmberFlash)
        } else if str_eq(token, "red-green-flash") {
            Some(RedAmberGreenLightMode::RedGreenFlash)
        } else if str_eq(token, "amber-flash") {
            Some(RedAmberGreenLightMode::AmberFlash)
        } else if str_eq(token, "amber-red-flash") {
            Some(RedAmberGreenLightMode::AmberRedFlash)
        } else if str_eq(token, "amber-green-flash") {
            Some(RedAmberGreenLightMode::AmberGreenFlash)
        } else if str_eq(token, "green-flash") {
            Some(RedAmberGreenLightMode::GreenFlash)
        } else if str_eq(token, "green-amber-flash") {
            Some(RedAmberGreenLightMode::GreenAmberFlash)
        } else if str_eq(token, "green-red-flash") {
            Some(RedAmberGreenLightMode::GreenRedFlash)
        } else {
            None
        }
    }

    /// Returns the word that names the mode in a configuration.
    pub fn token(&self) -> (token: &'static str)
        ensures
            token@ == self.name(),
    {
        match self {
            RedAmberGreenLightMode::Off => "off",
            RedAmberGreenLightMode::Red => "red",
            RedAmberGreenLightMode::Amber => "amber",
            RedAmberGreenLightMode::Green => "green",
            RedAmberGreenLightMode::RedAmber => "red-amber",
            RedAmberGreenLightMode::RedFlash => "red-flash",
            RedAmberGreenLightMode::RedAmberFlash => "red-amber-flash",
            RedAmberGreenLightMode::RedGreenFlash => "red-green-flash",
            RedAmberGreenLightMode::AmberFlash => "amber-flash",
            RedAmberGreenLightMode::AmberRedFlash => "amber-red-flash",
            RedAmberGreenLightMode::AmberGreenFlash => "amber-green-flash",
            RedAmberGreenLightMode::GreenFlash => "green-flash",
            RedAmberGreenLightMode::GreenAmberFlash => "green-amber-flash",
            RedAmberGreenLightMode::GreenRedFlash => "green-red-flash",
        }
    }
}

/// The pair of modes that a pair of words names in a configuration, or what
/// is wrong with the first word that names none.
pub open spec fn modes_named(
    boolean: Seq<char>,
    red_amber_green: Seq<char>,
) -> Result<(BooleanLightMode, RedAmberGreenLightMode), ConfigError> {
    match BooleanLightMode::named(boolean) {
        None => Err(ConfigError::UnknownBooleanLightMode),
        Some(boolean_mode) => match RedAmberGreenLightMode::named(red_amber_green) {
            None => Err(ConfigError::UnknownRedAmberGreenLightMode),
            Some(red_amber_green_mode) => Ok((boolean_mode, red_amber_green_mode)),
        },
    }
}

/// Returns the pair of modes that the pair of words names in a configuration.
/// A word that names no mode is an error: no mode is made up for it.
pub fn modes_from_tokens(
    tokens: (&str, &str),
) -> (modes: Result<(BooleanLightMode, RedAmberGreenLightMode), ConfigError>)
    ensures
        modes == modes_named(tokens.0@, tokens.1@),
{
    match BooleanLightMode::from_token(tokens.0) {
        None => Err(ConfigError::UnknownBooleanLightMode),
        Some(boolean_mode) => match RedAmberGreenLightMode::from_token(tokens.1) {
            None => Err(ConfigError::UnknownRedAmberGreenLightMode),
            Some(red_amber_green_mode) => Ok((boolean_mode, red_amber_green_mode)),
        },
    }
}

/// The light modes of each status level for a specific game mode.
#[derive(Clone, Copy, Debug, PartialEq, Eq)]
pub struct ModeConfig {
    pub inactive: (BooleanLightMode, RedAmberGreenLightMode),
    pub active: (BooleanLightMode, RedAmberGreenLightMode),
    pub blocked: (BooleanLightMode, RedAmberGreenLightMode),
    pub alert: (BooleanLightMode, RedAmberGreenLightMode),
}

impl ModeConfig {
    /// The configuration that four pairs of words name, one pair for each
    /// status level, or what is wrong with the first word that names no mode.
    pub open spec fn named(
        inactive: (Seq<char>, Seq<char>),
        active: (Seq<char>, Seq<char>),
        blocked: (Seq<char>, Seq<char>),
        alert: (Seq<char>, Seq<char>),
    ) -> Result<ModeConfig, ConfigError> {
        match modes_named(inactive.0, inactive.1) {
            Err(error) => Err(error),
            Ok(inactive_modes) => match modes_named(active.0, active.1) {
                Err(error) => Err(error),
                Ok(active_modes) => match modes_named(blocked.0, blocked.1) {
                    Err(error) => Err(error),
                    Ok(blocked_modes) => match modes_named(alert.0, alert.1) {
                        Err(error) => Err(error),
                        Ok(alert_modes) => Ok(
                            ModeConfig {
                                inactive: inactive_modes,
                                active: active_modes,
                                blocked: blocked_modes,
                                alert: alert_modes,
                            },
                        ),
                    },
                },
            },
        }
    }

    /// Returns the configuration that the four pairs of words name, one pair
    /// for each status level. A word that names no mode is an error.
    pub fn from_tokens(
        inactive: (&str, &str),
        active: (&str, &str),
        blocked: (&str, &str),
        alert: (&str, &str),
    ) -> (mode_config: Result<ModeConfig, ConfigError>)
        ensures
            mode_config == Self::named(
                (inactive.0@, inactive.1@),
                (active.0@, active.1@),
                (blocked.0@, blocked.1@),
                (alert.0@, alert.1@),
            ),
    {
        let inactive_modes = match modes_from_tokens(inactive) {
            Ok(modes) => modes,
            Err(error) => {
                return Err(error);
            },
        };
        let active_modes = match modes_from_tokens(active) {
            Ok(modes) => modes,
            Err(error) => {
                return Err(error);
            },
        };
        let blocked_modes = match modes_from_tokens(blocked) {
            Ok(modes) => modes,
            Err(error) => {
                return Err(error);
            },
        };
        let alert_modes = match modes_from_tokens(alert) {
            Ok(modes) => modes,
            Err(error) => {
                return Err(error);
            },
        };
        Ok(
            ModeConfig {
                inactive: inactive_modes,
                active: active_modes,
                blocked: blocked_modes,
                alert: alert_modes,
            },
        )
    }

    /// The mapper that gives each status level the light mode configured for
    /// it.
    pub open spec fn mapper(self) -> StatusLevelToModeMapper {
        StatusLevelToModeMapper {
            inactive: light_mode_of(self.inactive),
            active: light_mode_of(self.active),
            blocked: light_mode_of(self.blocked),
            alert: light_mode_of(self.alert),
        }
    }
}

/// Modal configurations as read from a configuration file.
#[derive(Clone, Copy, Debug, PartialEq, Eq)]
pub struct Config {
    pub default: ModeConfig,
    pub hardpoints_deployed: Option<ModeConfig>,
    pub night_vision: Option<ModeConfig>,
}

/// The configuration to start from where there is none.
pub open spec fn default_config() -> Config {
    Config {
        default: ModeConfig {
            inactive: (BooleanLightMode::On, RedAmberGreenLightMode::Green),
            active: (BooleanLightMode::On, RedAmberGreenLightMode::Amber),
            blocked: (BooleanLightMode::Off, RedAmberGreenLightMode::Red),
            alert: (BooleanLightMode::Flash, RedAmberGreenLightMode::RedAmber),
        },
        hardpoints_deployed: Some(
            ModeConfig {
                inactive: (BooleanLightMode::On, RedAmberGreenLightMode::Red),
                active: (BooleanLightMode::On, RedAmberGreenLightMode::Amber),
                blocked: (BooleanLightMode::Off, RedAmberGreenLightMode::Off),
                alert: (BooleanLightMode::Flash, RedAmberGreenLightMode::RedAmber),
            },
        ),
        night_vision: None,
    }
}

impl Default for Config {
    /// Returns the configuration to start from where there is none.
    fn default() -> (config: Config)
        ensures
            config == default_config(),
    {
        Config {
            default: ModeConfig {
                inactive: (BooleanLightMode::On, RedAmberGreenLightMode::Green),
                active: (BooleanLightMode::On, RedAmberGreenLightMode::Amber),
                blocked: (BooleanLightMode::Off, RedAmberGreenLightMode::Red),
                alert: (BooleanLightMode::Flash, RedAmberGreenLightMode::RedAmber),
            },
            hardpoints_deployed: Some(
                ModeConfig {
                    inactive: (BooleanLightMode::On, RedAmberGreenLightMode::Red),
                    active: (BooleanLightMode::On, RedAmberGreenLightMode::Amber),
                    blocked: (BooleanLightMode::Off, RedAmberGreenLightMode::Off),
                    alert: (BooleanLightMode::Flash, RedAmberGreenLightMode::RedAmber),
                },
            ),
            night_vision: None,
        }
    }
}

impl Config {
    /// The mode configuration that applies in the given global status: the
    /// one configured for it, or the default one where there is none.
    pub open spec fn mode_config_for(self, global_status: GlobalStatus) -> ModeConfig {
        match global_status {
            GlobalStatus::Normal => self.default,
            GlobalStatus::HardpointsDeployed => match self.hardpoints_deployed {
                Some(mode_config) => mode_config,
                None => self.default,
            },
            GlobalStatus::NightVisionOn => match self.night_vision {
                Some(mode_config) => mode_config,
                None => self.default,
            },
        }
    }

    /// Returns a `StatusLevelToModeMapper` for the given `GlobalStatus` value,
    /// as configured by the modes held by the instance.
    pub fn status_level_to_mode_mapper(
        &self,
        global_status: GlobalStatus,
    ) -> (mapper: StatusLevelToModeMapper)
        ensures
            mapper == self.mode_config_for(global_status).mapper(),
    {
        let mode_config = match global_status {
            GlobalStatus::Normal => &self.default,
            GlobalStatus::HardpointsDeployed => self.mode_config_or_default(
                &self.hardpoints_deployed,
            ),
            GlobalStatus::NightVisionOn => self.mode_config_or_default(&self.night_vision),
        };

        StatusLevelToModeMapper::new(
            light_mode_from_config_values(mode_config.inactive),
            light_mode_from_config_values(mode_config.active),
            light_mode_from_config_values(mode_config.blocked),
            light_mode_from_config_values(mode_config.alert),
        )
    }

    /// Returns the given mode configuration, or the default one where none
    /// is given.
    pub fn mode_config_or_default<'a>(
        &'a self,
        optional_config: &'a Option<ModeConfig>,
    ) -> (mode_config: &'a ModeConfig)
        ensures
            *mode_config == match *optional_config {
                Some(config) => config,
                None => self.default,
            },
    {
        match optional_config {
            Some(ref mode_config) => mode_config,
            None => &self.default,
        }
    }
}

/// The `LightMode` value corresponding to the mode tuple.
pub open spec fn light_mode_of(value: (BooleanLightMode, RedAmberGreenLightMode)) -> LightMode {
    LightMode { boolean: value.0, red_amber_green: value.1 }
}

/// Returns the `LightMode` value corresponding to the mode tuple.
pub fn light_mode_from_config_values(
    value: (BooleanLightMode, RedAmberGreenLightMode),
) -> (light_mode: LightMode)
    ensures
        light_mode == light_mode_of(value),
{
    let (boolean, red_amber_green) = value;
    LightMode::new(boolean, red_amber_green)
}

/// The word that names a mode names no other: reading the word of a mode
/// gives the mode back.
pub proof fn law_mode_names_are_distinct(
    boolean: BooleanLightMode,
    red_amber_green: RedAmberGreenLightMode,
)
    ensures
        BooleanLightMode::named(boolean.name()) == Some(boolean),
        RedAmberGreenLightMode::named(red_amber_green.name()) == Some(red_amber_green),
        modes_named(boolean.name(), red_amber_green.name()) == Ok::<
            (BooleanLightMode, RedAmberGreenLightMode),
            ConfigError,
        >((boolean, red_amber_green)),
{
    reveal_strlit("off");
    reveal_strlit("on");
    reveal_strlit("flash");
    reveal_strlit("red");
    reveal_strlit("amber");
    reveal_strlit("green");
    reveal_strlit("red-amber");
    reveal_strlit("red-flash");
    reveal_strlit("red-amber-flash");
    reveal_strlit("red-green-flash");
    reveal_strlit("amber-flash");
    reveal_strlit("amber-red-flash");
    reveal_strlit("amber-green-flash");
    reveal_strlit("green-flash");
    reveal_strlit("green-amber-flash");
    reveal_strlit("green-red-flash");
    // Words of different lengths differ.
    assert("off"@.len() == 3 && "on"@.len() == 2 && "flash"@.len() == 5);
    assert("red"@.len() == 3 && "amber"@.len() == 5 && "green"@.len() == 5);
    assert("red-amber"@.len() == 9 && "red-flash"@.len() == 9);
    assert("amber-flash"@.len() == 11 && "green-flash"@.len() == 11);
    assert("red-amber-flash"@.len() == 15 && "red-green-flash"@.len() == 15);
    assert("amber-red-flash"@.len() == 15 && "green-red-flash"@.len() == 15);
    assert("amber-green-flash"@.len() == 17 && "green-amber-flash"@.len() == 17);
    // Words of one length differ in their first letter, or in the first
    // letter of their second colour.
    assert("off"@[0] == 'o' && "red"@[0] == 'r');
    assert("amber"@[0] == 'a' && "green"@[0] == 'g');
    assert("red-amber"@[4] == 'a' && "red-flash"@[4] == 'f');
    assert("amber-flash"@[0] == 'a' && "green-flash"@[0] == 'g');
    assert("red-amber-flash"@[0] == 'r' && "red-amber-flash"@[4] == 'a');
    assert("red-green-flash"@[0] == 'r' && "red-green-flash"@[4] == 'g');
    assert("amber-red-flash"@[0] == 'a' && "green-red-flash"@[0] == 'g');
    assert("amber-green-flash"@[0] == 'a' && "green-amber-flash"@[0] == 'g');
}

} // verus!
