use edxlc::config::{
    light_mode_from_config_values, modes_from_tokens, Config, ConfigError, ModeConfig,
};
use edxlc::game::GlobalStatus;
use edxlc::x52pro::device::{BooleanLightMode, LightMode, RedAmberGreenLightMode};
use edxlc::x52pro::StatusLevelToModeMapper;

#[test]
fn config_status_level_to_mode_mapper_returns_configured_mapped() {
    let default_light_config = (BooleanLightMode::On, RedAmberGreenLightMode::Green);
    let other_light_config = (BooleanLightMode::Off, RedAmberGreenLightMode::Red);

    let default_light_mode = LightMode {
        boolean: default_light_config.0,
        red_amber_green: default_light_config.1,
    };

    let config = Config {
        default: ModeConfig {
            inactive: default_light_config,
            active: default_light_config,
            blocked: default_light_config,
            alert: default_light_config,
        },
        hardpoints_deployed: Some(ModeConfig {
            inactive: other_light_config,
            active: other_light_config,
            blocked: other_light_config,
            alert: other_light_config,
        }),
        night_vision: None,
    };

    let actual_mapper = config.status_level_to_mode_mapper(GlobalStatus::Normal);
    let expected_mapper = StatusLevelToModeMapper {
        inactive: default_light_mode,
        active: default_light_mode,
        blocked: default_light_mode,
        alert: default_light_mode,
    };

    assert_eq!(actual_mapper, expected_mapper);
}

#[test]
fn config_status_level_to_mode_mapper_returns_night_vision_mapper() {
    let default_light_config = (BooleanLightMode::On, RedAmberGreenLightMode::Green);
    let night_vision_light_config = (BooleanLightMode::Off, RedAmberGreenLightMode::Off);

    let config = Config {
        default: ModeConfig {
            inactive: default_light_config,
            active: default_light_config,
            blocked: default_light_config,
            alert: default_light_config,
        },
        hardpoints_deployed: None,
        night_vision: Some(ModeConfig {
            inactive: night_vision_light_config,
            active: night_vision_light_config,
            blocked: night_vision_light_config,
            alert: night_vision_light_config,
        }),
    };

    let actual_mapper = config.status_level_to_mode_mapper(GlobalStatus::NightVisionOn);

    let expected_light_mode = LightMode {
        boolean: night_vision_light_config.0,
        red_amber_green: night_vision_light_config.1,
    };
    let expected_mapper = StatusLevelToModeMapper {
        inactive: expected_light_mode,
        active: expected_light_mode,
        blocked: expected_light_mode,
        alert: expected_light_mode,
    };

    assert_eq!(actual_mapper, expected_mapper);
}

#[test]
fn config_status_level_to_mode_mapper_returns_defaults() {
    let default_light_config = (BooleanLightMode::On, RedAmberGreenLightMode::Green);

    let default_light_mode = LightMode {
        boolean: default_light_config.0,
        red_amber_green: default_light_config.1,
    };

    let config_without_hardpoints_deployed = Config {
        default: ModeConfig {
            inactive: default_light_config,
            active: default_light_config,
            blocked: default_light_config,
            alert: default_light_config,
        },
        hardpoints_deployed: None,
        night_vision: None,
    };

    let expected_mapper = StatusLevelToModeMapper {
        inactive: default_light_mode,
        active: default_light_mode,
        blocked: default_light_mode,
        alert: default_light_mode,
    };

    let global_statuses = vec![
        GlobalStatus::Normal,
        GlobalStatus::HardpointsDeployed,
        GlobalStatus::NightVisionOn,
    ];

    for global_status in global_statuses {
        let actual_mapper =
            config_without_hardpoints_deployed.status_level_to_mode_mapper(global_status);

        assert_eq!(actual_mapper, expected_mapper);
    }
}

#[test]
fn config_status_level_to_mode_mapper_returns_hardpoints_deployed_mapper() {
    let config = Config::default();
    let mapper = config.status_level_to_mode_mapper(GlobalStatus::HardpointsDeployed);
    assert_eq!(
        mapper,
        StatusLevelToModeMapper {
            inactive: LightMode::new(BooleanLightMode::On, RedAmberGreenLightMode::Red),
            active: LightMode::new(BooleanLightMode::On, RedAmberGreenLightMode::Amber),
            blocked: LightMode::new(BooleanLightMode::Off, RedAmberGreenLightMode::Off),
            alert: LightMode::new(BooleanLightMode::Flash, RedAmberGreenLightMode::RedAmber),
        }
    );
    // Each level keeps its own pair: none is mixed up with another.
    let mapper = config.status_level_to_mode_mapper(GlobalStatus::Normal);
    assert_eq!(
        mapper,
        StatusLevelToModeMapper {
            inactive: LightMode::new(BooleanLightMode::On, RedAmberGreenLightMode::Green),
            active: LightMode::new(BooleanLightMode::On, RedAmberGreenLightMode::Amber),
            blocked: LightMode::new(BooleanLightMode::Off, RedAmberGreenLightMode::Red),
            alert: LightMode::new(BooleanLightMode::Flash, RedAmberGreenLightMode::RedAmber),
        }
    );
}

#[test]
fn default_config_has_no_night_vision_modes() {
    let config = Config::default();
    assert_eq!(config.night_vision, None);
    assert_eq!(
        config.status_level_to_mode_mapper(GlobalStatus::NightVisionOn),
        config.status_level_to_mode_mapper(GlobalStatus::Normal)
    );
    assert_eq!(
        *config.mode_config_or_default(&config.night_vision),
        config.default
    );
    assert_eq!(
        Some(*config.mode_config_or_default(&config.hardpoints_deployed)),
        config.hardpoints_deployed
    );
}

#[test]
fn light_mode_from_config_values_keeps_both_modes() {
    assert_eq!(
        light_mode_from_config_values((BooleanLightMode::Flash, RedAmberGreenLightMode::Amber)),
        LightMode {
            boolean: BooleanLightMode::Flash,
            red_amber_green: RedAmberGreenLightMode::Amber
        }
    );
}

fn red_amber_green_tokens() -> Vec<(&'static str, RedAmberGreenLightMode)> {
    vec![
        ("off", RedAmberGreenLightMode::Off),
        ("red", RedAmberGreenLightMode::Red),
        ("amber", RedAmberGreenLightMode::Amber),
        ("green", RedAmberGreenLightMode::Green),
        ("red-amber", RedAmberGreenLightMode::RedAmber),
        ("red-flash", RedAmberGreenLightMode::RedFlash),
        ("red-amber-flash", RedAmberGreenLightMode::RedAmberFlash),
        ("red-green-flash", RedAmberGreenLightMode::RedGreenFlash),
        ("amber-flash", RedAmberGreenLightMode::AmberFlash),
        ("amber-red-flash", RedAmberGreenLightMode::AmberRedFlash),
        ("amber-green-flash", RedAmberGreenLightMode::AmberGreenFlash),
        ("green-flash", RedAmberGreenLightMode::GreenFlash),
        ("green-amber-flash", RedAmberGreenLightMode::GreenAmberFlash),
        ("green-red-flash", RedAmberGreenLightMode::GreenRedFlash),
    ]
}

#[test]
fn mode_tokens_name_their_modes() {
    for (token, mode) in vec![
        ("off", BooleanLightMode::Off),
        ("on", BooleanLightMode::On),
        ("flash", BooleanLightMode::Flash),
    ] {
        assert_eq!(BooleanLightMode::from_token(token), Some(mode));
        assert_eq!(mode.token(), token);
    }
    for (token, mode) in red_amber_green_tokens() {
        assert_eq!(RedAmberGreenLightMode::from_token(token), Some(mode));
        assert_eq!(mode.token(), token);
    }
}

#[test]
fn unknown_mode_tokens_name_no_mode() {
    for token in vec!["", "On", "OFF", "flash ", "blink", "red", "true", "0"] {
        assert_eq!(BooleanLightMode::from_token(token), None);
    }
    for token in vec![
        "", "on", "flash", "Red", "red_amber", "redamber", "amber-red", "blue", "red-amber-",
    ] {
        assert_eq!(RedAmberGreenLightMode::from_token(token), None);
    }
}

#[test]
fn modes_from_tokens_reports_the_first_unknown_token() {
    assert_eq!(
        modes_from_tokens(("flash", "red-amber")),
        Ok((BooleanLightMode::Flash, RedAmberGreenLightMode::RedAmber))
    );
    assert_eq!(
        modes_from_tokens(("blink", "red")),
        Err(ConfigError::UnknownBooleanLightMode)
    );
    assert_eq!(
        modes_from_tokens(("on", "purple")),
        Err(ConfigError::UnknownRedAmberGreenLightMode)
    );
    assert_eq!(
        modes_from_tokens(("blink", "purple")),
        Err(ConfigError::UnknownBooleanLightMode)
    );
}

#[test]
fn mode_config_from_tokens_builds_the_table_or_fails() {
    assert_eq!(
        ModeConfig::from_tokens(
            ("off", "green"),
            ("on", "amber"),
            ("on", "red"),
            ("flash", "red-amber")
        ),
        Ok(ModeConfig {
            inactive: (BooleanLightMode::Off, RedAmberGreenLightMode::Green),
            active: (BooleanLightMode::On, RedAmberGreenLightMode::Amber),
            blocked: (BooleanLightMode::On, RedAmberGreenLightMode::Red),
            alert: (BooleanLightMode::Flash, RedAmberGreenLightMode::RedAmber),
        })
    );
    assert_eq!(
        ModeConfig::from_tokens(
            ("off", "green"),
            ("on", "amber"),
            ("on", "red"),
            ("flashing", "red-amber")
        ),
        Err(ConfigError::UnknownBooleanLightMode)
    );
    assert_eq!(
        ModeConfig::from_tokens(
            ("off", "green"),
            ("on", "orange"),
            ("om", "red"),
            ("flash", "red-amber")
        ),
        Err(ConfigError::UnknownRedAmberGreenLightMode)
    );
    assert_eq!(
        ModeConfig::from_tokens(("off", ""), ("", "amber"), ("on", "red"), ("flash", "red")),
        Err(ConfigError::UnknownRedAmberGreenLightMode)
    );
}
