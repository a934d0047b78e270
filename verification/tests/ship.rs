use edxlc::game::file::journal::Event;
use edxlc::game::file::{LegalState, Status as FileStatus};
use edxlc::game::ship::{
    StatusBitField, CARGO_SCOOP_DEPLOYED, DOCKING, EXTERNAL_LIGHTS_ON, FRAME_SHIFT_DRIVE_CHARGING,
    FRAME_SHIFT_DRIVE_COOLDOWN, HARDPOINTS_DEPLOYED, LANDING_GEAR_DEPLOYED, MASS_LOCKED,
    OVERHEATING, SILENT_RUNNING, SPEEDING, STATUS_FILTER, SUPERCRUISE,
};
use edxlc::game::{
    Attribute, Condition, ConditionStatusLevelMapping, GlobalStatus, Ship, StatusLevel,
};

fn statuses() -> Vec<StatusBitField> {
    vec![
        LANDING_GEAR_DEPLOYED,
        EXTERNAL_LIGHTS_ON,
        CARGO_SCOOP_DEPLOYED,
        SILENT_RUNNING,
        FRAME_SHIFT_DRIVE_CHARGING,
        MASS_LOCKED,
        FRAME_SHIFT_DRIVE_COOLDOWN,
        OVERHEATING,
        HARDPOINTS_DEPLOYED,
        SUPERCRUISE,
    ]
}

#[test]
fn ship_update_status_sets_statuses() {
    for flag in statuses() {
        let mut ship = Ship::new();
        ship.update_status(FileStatus {
            flags: flag as u32,
            legal_state: LegalState::Other,
        });
        assert_eq!(ship.all_status_flags_set(flag), true);
    }
}

#[test]
fn ship_update_status_clears_statuses() {
    for flag in statuses() {
        let mut ship = Ship::new();
        ship.set_status(flag);
        ship.update_status(FileStatus {
            flags: 0,
            legal_state: LegalState::Other,
        });
        assert_eq!(ship.all_status_flags_set(flag), false);
    }
}

#[test]
fn ship_ship_update_status_returns_true_on_change() {
    for flag in statuses() {
        let mut ship = Ship::new();
        assert_eq!(
            ship.update_status(FileStatus {
                flags: flag as u32,
                legal_state: LegalState::Other,
            }),
            true
        );
        assert_eq!(
            ship.update_status(FileStatus {
                flags: flag as u32,
                legal_state: LegalState::Other,
            }),
            false
        );
    }
}

#[test]
fn game_ship_update_status_returns_true_on_change() {
    for flag in vec![
        LANDING_GEAR_DEPLOYED,
        EXTERNAL_LIGHTS_ON,
        CARGO_SCOOP_DEPLOYED,
        FRAME_SHIFT_DRIVE_CHARGING,
    ] {
        let mut ship = Ship::new();

        assert_eq!(
            ship.update_status(FileStatus {
                flags: flag as u32,
                legal_state: LegalState::Other,
            }),
            true
        );
        assert_eq!(
            ship.update_status(FileStatus {
                flags: flag as u32,
                legal_state: LegalState::Other,
            }),
            false
        );
    }
}

#[test]
fn ship_update_status_does_not_clobber_derived_states() {
    let mut ship = Ship::new();
    ship.set_status(DOCKING);
    ship.update_status(FileStatus {
        flags: LANDING_GEAR_DEPLOYED as u32,
        legal_state: LegalState::Other,
    });
    assert_eq!(ship.all_status_flags_set(DOCKING), true);
}

fn assert_status(status_flags: StatusBitField, attribute: Attribute, level: StatusLevel) {
    let mut ship = Ship::new();
    ship.set_status(status_flags);
    let statuses = ship.statuses();
    let status = statuses
        .iter()
        .find(|&status| status.attribute == attribute)
        .expect("Statuses did not include expected attribute");

    assert_eq!(status.level, level);
}

#[test]
fn ship_update_status_sets_speeding() {
    let mut ship = Ship::new();
    ship.update_status(FileStatus {
        flags: 0,
        legal_state: LegalState::Speeding,
    });
    assert_eq!(ship.all_status_flags_set(SPEEDING), true);
}

#[test]
fn ship_update_status_clears_speeding() {
    let mut ship = Ship::new();
    ship.update_status(FileStatus {
        flags: 0,
        legal_state: LegalState::Other,
    });
    assert_eq!(ship.all_status_flags_set(SPEEDING), false);
}

#[test]
fn ship_update_speeding_returns_true_on_change() {
    let mut ship = Ship::new();
    assert_eq!(
        ship.update_status(FileStatus {
            flags: 0,
            legal_state: LegalState::Speeding,
        }),
        true
    );
    assert_eq!(
        ship.update_status(FileStatus {
            flags: 0,
            legal_state: LegalState::Speeding,
        }),
        false
    );
}

#[test]
fn ship_update_status_speeding_does_not_clobber_derived_states() {
    let mut ship = Ship::new();
    ship.set_status(DOCKING);
    ship.update_status(FileStatus {
        flags: 0,
        legal_state: LegalState::Speeding,
    });
    assert_eq!(ship.all_status_flags_set(DOCKING), true);
}

#[test]
fn zero_state_maps_to_cargo_scoop_inactive() {
    assert_status(0, Attribute::CargoScoop, StatusLevel::Inactive);
}

#[test]
fn zero_state_maps_to_external_lights_inactive() {
    assert_status(0, Attribute::ExternalLights, StatusLevel::Inactive);
}

#[test]
fn zero_state_maps_to_frame_shift_drive_inactive() {
    assert_status(0, Attribute::FrameShiftDrive, StatusLevel::Inactive);
}

#[test]
fn zero_state_maps_to_landing_gear_inactive() {
    assert_status(0, Attribute::LandingGear, StatusLevel::Inactive);
}

#[test]
fn zero_state_maps_to_silent_running_inactive() {
    assert_status(0, Attribute::SilentRunning, StatusLevel::Inactive);
}

#[test]
fn zero_state_maps_to_throttle_inactive() {
    assert_status(0, Attribute::Throttle, StatusLevel::Inactive);
}

#[test]
fn cargo_scoop_deployed_maps_to_cargo_scoop_active() {
    assert_status(
        CARGO_SCOOP_DEPLOYED,
        Attribute::CargoScoop,
        StatusLevel::Active,
    );
}

#[test]
fn cargo_scoop_deployed_maps_to_frame_shift_drive_blocked() {
    assert_status(
        CARGO_SCOOP_DEPLOYED,
        Attribute::FrameShiftDrive,
        StatusLevel::Blocked,
    );
}

#[test]
fn external_lights_on_maps_to_external_lights_active() {
    assert_status(
        EXTERNAL_LIGHTS_ON,
        Attribute::ExternalLights,
        StatusLevel::Active,
    );
}

#[test]
fn frame_shift_drive_charging_maps_to_frame_shift_drive_active() {
    assert_status(
        FRAME_SHIFT_DRIVE_CHARGING,
        Attribute::FrameShiftDrive,
        StatusLevel::Active,
    );
}

#[test]
fn frame_shift_drive_charging_and_overheating_maps_to_frame_shift_drive_alert() {
    assert_status(
        FRAME_SHIFT_DRIVE_CHARGING + OVERHEATING,
        Attribute::FrameShiftDrive,
        StatusLevel::Alert,
    );
}

#[test]
fn frame_shift_drive_charging_and_supercruise_and_overheating_maps_to_frame_shift_drive_alert() {
    assert_status(
        FRAME_SHIFT_DRIVE_CHARGING + SUPERCRUISE + OVERHEATING,
        Attribute::FrameShiftDrive,
        StatusLevel::Alert,
    );
}

#[test]
fn frame_shift_drive_cooldown_maps_to_frame_shift_drive_blocked() {
    assert_status(
        FRAME_SHIFT_DRIVE_COOLDOWN,
        Attribute::FrameShiftDrive,
        StatusLevel::Blocked,
    );
}

#[test]
fn hardpoints_deployed_maps_to_hardpoints_active() {
    assert_status(
        HARDPOINTS_DEPLOYED,
        Attribute::Hardpoints,
        StatusLevel::Active,
    );
}

#[test]
fn hardpoints_deployed_maps_to_frame_shift_drive_blocked() {
    assert_status(
        HARDPOINTS_DEPLOYED,
        Attribute::FrameShiftDrive,
        StatusLevel::Blocked,
    );
}

#[test]
fn landing_gear_deployed_maps_to_landing_gear_active() {
    assert_status(
        LANDING_GEAR_DEPLOYED,
        Attribute::LandingGear,
        StatusLevel::Active,
    );
}

#[test]
fn landing_gear_not_deployed_and_docking_maps_to_landing_gear_alert() {
    assert_status(DOCKING, Attribute::LandingGear, StatusLevel::Alert);
}

#[test]
fn landing_gear_deployed_maps_to_boost_blocked() {
    assert_status(
        LANDING_GEAR_DEPLOYED,
        Attribute::Boost,
        StatusLevel::Blocked,
    );
}

#[test]
fn landing_gear_deployed_maps_to_frame_shift_drive_blocked() {
    assert_status(
        LANDING_GEAR_DEPLOYED,
        Attribute::FrameShiftDrive,
        StatusLevel::Blocked,
    );
}

#[test]
fn mass_locked_maps_to_frame_shift_drive_blocked() {
    assert_status(
        MASS_LOCKED,
        Attribute::FrameShiftDrive,
        StatusLevel::Blocked,
    );
}

#[test]
fn overheating_maps_to_heat_sink_alert() {
    assert_status(OVERHEATING, Attribute::HeatSink, StatusLevel::Alert);
}

#[test]
fn silent_running_maps_to_silent_running_active() {
    assert_status(
        SILENT_RUNNING,
        Attribute::SilentRunning,
        StatusLevel::Active,
    );
}

#[test]
fn silent_running_and_overheating_maps_to_silent_running_alert() {
    assert_status(
        SILENT_RUNNING + OVERHEATING,
        Attribute::SilentRunning,
        StatusLevel::Alert,
    );
}

#[test]
fn speeding_maps_to_throttle_alert() {
    assert_status(SPEEDING, Attribute::Throttle, StatusLevel::Alert);
}

#[test]
fn supercruise_maps_to_frame_shift_drive_active() {
    assert_status(SUPERCRUISE, Attribute::FrameShiftDrive, StatusLevel::Active);
}

#[test]
fn supercruise_and_hardpoints_deployed_and_maps_to_frame_shift_drive_active() {
    assert_status(
        SUPERCRUISE + HARDPOINTS_DEPLOYED,
        Attribute::FrameShiftDrive,
        StatusLevel::Active,
    );
}

fn assert_global_status(status_flags: StatusBitField, expected_global_status: GlobalStatus) {
    let mut ship = Ship::new();
    ship.set_status(status_flags);
    assert_eq!(ship.global_status(), expected_global_status);
}

#[test]
fn global_status_precedence_rules() {
    assert_global_status(0, GlobalStatus::Normal);
    assert_global_status(HARDPOINTS_DEPLOYED, GlobalStatus::HardpointsDeployed);
}

fn flags_of(ship: &Ship) -> StatusBitField {
    let mut flags: StatusBitField = 0;
    for bit in 0..64 {
        if ship.is_status_flag_set(1 << bit) {
            flags |= 1 << bit;
        }
    }
    flags
}

fn other(flags: u32) -> FileStatus {
    FileStatus {
        flags,
        legal_state: LegalState::Other,
    }
}

#[test]
fn new_ship_has_no_bit_set() {
    assert_eq!(flags_of(&Ship::new()), 0);
}

#[test]
fn statuses_report_every_attribute_once_in_order() {
    let attributes: Vec<Attribute> = Ship::new()
        .statuses()
        .iter()
        .map(|status| status.attribute)
        .collect();
    assert_eq!(
        attributes,
        vec![
            Attribute::CargoScoop,
            Attribute::ExternalLights,
            Attribute::FrameShiftDrive,
            Attribute::LandingGear,
            Attribute::HeatSink,
            Attribute::SilentRunning,
            Attribute::Hardpoints,
            Attribute::Boost,
            Attribute::Throttle,
        ]
    );
}

#[test]
fn update_status_twice_changes_nothing_the_second_time() {
    let mut ship = Ship::new();
    ship.apply_journal_event(Event::DockingGranted);
    let status = FileStatus {
        flags: 0x0012_0344,
        legal_state: LegalState::Speeding,
    };
    assert_eq!(ship.update_status(status), true);
    let after_first = flags_of(&ship);
    assert_eq!(ship.update_status(status), false);
    assert_eq!(flags_of(&ship), after_first);
}

#[test]
fn update_status_keeps_only_the_filtered_bits_of_the_snapshot() {
    let mut ship = Ship::new();
    assert_eq!(ship.update_status(other(0xffff_ffff)), true);
    assert_eq!(flags_of(&ship), 0x0017_0754);
    assert_eq!(flags_of(&ship), STATUS_FILTER & !SPEEDING);
}

#[test]
fn update_status_with_unsupported_bits_only_reports_no_change() {
    let mut ship = Ship::new();
    // Bits 0, 1 and 3 are flags of the game that are not looked at.
    assert_eq!(ship.update_status(other(0b1011)), false);
    assert_eq!(flags_of(&ship), 0);
}

#[test]
fn update_status_never_touches_the_docking_bit() {
    let mut ship = Ship::new();
    ship.apply_journal_event(Event::DockingGranted);
    for flags in vec![0u32, 0xffff_ffff, 0x4, 0x0010_0000, 0x0001_0000] {
        ship.update_status(other(flags));
        assert_eq!(flags_of(&ship) & DOCKING, DOCKING);
    }

    let mut ship = Ship::new();
    for flags in vec![0xffff_ffffu32, 0x4, 0] {
        ship.update_status(FileStatus {
            flags,
            legal_state: LegalState::Speeding,
        });
        assert_eq!(flags_of(&ship) & DOCKING, 0);
    }
}

#[test]
fn docking_survives_a_snapshot_of_unrelated_flags() {
    let mut ship = Ship::new();
    assert_eq!(ship.apply_journal_event(Event::DockingGranted), true);
    assert_eq!(ship.update_status(other((EXTERNAL_LIGHTS_ON | SILENT_RUNNING) as u32)), true);
    assert_eq!(ship.all_status_flags_set(DOCKING), true);
    assert_eq!(flags_of(&ship), DOCKING | EXTERNAL_LIGHTS_ON | SILENT_RUNNING);
    assert_status_of(&ship, Attribute::LandingGear, StatusLevel::Alert);
}

fn assert_status_of(ship: &Ship, attribute: Attribute, level: StatusLevel) {
    let statuses = ship.statuses();
    let status = statuses
        .iter()
        .find(|&status| status.attribute == attribute)
        .expect("Statuses did not include expected attribute");
    assert_eq!(status.level, level);
}

#[test]
fn journal_events_set_and_clear_the_docking_bit_only() {
    for end in vec![Event::Docked, Event::DockingCancelled, Event::DockingTimeout] {
        let mut ship = Ship::new();
        ship.update_status(other(LANDING_GEAR_DEPLOYED as u32));
        assert_eq!(ship.apply_journal_event(Event::DockingGranted), true);
        assert_eq!(flags_of(&ship), LANDING_GEAR_DEPLOYED | DOCKING);
        assert_eq!(ship.apply_journal_event(end), true);
        assert_eq!(flags_of(&ship), LANDING_GEAR_DEPLOYED);
    }
}

#[test]
fn other_journal_event_is_reported_and_changes_nothing() {
    let mut ship = Ship::new();
    ship.update_status(other(SUPERCRUISE as u32));
    ship.apply_journal_event(Event::DockingGranted);
    let before = flags_of(&ship);
    assert_eq!(ship.apply_journal_event(Event::Other), false);
    assert_eq!(flags_of(&ship), before);
}

#[test]
fn missing_snapshot_is_no_update() {
    let mut ship = Ship::new();
    ship.update_status(other((CARGO_SCOOP_DEPLOYED | OVERHEATING) as u32));
    let levels_before: Vec<StatusLevel> =
        ship.statuses().iter().map(|status| status.level).collect();
    assert_eq!(FileStatus::is_present(""), false);
    assert_eq!(ship.update_optional_status(None), false);
    let levels_after: Vec<StatusLevel> =
        ship.statuses().iter().map(|status| status.level).collect();
    assert_eq!(levels_after, levels_before);
    assert_eq!(flags_of(&ship), CARGO_SCOOP_DEPLOYED | OVERHEATING);
}

#[test]
fn present_snapshot_is_taken_in() {
    let mut ship = Ship::new();
    assert_eq!(FileStatus::is_present("{\"Flags\": 4}"), true);
    assert_eq!(ship.update_optional_status(Some(other(4))), true);
    assert_eq!(ship.update_optional_status(Some(other(4))), false);
    assert_eq!(flags_of(&ship), LANDING_GEAR_DEPLOYED);
}

#[test]
fn first_matching_mapping_decides_the_level() {
    let x = FRAME_SHIFT_DRIVE_CHARGING;
    let y = OVERHEATING;
    let z = MASS_LOCKED | CARGO_SCOOP_DEPLOYED;
    let mappings = vec![
        ConditionStatusLevelMapping::new(Condition::All(x | y), StatusLevel::Alert),
        ConditionStatusLevelMapping::new(Condition::Any(z), StatusLevel::Blocked),
        ConditionStatusLevelMapping::new(Condition::All(x), StatusLevel::Active),
    ];
    let mut ship = Ship::new();

    ship.set_status(x | y | MASS_LOCKED);
    assert_eq!(ship.status_level_for_condition(&mappings), StatusLevel::Alert);
    ship.set_status(x | MASS_LOCKED);
    assert_eq!(ship.status_level_for_condition(&mappings), StatusLevel::Blocked);
    ship.set_status(y | CARGO_SCOOP_DEPLOYED);
    assert_eq!(ship.status_level_for_condition(&mappings), StatusLevel::Blocked);
    ship.set_status(x);
    assert_eq!(ship.status_level_for_condition(&mappings), StatusLevel::Active);
    ship.set_status(y);
    assert_eq!(ship.status_level_for_condition(&mappings), StatusLevel::Inactive);
    ship.set_status(x | y);
    assert_eq!(ship.status_level_for_condition(&Vec::new()), StatusLevel::Inactive);
}

#[test]
fn landing_gear_bit_alone_makes_landing_gear_active() {
    let mut ship = Ship::new();
    ship.update_status(other(1 << 2));
    assert_eq!(
        ship.status_level_for_condition(&vec![ConditionStatusLevelMapping::new(
            Condition::All(LANDING_GEAR_DEPLOYED),
            StatusLevel::Active
        )]),
        StatusLevel::Active
    );
    assert_status_of(&ship, Attribute::LandingGear, StatusLevel::Active);
}

#[test]
fn landing_gear_deployed_takes_precedence_over_docking() {
    assert_status(
        LANDING_GEAR_DEPLOYED | DOCKING,
        Attribute::LandingGear,
        StatusLevel::Active,
    );
}

#[test]
fn any_and_all_status_flags_set_differ_on_a_partial_match() {
    let mut ship = Ship::new();
    ship.set_status(SILENT_RUNNING);
    assert_eq!(ship.any_status_flags_set(SILENT_RUNNING | OVERHEATING), true);
    assert_eq!(ship.all_status_flags_set(SILENT_RUNNING | OVERHEATING), false);
    assert_eq!(ship.any_status_flags_set(OVERHEATING), false);
    assert_eq!(ship.all_status_flags_set(0), true);
    assert_eq!(ship.any_status_flags_set(0), false);
}

#[test]
fn from_status_filters_the_snapshot() {
    let ship = Ship::from_status(FileStatus {
        flags: 0xffff_ffff,
        legal_state: LegalState::Speeding,
    });
    assert_eq!(flags_of(&ship), STATUS_FILTER);
    let ship = Ship::from_status(other(HARDPOINTS_DEPLOYED as u32 | 1));
    assert_eq!(flags_of(&ship), HARDPOINTS_DEPLOYED);
}

#[test]
fn single_flag_getters_read_their_own_bit() {
    let ship = Ship::from_status(other((LANDING_GEAR_DEPLOYED | EXTERNAL_LIGHTS_ON) as u32));
    assert_eq!(ship.landing_gear_deployed(), true);
    assert_eq!(ship.external_lights_on(), true);
    assert_eq!(ship.cargo_scoop_deployed(), false);
    assert_eq!(ship.frame_shift_drive_charging(), false);
    let ship = Ship::from_status(other(
        (CARGO_SCOOP_DEPLOYED | FRAME_SHIFT_DRIVE_CHARGING) as u32,
    ));
    assert_eq!(ship.landing_gear_deployed(), false);
    assert_eq!(ship.external_lights_on(), false);
    assert_eq!(ship.cargo_scoop_deployed(), true);
    assert_eq!(ship.frame_shift_drive_charging(), true);
}

#[test]
fn filtered_status_flags_keeps_the_filter_bits() {
    assert_eq!(Ship::filtered_status_flags(u64::MAX), STATUS_FILTER);
    assert_eq!(Ship::filtered_status_flags(DOCKING | 0x4), 0x4);
    assert_eq!(STATUS_FILTER, 0x0002_0000_0017_0754);
}

#[test]
fn status_levels_are_ordered_by_severity() {
    let levels = vec![
        StatusLevel::Inactive,
        StatusLevel::Active,
        StatusLevel::Blocked,
        StatusLevel::Alert,
    ];
    for (low, lower) in levels.iter().enumerate() {
        assert_eq!(lower.severity() as usize, low);
        for (high, higher) in levels.iter().enumerate() {
            assert_eq!(higher.exceeds(lower), high > low);
        }
    }
}
