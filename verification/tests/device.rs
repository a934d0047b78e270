use edxlc::game::StatusLevel;
use edxlc::x52pro::device::{
    light_for_input, BinaryLightMapping, BooleanLightMode, Device, Input, Led, LedState, Light,
    LightMapping, LightMode, RedAmberGreenLightMode, RedGreenLightMapping,
};
use edxlc::x52pro::{LightModeToStateMapper, StatusLevelToModeMapper};

#[test]
fn input_to_light_permutations() {
    assert_light_for_input(Input::Clutch, Light::Clutch);
    assert_light_for_input(Input::Fire, Light::Fire);
    assert_light_for_input(Input::FireA, Light::FireA);
    assert_light_for_input(Input::FireB, Light::FireB);
    assert_light_for_input(Input::FireD, Light::FireD);
    assert_light_for_input(Input::FireE, Light::FireE);
    assert_light_for_input(Input::PoV2Up, Light::PoV2);
    assert_light_for_input(Input::PoV2Down, Light::PoV2);
    assert_light_for_input(Input::PoV2Left, Light::PoV2);
    assert_light_for_input(Input::PoV2Right, Light::PoV2);
    assert_light_for_input(Input::T1, Light::T1T2);
    assert_light_for_input(Input::T2, Light::T1T2);
    assert_light_for_input(Input::T3, Light::T3T4);
    assert_light_for_input(Input::T4, Light::T3T4);
    assert_light_for_input(Input::T5, Light::T5T6);
    assert_light_for_input(Input::T6, Light::T5T6);
    assert_light_for_input(Input::ZAxis, Light::Throttle);
}

fn assert_light_for_input(input: Input, light: Light) {
    assert_eq!(light_for_input(input), light);
}

/// Inactive: on / green. Active: on / amber. Blocked: off / red.
/// Alert: flash / red-amber.
fn mapper() -> StatusLevelToModeMapper {
    StatusLevelToModeMapper::new(
        LightMode::new(BooleanLightMode::On, RedAmberGreenLightMode::Green),
        LightMode::new(BooleanLightMode::On, RedAmberGreenLightMode::Amber),
        LightMode::new(BooleanLightMode::Off, RedAmberGreenLightMode::Red),
        LightMode::new(BooleanLightMode::Flash, RedAmberGreenLightMode::RedAmber),
    )
}

fn state(led: Led, active: bool) -> LedState {
    LedState { led, active }
}

/// The states of the LEDs of a light among the states of all of them.
fn states_of(led_states: &Vec<LedState>, leds: Vec<Led>) -> Vec<bool> {
    leds.iter()
        .map(|led| {
            let found: Vec<&LedState> = led_states.iter().filter(|s| s.led == *led).collect();
            assert_eq!(found.len(), 1);
            found[0].active
        })
        .collect()
}

#[test]
fn led_ids_are_those_of_the_device() {
    let leds = vec![
        Led::Fire,
        Led::FireARed,
        Led::FireAGreen,
        Led::FireBRed,
        Led::FireBGreen,
        Led::FireDRed,
        Led::FireDGreen,
        Led::FireERed,
        Led::FireEGreen,
        Led::T1T2Red,
        Led::T1T2Green,
        Led::T3T4Red,
        Led::T3T4Green,
        Led::T5T6Red,
        Led::T5T6Green,
        Led::PoV2Red,
        Led::PoV2Green,
        Led::ClutchRed,
        Led::ClutchGreen,
        Led::Throttle,
    ];
    for (id, led) in leds.iter().enumerate() {
        assert_eq!(led.id() as usize, id);
    }
}

#[test]
fn all_lights_are_listed_once_at_their_index() {
    let lights = Light::all();
    assert_eq!(lights.len(), 11);
    for (index, light) in lights.iter().enumerate() {
        assert_eq!(light.index(), index);
    }
}

#[test]
fn lights_without_input_are_inactive() {
    let mut device = Device::new(0);
    let led_states = device.set_input_status_levels(Vec::new(), &mapper(), 0);
    // Every LED of the device is written once: nine lights of two, two of one.
    assert_eq!(led_states.len(), 20);
    for led_state in &led_states {
        let green_or_single = match led_state.led {
            Led::Fire
            | Led::Throttle
            | Led::FireAGreen
            | Led::FireBGreen
            | Led::FireDGreen
            | Led::FireEGreen
            | Led::T1T2Green
            | Led::T3T4Green
            | Led::T5T6Green
            | Led::PoV2Green
            | Led::ClutchGreen => true,
            _ => false,
        };
        assert_eq!(led_state.active, green_or_single);
    }
    assert_eq!(device.update_animated_lights(0), Vec::new());
}

#[test]
fn led_states_come_light_by_light_red_before_green() {
    let mut device = Device::new(0);
    let led_states = device.set_input_status_levels(Vec::new(), &mapper(), 0);
    let leds: Vec<Led> = led_states.iter().map(|led_state| led_state.led).collect();
    assert_eq!(
        leds,
        vec![
            Led::ClutchRed,
            Led::ClutchGreen,
            Led::Fire,
            Led::FireARed,
            Led::FireAGreen,
            Led::FireBRed,
            Led::FireBGreen,
            Led::FireDRed,
            Led::FireDGreen,
            Led::FireERed,
            Led::FireEGreen,
            Led::PoV2Red,
            Led::PoV2Green,
            Led::T1T2Red,
            Led::T1T2Green,
            Led::T3T4Red,
            Led::T3T4Green,
            Led::T5T6Red,
            Led::T5T6Green,
            Led::Throttle,
        ]
    );
}

#[test]
fn inputs_that_share_a_light_show_the_highest_level() {
    let mut device = Device::new(0);
    let led_states = device.set_input_status_levels(
        vec![
            (Input::T1, StatusLevel::Active),
            (Input::T2, StatusLevel::Alert),
        ],
        &mapper(),
        0,
    );
    // Alert is red-amber: red at first, amber after one flash period.
    assert_eq!(
        states_of(&led_states, vec![Led::T1T2Red, Led::T1T2Green]),
        vec![true, false]
    );
    assert_eq!(
        device.update_animated_lights(500),
        vec![state(Led::T1T2Red, true), state(Led::T1T2Green, true)]
    );

    // The order in which the inputs are given makes no difference.
    let mut device = Device::new(0);
    device.set_input_status_levels(
        vec![
            (Input::T2, StatusLevel::Alert),
            (Input::T1, StatusLevel::Active),
        ],
        &mapper(),
        0,
    );
    assert_eq!(
        device.update_animated_lights(500),
        vec![state(Led::T1T2Red, true), state(Led::T1T2Green, true)]
    );
}

#[test]
fn each_level_shows_the_mode_configured_for_it() {
    let mut device = Device::new(0);
    let led_states = device.set_input_status_levels(
        vec![
            (Input::FireA, StatusLevel::Inactive),
            (Input::FireB, StatusLevel::Active),
            (Input::FireD, StatusLevel::Blocked),
            (Input::FireE, StatusLevel::Alert),
            (Input::Fire, StatusLevel::Blocked),
            (Input::ZAxis, StatusLevel::Alert),
        ],
        &mapper(),
        0,
    );
    assert_eq!(
        states_of(
            &led_states,
            vec![
                Led::FireARed,
                Led::FireAGreen,
                Led::FireBRed,
                Led::FireBGreen,
                Led::FireDRed,
                Led::FireDGreen,
                Led::FireERed,
                Led::FireEGreen,
                Led::Fire,
                Led::Throttle,
            ]
        ),
        vec![false, true, true, true, true, false, true, false, false, true]
    );
}

#[test]
fn repeated_input_shows_its_highest_level() {
    let mut device = Device::new(0);
    let led_states = device.set_input_status_levels(
        vec![
            (Input::Clutch, StatusLevel::Blocked),
            (Input::Clutch, StatusLevel::Active),
            (Input::Clutch, StatusLevel::Inactive),
        ],
        &mapper(),
        0,
    );
    assert_eq!(
        states_of(&led_states, vec![Led::ClutchRed, Led::ClutchGreen]),
        vec![true, false]
    );
}

#[test]
fn only_animated_lights_are_refreshed() {
    let mut device = Device::new(1_000);
    assert_eq!(device.update_animated_lights(1_000), Vec::new());

    device.set_input_status_levels(
        vec![
            (Input::ZAxis, StatusLevel::Alert),
            (Input::PoV2Up, StatusLevel::Alert),
            (Input::T3, StatusLevel::Blocked),
        ],
        &mapper(),
        1_000,
    );
    // In the order of the lights: PoV2 before the throttle.
    assert_eq!(
        device.update_animated_lights(1_000),
        vec![
            state(Led::PoV2Red, true),
            state(Led::PoV2Green, false),
            state(Led::Throttle, true),
        ]
    );
    assert_eq!(
        device.update_animated_lights(1_500),
        vec![
            state(Led::PoV2Red, true),
            state(Led::PoV2Green, true),
            state(Led::Throttle, false),
        ]
    );
    assert_eq!(
        device.update_animated_lights(2_000),
        device.update_animated_lights(1_000)
    );

    // Once no light is in an animated mode, nothing is refreshed.
    device.set_input_status_levels(vec![(Input::ZAxis, StatusLevel::Active)], &mapper(), 2_000);
    assert_eq!(device.update_animated_lights(2_500), Vec::new());
}

#[test]
fn light_mapping_takes_the_mode_meant_for_its_shape() {
    let light_mode = LightMode::new(BooleanLightMode::Flash, RedAmberGreenLightMode::Amber);

    let mut binary = LightMapping::Binary(BinaryLightMapping::new(Led::Fire));
    assert_eq!(binary.is_animated(), false);
    binary.set_mode(light_mode);
    assert_eq!(
        binary,
        LightMapping::Binary(BinaryLightMapping {
            led_id: Led::Fire,
            light_mode: BooleanLightMode::Flash
        })
    );
    assert_eq!(binary.is_animated(), true);

    let mut red_green =
        LightMapping::RedGreen(RedGreenLightMapping::new(Led::FireARed, Led::FireAGreen));
    red_green.set_mode(light_mode);
    assert_eq!(
        red_green,
        LightMapping::RedGreen(RedGreenLightMapping {
            red_led_id: Led::FireARed,
            green_led_id: Led::FireAGreen,
            light_mode: RedAmberGreenLightMode::Amber
        })
    );
    assert_eq!(red_green.is_animated(), false);

    let mapper = LightModeToStateMapper::new(0);
    let mut led_states = vec![state(Led::Throttle, false)];
    binary.update_state(&mut led_states, &mapper, 500);
    red_green.update_state(&mut led_states, &mapper, 500);
    assert_eq!(
        led_states,
        vec![
            state(Led::Throttle, false),
            state(Led::Fire, false),
            state(Led::FireARed, true),
            state(Led::FireAGreen, true),
        ]
    );
}

#[test]
fn status_level_to_mode_mapper_maps_each_level_to_its_mode() {
    let mapper = mapper();
    assert_eq!(
        mapper.map(&StatusLevel::Inactive),
        LightMode::new(BooleanLightMode::On, RedAmberGreenLightMode::Green)
    );
    assert_eq!(
        mapper.map(&StatusLevel::Active),
        LightMode::new(BooleanLightMode::On, RedAmberGreenLightMode::Amber)
    );
    assert_eq!(
        mapper.map(&StatusLevel::Blocked),
        LightMode::new(BooleanLightMode::Off, RedAmberGreenLightMode::Red)
    );
    assert_eq!(
        mapper.map(&StatusLevel::Alert),
        LightMode::new(BooleanLightMode::Flash, RedAmberGreenLightMode::RedAmber)
    );
}
