use crate::game::StatusLevel;
use crate::x52pro::light_mode_to_state_mapper::{
    binary_led_state, red_amber_green_led_states, LightModeToStateMapper,
};
use crate::x52pro::status_level_to_mode_mapper::StatusLevelToModeMapper;
use vstd::prelude::*;

verus! {

/// Controllable LEDs on the device, in the order of the ids by which the
/// device knows them.
#[derive(Clone, Copy, Debug, PartialEq, Eq, Structural)]
pub enum Led {
    Fire,
    FireARed,
    FireAGreen,
    FireBRed,
    FireBGreen,
    FireDRed,
    FireDGreen,
    FireERed,
    FireEGreen,
    T1T2Red,
    T1T2Green,
    T3T4Red,
    T3T4Green,
    T5T6Red,
    T5T6Green,
    PoV2Red,
    PoV2Green,
    ClutchRed,
    ClutchGreen,
    Throttle,
}

impl Led {
    /// The id by which the device knows the LED.
    pub open spec fn spec_id(self) -> u32 {
        match self {
            Led::Fire => 0,
            Led::FireARed => 1,
            Led::FireAGreen => 2,
            Led::FireBRed => 3,
            Led::FireBGreen => 4,
            Led::FireDRed => 5,
            Led::FireDGreen => 6,
            Led::FireERed => 7,
            Led::FireEGreen => 8,
            Led::T1T2Red => 9,
            Led::T1T2Green => 10,
            Led::T3T4Red => 11,
            Led::T3T4Green => 12,
            Led::T5T6Red => 13,
            Led::T5T6Green => 14,
            Led::PoV2Red => 15,
            Led::PoV2Green => 16,
            Led::ClutchRed => 17,
            Led::ClutchGreen => 18,
            Led::Throttle => 19,
        }
    }

    /// Returns the id by which the device knows the LED, between 0 and 19.
    pub fn id(&self) -> (id: u32)
        ensures
            id == self.spec_id(),
            id <= 19,
    {
        match self {
            Led::Fire => 0,
            Led::FireARed => 1,
            Led::FireAGreen => 2,
            Led::FireBRed => 3,
            Led::FireBGreen => 4,
            Led::FireDRed => 5,
            Led::FireDGreen => 6,
            Led::FireERed => 7,
            Led::FireEGreen => 8,
            Led::T1T2Red => 9,
            Led::T1T2Green => 10,
            Led::T3T4Red => 11,
            Led::T3T4Green => 12,
            Led::T5T6Red => 13,
            Led::T5T6Green => 14,
            Led::PoV2Red => 15,
            Led::PoV2Green => 16,
            Led::ClutchRed => 17,
            Led::ClutchGreen => 18,
            Led::Throttle => 19,
        }
    }
}

/// Supported input buttons or axes on the device.
#[derive(Clone, Copy, Debug, PartialEq, Eq, Structural)]
pub enum Input {
    Clutch,
    Fire,
    FireA,
    FireB,
    FireD,
    FireE,
    PoV2Down,
    PoV2Left,
    PoV2Right,
    PoV2Up,
    T1,
    T2,
    T3,
    T4,
    T5,
    T6,
    ZAxis,
}

/// Controllable lights on the device, which have either one or two LEDs.
#[derive(Clone, Copy, Debug, PartialEq, Eq, Structural)]
pub enum Light {
    Clutch,
    Fire,
    FireA,
    FireB,
    FireD,
    FireE,
    PoV2,
    T1T2,
    T3T4,
    T5T6,
    Throttle,
}

/// Available modes for boolean lights on the device.
#[derive(Clone, Copy, Debug, PartialEq, Eq, Structural)]
pub enum BooleanLightMode {
    Off,
    On,
    Flash,
}

impl BooleanLightMode {
    /// True if the mode changes over time.
    pub open spec fn animated(self) -> bool {
        self == BooleanLightMode::Flash
    }

    /// Returns true if the mode requires animation, i.e. changes over time.
    pub fn is_animated(&self) -> (animated: bool)
        ensures
            animated == self.animated(),
    {
        match self {
            Self::Flash => true,
            _ => false,
        }
    }
}

/// Available modes for red/amber/green lights on the device. A mode of two
/// colours, or of one colour and `Flash`, alternates between the two (the
/// second being off for `Flash`).
#[derive(Clone, Copy, Debug, PartialEq, Eq, Structural)]
pub enum RedAmberGreenLightMode {
    Off,
    Red,
    Amber,
    Green,
    RedAmber,
    RedFlash,
    RedAmberFlash,
    RedGreenFlash,
    AmberFlash,
    AmberRedFlash,
    AmberGreenFlash,
    GreenFlash,
    GreenAmberFlash,
    GreenRedFlash,
}

impl RedAmberGreenLightMode {
    /// True if the mode changes over time.
    pub open spec fn animated(self) -> bool {
        match self {
            RedAmberGreenLightMode::Off
            | RedAmberGreenLightMode::Red
            | RedAmberGreenLightMode::Amber
            | RedAmberGreenLightMode::Green => false,
            _ => true,
        }
    }

    /// Returns true if the mode requires animation, i.e. changes over time.
    pub fn is_animated(&self) -> (animated: bool)
        ensures
            animated == self.animated(),
    {
        match self {
            RedAmberGreenLightMode::Off
            | RedAmberGreenLightMode::Red
            | RedAmberGreenLightMode::Amber
            | RedAmberGreenLightMode::Green => false,
            _ => true,
        }
    }
}

/// The modes configured for a status level: one for the lights that can only
/// be on or off, one for the lights that have a colour.
#[derive(Clone, Copy, Debug, PartialEq, Eq, Structural)]
pub struct LightMode {
    pub boolean: BooleanLightMode,
    pub red_amber_green: RedAmberGreenLightMode,
}

impl LightMode {
    pub fn new(
        boolean: BooleanLightMode,
        red_amber_green: RedAmberGreenLightMode,
    ) -> (light_mode: Self)
        ensures
            light_mode.boolean == boolean,
            light_mode.red_amber_green == red_amber_green,
    {
        Self { boolean, red_amber_green }
    }
}

/// The state that one LED of the device is to be put in.
#[derive(Clone, Copy, Debug, PartialEq, Eq, Structural)]
pub struct LedState {
    pub led: Led,
    pub active: bool,
}

impl Light {
    /// The position of the light in `all_lights`.
    pub open spec fn spec_index(self) -> int {
        match self {
            Light::Clutch => 0,
            Light::Fire => 1,
            Light::FireA => 2,
            Light::FireB => 3,
            Light::FireD => 4,
            Light::FireE => 5,
            Light::PoV2 => 6,
            Light::T1T2 => 7,
            Light::T3T4 => 8,
            Light::T5T6 => 9,
            Light::Throttle => 10,
        }
    }

    /// Returns the position of the light among all lights.
    pub fn index(&self) -> (index: usize)
        ensures
            index == self.spec_index(),
            index < all_lights().len(),
            all_lights()[index as int] == *self,
    {
        match self {
            Light::Clutch => 0,
            Light::Fire => 1,
            Light::FireA => 2,
            Light::FireB => 3,
            Light::FireD => 4,
            Light::FireE => 5,
            Light::PoV2 => 6,
            Light::T1T2 => 7,
            Light::T3T4 => 8,
            Light::T5T6 => 9,
            Light::Throttle => 10,
        }
    }

    /// Returns every light of the device, each once.
    pub fn all() -> (lights: Vec<Light>)
        ensures
            lights@ == all_lights(),
    {
        let lights = vec![
            Light::Clutch,
            Light::Fire,
            Light::FireA,
            Light::FireB,
            Light::FireD,
            Light::FireE,
            Light::PoV2,
            Light::T1T2,
            Light::T3T4,
            Light::T5T6,
            Light::Throttle,
        ];
        assert(lights@ =~= all_lights());
        lights
    }
}

/// Every light of the device, each once.
pub open spec fn all_lights() -> Seq<Light> {
    seq![
        Light::Clutch,
        Light::Fire,
        Light::FireA,
        Light::FireB,
        Light::FireD,
        Light::FireE,
        Light::PoV2,
        Light::T1T2,
        Light::T3T4,
        Light::T5T6,
        Light::Throttle,
    ]
}

/// The mapping of a light to a single device LED.
#[derive(Clone, Copy, Debug, PartialEq, Eq, Structural)]
pub struct BinaryLightMapping {
    pub led_id: Led,
    pub light_mode: BooleanLightMode,
}

impl BinaryLightMapping {
    pub fn new(led_id: Led) -> (mapping: Self)
        ensures
            mapping.led_id == led_id,
            mapping.light_mode == BooleanLightMode::Off,
    {
        Self { led_id, light_mode: BooleanLightMode::Off }
    }
}

/// The mapping of a light to a red-green pair of device LEDs.
#[derive(Clone, Copy, Debug, PartialEq, Eq, Structural)]
pub struct RedGreenLightMapping {
    pub red_led_id: Led,
    pub green_led_id: Led,
    pub light_mode: RedAmberGreenLightMode,
}

impl RedGreenLightMapping {
    pub fn new(red_led_id: Led, green_led_id: Led) -> (mapping: Self)
        ensures
            mapping.red_led_id == red_led_id,
            mapping.green_led_id == green_led_id,
            mapping.light_mode == RedAmberGreenLightMode::Off,
    {
        Self { red_led_id, green_led_id, light_mode: RedAmberGreenLightMode::Off }
    }
}

/// A light mapped to one or more device LEDs, with the mode it is in.
#[derive(Clone, Copy, Debug, PartialEq, Eq, Structural)]
pub enum LightMapping {
    Binary(BinaryLightMapping),
    RedGreen(RedGreenLightMapping),
}

impl LightMapping {
    /// True if the light's currently set mode changes over time.
    pub open spec fn animated(self) -> bool {
        match self {
            LightMapping::Binary(mapping) => mapping.light_mode.animated(),
            LightMapping::RedGreen(mapping) => mapping.light_mode.animated(),
        }
    }

    /// The mapping with its mode replaced by the part of `light_mode` that is
    /// meant for a light of its shape.
    pub open spec fn with_mode(self, light_mode: LightMode) -> LightMapping {
        match self {
            LightMapping::Binary(mapping) => LightMapping::Binary(
                BinaryLightMapping { led_id: mapping.led_id, light_mode: light_mode.boolean },
            ),
            LightMapping::RedGreen(mapping) => LightMapping::RedGreen(
                RedGreenLightMapping {
                    red_led_id: mapping.red_led_id,
                    green_led_id: mapping.green_led_id,
                    light_mode: light_mode.red_amber_green,
                },
            ),
        }
    }

    /// The states of the light's LEDs at the given time offset: one for a
    /// light of one LED, and the red before the green for a light of two.
    pub open spec fn led_states(self, milliseconds: int) -> Seq<LedState> {
        match self {
            LightMapping::Binary(mapping) => seq![
                binary_led_state(mapping.light_mode, mapping.led_id, milliseconds),
            ],
            LightMapping::RedGreen(mapping) => seq![
                red_amber_green_led_states(
                    mapping.light_mode,
                    mapping.red_led_id,
                    mapping.green_led_id,
                    milliseconds,
                ).0,
                red_amber_green_led_states(
                    mapping.light_mode,
                    mapping.red_led_id,
                    mapping.green_led_id,
                    milliseconds,
                ).1,
            ],
        }
    }

    /// Returns true if the light's currently set mode is animated.
    pub fn is_animated(&self) -> (animated: bool)
        ensures
            animated == self.animated(),
    {
        match self {
            LightMapping::Binary(mapping) => mapping.light_mode.is_animated(),
            LightMapping::RedGreen(mapping) => mapping.light_mode.is_animated(),
        }
    }

    /// Updates the light's mode.
    pub fn set_mode(&mut self, light_mode: LightMode)
        ensures
            *final(self) == old(self).with_mode(light_mode),
    {
        match self {
            LightMapping::Binary(mapping) => {
                mapping.light_mode = light_mode.boolean;
            },
            LightMapping::RedGreen(mapping) => {
                mapping.light_mode = light_mode.red_amber_green;
            },
        }
    }

    /// Appends to `led_states` the states to put the mapped LEDs in, based on
    /// the current mode, the given `LightModeToStateMapper` and the time
    /// `now` of the caller's clock.
    pub fn update_state(
        &self,
        led_states: &mut Vec<LedState>,
        light_mode_to_state_mapper: &LightModeToStateMapper,
        now: u128,
    )
        requires
            now >= light_mode_to_state_mapper.reference(),
        ensures
            final(led_states)@ == old(led_states)@ + self.led_states(
                light_mode_to_state_mapper.elapsed(now),
            ),
    {
        match self {
            LightMapping::Binary(mapping) => {
                let led_state = light_mode_to_state_mapper.update_binary_light(
                    &mapping.light_mode,
                    mapping.led_id,
                    now,
                );
                led_states.push(led_state);
            },
            LightMapping::RedGreen(mapping) => {
                let (red_led_state, green_led_state) =
                    light_mode_to_state_mapper.update_red_amber_green_light(
                    &mapping.light_mode,
                    mapping.red_led_id,
                    mapping.green_led_id,
                    now,
                );
                led_states.push(red_led_state);
                led_states.push(green_led_state);
            },
        }
    }
}

/// The LEDs of each light of the device, in the mode `Off`.
pub open spec fn light_mapping_for(light: Light) -> LightMapping {
    match light {
        Light::Clutch => LightMapping::RedGreen(
            RedGreenLightMapping {
                red_led_id: Led::ClutchRed,
                green_led_id: Led::ClutchGreen,
                light_mode: RedAmberGreenLightMode::Off,
            },
        ),
        Light::Fire => LightMapping::Binary(
            BinaryLightMapping { led_id: Led::Fire, light_mode: BooleanLightMode::Off },
        ),
        Light::FireA => LightMapping::RedGreen(
            RedGreenLightMapping {
                red_led_id: Led::FireARed,
                green_led_id: Led::FireAGreen,
                light_mode: RedAmberGreenLightMode::Off,
            },
        ),
        Light::FireB => LightMapping::RedGreen(
            RedGreenLightMapping {
                red_led_id: Led::FireBRed,
                green_led_id: Led::FireBGreen,
                light_mode: RedAmberGreenLightMode::Off,
            },
        ),
        Light::FireD => LightMapping::RedGreen(
            RedGreenLightMapping {
                red_led_id: Led::FireDRed,
                green_led_id: Led::FireDGreen,
                light_mode: RedAmberGreenLightMode::Off,
            },
        ),
        Light::FireE => LightMapping::RedGreen(
            RedGreenLightMapping {
                red_led_id: Led::FireERed,
                green_led_id: Led::FireEGreen,
                light_mode: RedAmberGreenLightMode::Off,
            },
        ),
        Light::PoV2 => LightMapping::RedGreen(
            RedGreenLightMapping {
                red_led_id: Led::PoV2Red,
                green_led_id: Led::PoV2Green,
                light_mode: RedAmberGreenLightMode::Off,
            },
        ),
        Light::T1T2 => LightMapping::RedGreen(
            RedGreenLightMapping {
                red_led_id: Led::T1T2Red,
                green_led_id: Led::T1T2Green,
                light_mode: RedAmberGreenLightMode::Off,
            },
        ),
        Light::T3T4 => LightMapping::RedGreen(
            RedGreenLightMapping {
                red_led_id: Led::T3T4Red,
                green_led_id: Led::T3T4Green,
                light_mode: RedAmberGreenLightMode::Off,
            },
        ),
        Light::T5T6 => LightMapping::RedGreen(
            RedGreenLightMapping {
                red_led_id: Led::T5T6Red,
                green_led_id: Led::T5T6Green,
                light_mode: RedAmberGreenLightMode::Off,
            },
        ),
        Light::Throttle => LightMapping::Binary(
            BinaryLightMapping { led_id: Led::Throttle, light_mode: BooleanLightMode::Off },
        ),
    }
}

/// The light that shows the status of each input. Some inputs, such as the T
/// buttons, share a light.
pub open spec fn light_of(input: Input) -> Light {
    match input {
        Input::Clutch => Light::Clutch,
        Input::Fire => Light::Fire,
        Input::FireA => Light::FireA,
        Input::FireB => Light::FireB,
        Input::FireD => Light::FireD,
        Input::FireE => Light::FireE,
        Input::PoV2Down | Input::PoV2Left | Input::PoV2Right | Input::PoV2Up => Light::PoV2,
        Input::T1 | Input::T2 => Light::T1T2,
        Input::T3 | Input::T4 => Light::T3T4,
        Input::T5 | Input::T6 => Light::T5T6,
        Input::ZAxis => Light::Throttle,
    }
}

/// Returns the Light that corresponds to a given input. Note that in some cases,
/// specifically the T buttons, multiple inputs share a Light.
pub fn light_for_input(input: Input) -> (light: Light)
    ensures
        light == light_of(input),
{
    match input {
        Input::Clutch => Light::Clutch,
        Input::Fire => Light::Fire,
        Input::FireA => Light::FireA,
        Input::FireB => Light::FireB,
        Input::FireD => Light::FireD,
        Input::FireE => Light::FireE,
        Input::PoV2Down => Light::PoV2,
        Input::PoV2Left => Light::PoV2,
        Input::PoV2Right => Light::PoV2,
        Input::PoV2Up => Light::PoV2,
        Input::T1 => Light::T1T2,
        Input::T2 => Light::T1T2,
        Input::T3 => Light::T3T4,
        Input::T4 => Light::T3T4,
        Input::T5 => Light::T5T6,
        Input::T6 => Light::T5T6,
        Input::ZAxis => Light::Throttle,
    }
}

/// The level that a light is to show given the status levels of the inputs:
/// the highest level of an input that shares the light, and `Inactive` if no
/// input of the light is among them.
pub open spec fn highest_status_level(
    input_status_levels: Seq<(Input, StatusLevel)>,
    light: Light,
) -> StatusLevel
    decreases input_status_levels.len(),
{
    if input_status_levels.len() == 0 {
        StatusLevel::Inactive
    } else {
        let highest_before = highest_status_level(input_status_levels.drop_last(), light);
        if light_of(input_status_levels.last().0) == light {
            highest_before.spec_max(input_status_levels.last().1)
        } else {
            highest_before
        }
    }
}

/// The states of the LEDs of the first `count` of the given light mappings at
/// the given time offset, one mapping after the other.
pub open spec fn led_states_of(
    mappings: Seq<LightMapping>,
    count: int,
    milliseconds: int,
) -> Seq<LedState>
    decreases count,
{
    if count <= 0 {
        Seq::empty()
    } else {
        led_states_of(mappings, count - 1, milliseconds) + mappings[count - 1].led_states(
            milliseconds,
        )
    }
}

/// The lights among the first `count` of all lights whose mapping is in an
/// animated mode, in the order of all lights.
pub open spec fn animated_among(mappings: Seq<LightMapping>, count: int) -> Seq<Light>
    decreases count,
{
    if count <= 0 {
        Seq::empty()
    } else if mappings[count - 1].animated() {
        animated_among(mappings, count - 1).push(all_lights()[count - 1])
    } else {
        animated_among(mappings, count - 1)
    }
}

/// An instance of an interface to a Saitek X52 Pro Flight HOTAS flight
/// controller device: the mode that each of its lights is in, and which of
/// them are animated. It computes the states to put the LEDs in, and leaves
/// it to the caller to write them to the device.
pub struct Device {
    lights: Vec<LightMapping>,
    animated_lights: Vec<Light>,
    light_mode_to_state_mapper: LightModeToStateMapper,
}

impl Device {
    /// The mapping of each light, in the order of `all_lights`.
    pub closed spec fn light_mappings(&self) -> Seq<LightMapping> {
        self.lights@
    }

    /// The lights that were in an animated mode when the status levels were
    /// last set, in the order of `all_lights`.
    pub closed spec fn animated_lights(&self) -> Seq<Light> {
        self.animated_lights@
    }

    /// The mapper by which the states of all lights are timed.
    pub closed spec fn state_mapper(&self) -> LightModeToStateMapper {
        self.light_mode_to_state_mapper
    }

    /// The mapping of the given light.
    pub open spec fn light_mapping(&self, light: Light) -> LightMapping {
        self.light_mappings()[light.spec_index()]
    }

    /// The mappings of the animated lights, in their order.
    pub open spec fn animated_mappings(&self) -> Seq<LightMapping> {
        Seq::new(
            self.animated_lights().len(),
            |i: int| self.light_mapping(self.animated_lights()[i]),
        )
    }

    /// Every light is mapped to its own LEDs, whatever mode it is in, and the
    /// animated lights are those whose mode is animated.
    #[verifier::type_invariant]
    spec fn lights_are_mapped(&self) -> bool {
        &&& self.lights@.len() == all_lights().len()
        &&& forall|i: int|
            0 <= i < self.lights@.len() ==> (#[trigger] self.lights@[i]).with_mode(unlit())
                == light_mapping_for(all_lights()[i])
        &&& self.animated_lights@ == animated_among(self.lights@, self.lights@.len() as int)
    }

    /// Returns a new instance of the device interface, with every light off
    /// and none animated, whose lights are timed from the given reference
    /// time of the caller's clock, in milliseconds.
    pub fn new(reference_milliseconds: u128) -> (device: Self)
        ensures
            device.light_mappings().len() == all_lights().len(),
            forall|light: Light|
                #![trigger light.spec_index()]
                device.light_mapping(light) == light_mapping_for(light),
            device.animated_lights().len() == 0,
            device.state_mapper().reference() == reference_milliseconds,
    {
        let lights = vec![
            LightMapping::RedGreen(RedGreenLightMapping::new(Led::ClutchRed, Led::ClutchGreen)),
            LightMapping::Binary(BinaryLightMapping::new(Led::Fire)),
            LightMapping::RedGreen(RedGreenLightMapping::new(Led::FireARed, Led::FireAGreen)),
            LightMapping::RedGreen(RedGreenLightMapping::new(Led::FireBRed, Led::FireBGreen)),
            LightMapping::RedGreen(RedGreenLightMapping::new(Led::FireDRed, Led::FireDGreen)),
            LightMapping::RedGreen(RedGreenLightMapping::new(Led::FireERed, Led::FireEGreen)),
            LightMapping::RedGreen(RedGreenLightMapping::new(Led::PoV2Red, Led::PoV2Green)),
            LightMapping::RedGreen(RedGreenLightMapping::new(Led::T1T2Red, Led::T1T2Green)),
            LightMapping::RedGreen(RedGreenLightMapping::new(Led::T3T4Red, Led::T3T4Green)),
            LightMapping::RedGreen(RedGreenLightMapping::new(Led::T5T6Red, Led::T5T6Green)),
            LightMapping::Binary(BinaryLightMapping::new(Led::Throttle)),
        ];
        proof {
            assert forall|i: int| 0 <= i < lights@.len() implies (#[trigger] lights@[i])
                == light_mapping_for(all_lights()[i]) by {}
            lemma_static_mappings_are_not_animated(lights@, lights@.len() as int);
        }
        let animated_lights: Vec<Light> = Vec::new();
        assert(animated_lights@ =~= animated_among(lights@, lights@.len() as int));
        Device {
            lights,
            animated_lights,
            light_mode_to_state_mapper: LightModeToStateMapper::new(reference_milliseconds),
        }
    }

    /// Sets each input to the specified status level and returns the states
    /// to put the LEDs of all lights in at the time `now` of the caller's
    /// clock. Repeated inputs, and inputs that share a light, are handled by
    /// using the highest level; a light of which no input is given is
    /// inactive. The mode of each light is looked up for its level in the
    /// given mapper, and the lights whose mode is animated are remembered.
    pub fn set_input_status_levels(
        &mut self,
        input_status_levels: Vec<(Input, StatusLevel)>,
        status_level_to_mode_mapper: &StatusLevelToModeMapper,
        now: u128,
    ) -> (led_states: Vec<LedState>)
        requires
            now >= old(self).state_mapper().reference(),
        ensures
            final(self).state_mapper() == old(self).state_mapper(),
            final(self).light_mappings().len() == all_lights().len(),
            forall|light: Light|
                #![trigger light.spec_index()]
                final(self).light_mapping(light) == light_mapping_for(light).with_mode(
                    status_level_to_mode_mapper.mode_for(
                        highest_status_level(input_status_levels@, light),
                    ),
                ),
            final(self).animated_lights() == animated_among(
                final(self).light_mappings(),
                all_lights().len() as int,
            ),
            forall|light: Light|
                #![trigger light.spec_index()]
                final(self).animated_lights().contains(light) == final(self).light_mapping(
                    light,
                ).animated(),
            led_states@ == led_states_of(
                final(self).light_mappings(),
                all_lights().len() as int,
                old(self).state_mapper().elapsed(now),
            ),
    {
        proof {
            use_type_invariant(&*self);
        }
        let lights = Light::all();

        // The highest status level encountered for every light, by the
        // position of the light. Default all lights to inactive.
        let mut light_highest_status_levels: Vec<StatusLevel> = Vec::new();
        let mut position: usize = 0;
        while position < lights.len()
            invariant
                lights@ == all_lights(),
                position <= lights@.len(),
                light_highest_status_levels@.len() == position,
                forall|i: int|
                    0 <= i < position ==> light_highest_status_levels@[i] == StatusLevel::Inactive,
            decreases lights@.len() - position,
        {
            light_highest_status_levels.push(StatusLevel::Inactive);
            position += 1;
        }

        // Map given inputs to corresponding light and raise its level if the
        // status level is higher.
        let mut given: usize = 0;
        while given < input_status_levels.len()
            invariant
                given <= input_status_levels@.len(),
                light_highest_status_levels@.len() == all_lights().len(),
                forall|i: int|
                    0 <= i < all_lights().len() ==> #[trigger] light_highest_status_levels@[i]
                        == highest_status_level(
                        input_status_levels@.take(given as int),
                        all_lights()[i],
                    ),
            decreases input_status_levels@.len() - given,
        {
            let (input, status_level) = input_status_levels[given];
            let light = light_for_input(input);
            let light_position = light.index();
            let light_status_level = light_highest_status_levels[light_position];

            proof {
                assert(input_status_levels@.take(given + 1).drop_last()
                    =~= input_status_levels@.take(given as int));
                assert(input_status_levels@.take(given + 1).last()
                    == input_status_levels@[given as int]);
                lemma_lights_are_distinct();
            }
            if status_level.exceeds(&light_status_level) {
                light_highest_status_levels.set(light_position, status_level);
            }
            given += 1;
        }
        assert(input_status_levels@.take(given as int) =~= input_status_levels@);

        // Set the mode of every light, and list the lights that are in a mode
        // that requires animation.
        let mut updated_lights: Vec<LightMapping> = Vec::new();
        let mut animated_lights: Vec<Light> = Vec::new();
        let mut led_states: Vec<LedState> = Vec::new();
        let mut position: usize = 0;
        while position < lights.len()
            invariant
                lights@ == all_lights(),
                self.lights_are_mapped(),
                self.light_mode_to_state_mapper == old(self).light_mode_to_state_mapper,
                now >= self.light_mode_to_state_mapper.reference(),
                position <= lights@.len(),
                light_highest_status_levels@.len() == all_lights().len(),
                updated_lights@.len() == position,
                forall|i: int|
                    0 <= i < position ==> (#[trigger] updated_lights@[i]) == light_mapping_for(
                        all_lights()[i],
                    ).with_mode(
                        status_level_to_mode_mapper.mode_for(light_highest_status_levels@[i]),
                    ),
                animated_lights@ == animated_among(updated_lights@, position as int),
                led_states@ == led_states_of(
                    updated_lights@,
                    position as int,
                    self.light_mode_to_state_mapper.elapsed(now),
                ),
            decreases lights@.len() - position,
        {
            let ghost lights_before = updated_lights@;
            let mut light_mapping = self.lights[position];
            let light_mode = status_level_to_mode_mapper.map(
                &light_highest_status_levels[position],
            );

            light_mapping.set_mode(light_mode);
            light_mapping.update_state(&mut led_states, &self.light_mode_to_state_mapper, now);

            if light_mapping.is_animated() {
                animated_lights.push(lights[position]);
            }
            updated_lights.push(light_mapping);
            proof {
                assert(self.lights@[position as int].with_mode(unlit()) == light_mapping_for(
                    all_lights()[position as int],
                ));
                lemma_same_mappings_same_animated(lights_before, updated_lights@, position as int);
                lemma_same_mappings_same_led_states(
                    lights_before,
                    updated_lights@,
                    position as int,
                    self.light_mode_to_state_mapper.elapsed(now),
                );
            }
            position += 1;
        }

        proof {
            assert forall|i: int| 0 <= i < updated_lights@.len() implies (
            #[trigger] updated_lights@[i]).with_mode(unlit()) == light_mapping_for(
                all_lights()[i],
            ) by {}
            assert forall|light: Light|
                #![trigger light.spec_index()]
                animated_lights@.contains(light)
                    == updated_lights@[light.spec_index()].animated() by {
                lemma_animated_among_holds_the_animated(
                    updated_lights@,
                    all_lights().len() as int,
                    light,
                );
            }
        }
        *self = Device {
            lights: updated_lights,
            animated_lights,
            light_mode_to_state_mapper: self.light_mode_to_state_mapper,
        };
        led_states
    }

    /// Returns the states to put the LEDs of the animated lights in at the
    /// time `now` of the caller's clock: nothing where no light is animated.
    /// This needs to be called frequently for proper animation.
    pub fn update_animated_lights(&self, now: u128) -> (led_states: Vec<LedState>)
        requires
            now >= self.state_mapper().reference(),
        ensures
            led_states@ == led_states_of(
                self.animated_mappings(),
                self.animated_lights().len() as int,
                self.state_mapper().elapsed(now),
            ),
            self.animated_lights().len() == 0 ==> led_states@.len() == 0,
    {
        proof {
            use_type_invariant(self);
        }
        let mut led_states: Vec<LedState> = Vec::new();
        let mut position: usize = 0;
        while position < self.animated_lights.len()
            invariant
                self.lights_are_mapped(),
                now >= self.light_mode_to_state_mapper.reference(),
                position <= self.animated_lights@.len(),
                led_states@ == led_states_of(
                    self.animated_mappings(),
                    position as int,
                    self.light_mode_to_state_mapper.elapsed(now),
                ),
            decreases self.animated_lights@.len() - position,
        {
            let light = self.animated_lights[position];
            let light_mapping = &self.lights[light.index()];
            light_mapping.update_state(&mut led_states, &self.light_mode_to_state_mapper, now);
            position += 1;
        }
        led_states
    }
}

/// The mode in which every light is off.
pub open spec fn unlit() -> LightMode {
    LightMode { boolean: BooleanLightMode::Off, red_amber_green: RedAmberGreenLightMode::Off }
}

/// No two lights share a position.
pub proof fn lemma_lights_are_distinct()
    ensures
        forall|i: int|
            0 <= i < all_lights().len() ==> (#[trigger] all_lights()[i]).spec_index() == i,
        forall|light: Light|
            0 <= #[trigger] light.spec_index() < all_lights().len()
                && all_lights()[light.spec_index()] == light,
{
}

/// Mappings that are all in the mode they were made in hold no animated
/// light.
proof fn lemma_static_mappings_are_not_animated(mappings: Seq<LightMapping>, count: int)
    requires
        0 <= count <= mappings.len() <= all_lights().len(),
        forall|i: int|
            0 <= i < mappings.len() ==> (#[trigger] mappings[i]) == light_mapping_for(
                all_lights()[i],
            ),
    ensures
        animated_among(mappings, count).len() == 0,
    decreases count,
{
    if count > 0 {
        lemma_static_mappings_are_not_animated(mappings, count - 1);
    }
}

/// What is animated among the first `count` mappings depends on those alone.
proof fn lemma_same_mappings_same_animated(
    mappings: Seq<LightMapping>,
    others: Seq<LightMapping>,
    count: int,
)
    requires
        0 <= count <= mappings.len(),
        count <= others.len(),
        forall|i: int| 0 <= i < count ==> mappings[i] == others[i],
    ensures
        animated_among(mappings, count) == animated_among(others, count),
    decreases count,
{
    if count > 0 {
        lemma_same_mappings_same_animated(mappings, others, count - 1);
    }
}

/// The LED states of the first `count` mappings depend on those alone.
proof fn lemma_same_mappings_same_led_states(
    mappings: Seq<LightMapping>,
    others: Seq<LightMapping>,
    count: int,
    milliseconds: int,
)
    requires
        0 <= count <= mappings.len(),
        count <= others.len(),
        forall|i: int| 0 <= i < count ==> mappings[i] == others[i],
    ensures
        led_states_of(mappings, count, milliseconds) == led_states_of(others, count, milliseconds),
    decreases count,
{
    if count > 0 {
        lemma_same_mappings_same_led_states(mappings, others, count - 1, milliseconds);
    }
}

/// A light is listed among the animated ones exactly if it is among the
/// first `count` lights and its mapping is in an animated mode.
pub proof fn lemma_animated_among_holds_the_animated(
    mappings: Seq<LightMapping>,
    count: int,
    light: Light,
)
    requires
        0 <= count <= all_lights().len(),
        count <= mappings.len(),
    ensures
        animated_among(mappings, count).contains(light) == (light.spec_index() < count
            && mappings[light.spec_index()].animated()),
    decreases count,
{
    lemma_lights_are_distinct();
    if count > 0 {
        lemma_animated_among_holds_the_animated(mappings, count - 1, light);
        let before = animated_among(mappings, count - 1);
        if mappings[count - 1].animated() {
            let added = all_lights()[count - 1];
            assert(before.push(added)[before.len() as int] == added);
            if before.push(added).contains(light) {
                let i = choose|i: int|
                    0 <= i < before.push(added).len() && before.push(added)[i] == light;
                if i < before.len() {
                    assert(before[i] == light);
                }
            }
            if before.contains(light) {
                let i = choose|i: int| 0 <= i < before.len() && before[i] == light;
                assert(before.push(added)[i] == light);
            }
        }
    }
}

/// The level that a light shows is the maximum of the levels of the inputs
/// that share it: no such input has a higher level, and unless the light is
/// inactive, one of them has the very level.
pub proof fn law_highest_status_level_is_maximum(
    input_status_levels: Seq<(Input, StatusLevel)>,
    light: Light,
)
    ensures
        forall|i: int|
            0 <= i < input_status_levels.len() && light_of((#[trigger] input_status_levels[i]).0)
                == light ==> input_status_levels[i].1.rank() <= highest_status_level(
                input_status_levels,
                light,
            ).rank(),
        highest_status_level(input_status_levels, light) == StatusLevel::Inactive || exists|
            i: int,
        |
            0 <= i < input_status_levels.len() && light_of((#[trigger] input_status_levels[i]).0)
                == light && input_status_levels[i].1 == highest_status_level(
                input_status_levels,
                light,
            ),
    decreases input_status_levels.len(),
{
    if input_status_levels.len() > 0 {
        let before = input_status_levels.drop_last();
        law_highest_status_level_is_maximum(before, light);
        let last = input_status_levels.len() - 1;
        assert forall|i: int|
            0 <= i < input_status_levels.len() && light_of((#[trigger] input_status_levels[i]).0)
                == light implies input_status_levels[i].1.rank() <= highest_status_level(
            input_status_levels,
            light,
        ).rank() by {
            if i < last {
                assert(before[i] == input_status_levels[i]);
            }
        }
        let highest = highest_status_level(input_status_levels, light);
        if highest != StatusLevel::Inactive {
            if light_of(input_status_levels[last].0) == light && highest
                == input_status_levels[last].1 {
            } else {
                assert(highest == highest_status_level(before, light));
                let i = choose|i: int|
                    0 <= i < before.len() && light_of((#[trigger] before[i]).0) == light
                        && before[i].1 == highest_status_level(before, light);
                assert(input_status_levels[i] == before[i]);
            }
        }
    }
}

} // verus!
