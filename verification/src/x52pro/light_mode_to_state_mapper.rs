use crate::x52pro::device::{BooleanLightMode, Led, LedState, RedAmberGreenLightMode};
use vstd::prelude::*;

verus! {

/// The time for which a flashing light stays in each of its two states.
pub const ALERT_FLASH_MILLISECONDS: u128 = 500;

/// Available final, unanimated states for lights on the device.
#[derive(Clone, Copy, Debug, PartialEq, Eq, Structural)]
pub enum RedAmberGreenLightState {
    Off,
    Red,
    Amber,
    Green,
}

impl RedAmberGreenLightState {
    /// The states of the red and of the green LED that show the colour: amber
    /// is both at once.
    pub open spec fn leds(self) -> (bool, bool) {
        match self {
            RedAmberGreenLightState::Off => (false, false),
            RedAmberGreenLightState::Red => (true, false),
            RedAmberGreenLightState::Amber => (true, true),
            RedAmberGreenLightState::Green => (false, true),
        }
    }
}

/// Available states for a light on the device that can be either off or on.
#[derive(Clone, Copy, Debug, PartialEq, Eq, Structural)]
pub enum BooleanLightState {
    Off,
    On,
}

impl BooleanLightState {
    /// The state of the LED that shows the state of the light.
    pub open spec fn led(self) -> bool {
        self == BooleanLightState::On
    }
}

/// True if a flashing light is in the first of its two states at the given
/// time offset: the states take turns, each for the time of one flash.
pub open spec fn in_first_phase(milliseconds: int) -> bool {
    (milliseconds / (ALERT_FLASH_MILLISECONDS as int)) % 2 == 0
}

/// The first and the second state of a boolean light mode. A mode that is
/// not animated has the same state twice.
pub open spec fn boolean_phases(light_mode: BooleanLightMode) -> (
    BooleanLightState,
    BooleanLightState,
) {
    match light_mode {
        BooleanLightMode::Off => (BooleanLightState::Off, BooleanLightState::Off),
        BooleanLightMode::On => (BooleanLightState::On, BooleanLightState::On),
        BooleanLightMode::Flash => (BooleanLightState::On, BooleanLightState::Off),
    }
}

/// The first and the second state of a red/amber/green light mode. A mode
/// that is not animated has the same state twice.
pub open spec fn red_amber_green_phases(light_mode: RedAmberGreenLightMode) -> (
    RedAmberGreenLightState,
    RedAmberGreenLightState,
) {
    match light_mode {
        RedAmberGreenLightMode::Off => (RedAmberGreenLightState::Off, RedAmberGreenLightState::Off),
        RedAmberGreenLightMode::Red => (RedAmberGreenLightState::Red, RedAmberGreenLightState::Red),
        RedAmberGreenLightMode::Amber => (
            RedAmberGreenLightState::Amber,
            RedAmberGreenLightState::Amber,
        ),
        RedAmberGreenLightMode::Green => (
            RedAmberGreenLightState::Green,
            RedAmberGreenLightState::Green,
        ),
        RedAmberGreenLightMode::RedAmber => (
            RedAmberGreenLightState::Red,
            RedAmberGreenLightState::Amber,
        ),
        RedAmberGreenLightMode::RedFlash => (
            RedAmberGreenLightState::Red,
            RedAmberGreenLightState::Off,
        ),
        RedAmberGreenLightMode::RedAmberFlash => (
            RedAmberGreenLightState::Red,
            RedAmberGreenLightState::Amber,
        ),
        RedAmberGreenLightMode::RedGreenFlash => (
            RedAmberGreenLightState::Red,
            RedAmberGreenLightState::Green,
        ),
        RedAmberGreenLightMode::AmberFlash => (
            RedAmberGreenLightState::Amber,
            RedAmberGreenLightState::Off,
        ),
        RedAmberGreenLightMode::AmberRedFlash => (
            RedAmberGreenLightState::Amber,
            RedAmberGreenLightState::Red,
        ),
        RedAmberGreenLightMode::AmberGreenFlash => (
            RedAmberGreenLightState::Amber,
            RedAmberGreenLightState::Green,
        ),
        RedAmberGreenLightMode::GreenFlash => (
            RedAmberGreenLightState::Green,
            RedAmberGreenLightState::Off,
        ),
        RedAmberGreenLightMode::GreenAmberFlash => (
            RedAmberGreenLightState::Green,
            RedAmberGreenLightState::Amber,
        ),
        RedAmberGreenLightMode::GreenRedFlash => (
            RedAmberGreenLightState::Green,
            RedAmberGreenLightState::Red,
        ),
    }
}

/// The state of a boolean light in the given mode at the given time offset.
pub open spec fn boolean_state(
    light_mode: BooleanLightMode,
    milliseconds: int,
) -> BooleanLightState {
    if in_first_phase(milliseconds) {
        boolean_phases(light_mode).0
    } else {
        boolean_phases(light_mode).1
    }
}

/// The state of a red/amber/green light in the given mode at the given time
/// offset.
pub open spec fn red_amber_green_state(
    light_mode: RedAmberGreenLightMode,
    milliseconds: int,
) -> RedAmberGreenLightState {
    if in_first_phase(milliseconds) {
        red_amber_green_phases(light_mode).0
    } else {
        red_amber_green_phases(light_mode).1
    }
}

/// Returns the boolean light state that corresponds to the given light mode at
/// the given time offset (in milliseconds).
pub fn boolean_state_for_mode(
    light_mode: &BooleanLightMode,
    milliseconds: u128,
) -> (state: BooleanLightState)
    ensures
        state == boolean_state(*light_mode, milliseconds as int),
{
    match light_mode {
        BooleanLightMode::Off => BooleanLightState::Off,
        BooleanLightMode::On => BooleanLightState::On,
        BooleanLightMode::Flash => {
            animated_state(milliseconds, BooleanLightState::On, BooleanLightState::Off)
        },
    }
}

/// Returns the red/amber/green light state that corresponds to the given light
/// mode at the given time offset (in milliseconds).
pub fn red_amber_green_state_for_mode(
    light_mode: &RedAmberGreenLightMode,
    milliseconds: u128,
) -> (state: RedAmberGreenLightState)
    ensures
        state == red_amber_green_state(*light_mode, milliseconds as int),
{
    match light_mode {
        RedAmberGreenLightMode::Off => RedAmberGreenLightState::Off,
        RedAmberGreenLightMode::Red => RedAmberGreenLightState::Red,
        RedAmberGreenLightMode::Amber => RedAmberGreenLightState::Amber,
        RedAmberGreenLightMode::Green => RedAmberGreenLightState::Green,
        RedAmberGreenLightMode::RedAmber => animated_state(
            milliseconds,
            RedAmberGreenLightState::Red,
            RedAmberGreenLightState::Amber,
        ),
        RedAmberGreenLightMode::RedFlash => animated_state(
            milliseconds,
            RedAmberGreenLightState::Red,
            RedAmberGreenLightState::Off,
        ),
        RedAmberGreenLightMode::RedAmberFlash => animated_state(
            milliseconds,
            RedAmberGreenLightState::Red,
            RedAmberGreenLightState::Amber,
        ),
        RedAmberGreenLightMode::RedGreenFlash => animated_state(
            milliseconds,
            RedAmberGreenLightState::Red,
            RedAmberGreenLightState::Green,
        ),
        RedAmberGreenLightMode::AmberFlash => animated_state(
            milliseconds,
            RedAmberGreenLightState::Amber,
            RedAmberGreenLightState::Off,
        ),
        RedAmberGreenLightMode::AmberRedFlash => animated_state(
            milliseconds,
            RedAmberGreenLightState::Amber,
            RedAmberGreenLightState::Red,
        ),
        RedAmberGreenLightMode::AmberGreenFlash => animated_state(
            milliseconds,
            RedAmberGreenLightState::Amber,
            RedAmberGreenLightState::Green,
        ),
        RedAmberGreenLightMode::GreenFlash => animated_state(
            milliseconds,
            RedAmberGreenLightState::Green,
            RedAmberGreenLightState::Off,
        ),
        RedAmberGreenLightMode::GreenAmberFlash => animated_state(
            milliseconds,
            RedAmberGreenLightState::Green,
            RedAmberGreenLightState::Amber,
        ),
        RedAmberGreenLightMode::GreenRedFlash => animated_state(
            milliseconds,
            RedAmberGreenLightState::Green,
            RedAmberGreenLightState::Red,
        ),
    }
}

/// Returns either the first or second state based on the elapsed milliseconds
/// given as compared to the defined interval for animation.
pub fn animated_state<T>(milliseconds: u128, first_state: T, second_state: T) -> (state: T)
    ensures
        state == if in_first_phase(milliseconds as int) {
            first_state
        } else {
            second_state
        },
{
    if (milliseconds / ALERT_FLASH_MILLISECONDS) % 2 == 0 {
        first_state
    } else {
        second_state
    }
}

/// The state of the LED of a boolean light in the given mode at the given
/// time offset.
pub open spec fn binary_led_state(
    light_mode: BooleanLightMode,
    led_id: Led,
    milliseconds: int,
) -> LedState {
    LedState { led: led_id, active: boolean_state(light_mode, milliseconds).led() }
}

/// The states of the red and of the green LED of a red/amber/green light in
/// the given mode at the given time offset.
pub open spec fn red_amber_green_led_states(
    light_mode: RedAmberGreenLightMode,
    red_led_id: Led,
    green_led_id: Led,
    milliseconds: int,
) -> (LedState, LedState) {
    (
        LedState {
            led: red_led_id,
            active: red_amber_green_state(light_mode, milliseconds).leds().0,
        },
        LedState {
            led: green_led_id,
            active: red_amber_green_state(light_mode, milliseconds).leds().1,
        },
    )
}

/// Maps light modes to light states. The returned states change over time
/// because certain modes are animated, i.e. flashing. All of them are timed
/// from the one reference time of the mapper, so all lights flash in unison.
#[derive(Clone, Copy, Debug)]
pub struct LightModeToStateMapper {
    reference_milliseconds: u128,
}

impl LightModeToStateMapper {
    /// The reference time, in milliseconds of the caller's clock.
    pub closed spec fn reference(&self) -> u128 {
        self.reference_milliseconds
    }

    /// The time from the reference time to `now`.
    pub open spec fn elapsed(&self, now: u128) -> int {
        now - self.reference()
    }

    /// Returns a new instance of the mapper, whose reference time is the
    /// given time of the caller's clock, in milliseconds.
    pub fn new(reference_milliseconds: u128) -> (mapper: Self)
        ensures
            mapper.reference() == reference_milliseconds,
    {
        Self { reference_milliseconds }
    }

    /// Returns the state to put the given LED in, based on the given mode and
    /// the time `now` of the caller's clock.
    pub fn update_binary_light(
        &self,
        light_mode: &BooleanLightMode,
        led_id: Led,
        now: u128,
    ) -> (led_state: LedState)
        requires
            now >= self.reference(),
        ensures
            led_state == binary_led_state(*light_mode, led_id, self.elapsed(now)),
    {
        let light_state = boolean_state_for_mode(light_mode, self.milliseconds_elapsed(now));

        let led_active = match light_state {
            BooleanLightState::Off => false,
            BooleanLightState::On => true,
        };

        LedState { led: led_id, active: led_active }
    }

    /// Returns the states to put the given LEDs in, the red one first, based
    /// on the given mode and the time `now` of the caller's clock.
    pub fn update_red_amber_green_light(
        &self,
        light_mode: &RedAmberGreenLightMode,
        red_led_id: Led,
        green_led_id: Led,
        now: u128,
    ) -> (led_states: (LedState, LedState))
        requires
            now >= self.reference(),
        ensures
            led_states == red_amber_green_led_states(
                *light_mode,
                red_led_id,
                green_led_id,
                self.elapsed(now),
            ),
    {
        let light_state = red_amber_green_state_for_mode(
            light_mode,
            self.milliseconds_elapsed(now),
        );

        let (red_led_state, green_led_state) = match light_state {
            RedAmberGreenLightState::Off => (false, false),
            RedAmberGreenLightState::Red => (true, false),
            RedAmberGreenLightState::Amber => (true, true),
            RedAmberGreenLightState::Green => (false, true),
        };

        (
            LedState { led: red_led_id, active: red_led_state },
            LedState { led: green_led_id, active: green_led_state },
        )
    }

    /// Returns the number of milliseconds elapsed since the reference time at
    /// the time `now` of the caller's clock, which is not before it.
    pub fn milliseconds_elapsed(&self, now: u128) -> (milliseconds: u128)
        requires
            now >= self.reference(),
        ensures
            milliseconds == self.elapsed(now),
    {
        now - self.reference_milliseconds
    }
}

/// A light in a mode that is not animated is in the same state at all times.
pub proof fn law_static_modes_are_constant(
    boolean: BooleanLightMode,
    red_amber_green: RedAmberGreenLightMode,
    milliseconds: int,
    later: int,
)
    ensures
        !boolean.animated() ==> boolean_state(boolean, milliseconds) == boolean_state(
            boolean,
            later,
        ),
        !red_amber_green.animated() ==> red_amber_green_state(red_amber_green, milliseconds)
            == red_amber_green_state(red_amber_green, later),
{
}

/// A light in an animated mode changes its state from one flash to the next,
/// and is back in the same state after two.
pub proof fn law_animated_modes_alternate(
    boolean: BooleanLightMode,
    red_amber_green: RedAmberGreenLightMode,
    milliseconds: int,
)
    requires
        milliseconds >= 0,
    ensures
        boolean.animated() ==> boolean_state(boolean, milliseconds) != boolean_state(
            boolean,
            milliseconds + ALERT_FLASH_MILLISECONDS,
        ),
        red_amber_green.animated() ==> red_amber_green_state(red_amber_green, milliseconds)
            != red_amber_green_state(red_amber_green, milliseconds + ALERT_FLASH_MILLISECONDS),
        boolean_state(boolean, milliseconds) == boolean_state(
            boolean,
            milliseconds + 2 * ALERT_FLASH_MILLISECONDS,
        ),
        red_amber_green_state(red_amber_green, milliseconds) == red_amber_green_state(
            red_amber_green,
            milliseconds + 2 * ALERT_FLASH_MILLISECONDS,
        ),
{
    lemma_phase_alternates(milliseconds);
}

/// The phase changes after the time of one flash and is the same again after
/// the time of two.
pub proof fn lemma_phase_alternates(milliseconds: int)
    requires
        milliseconds >= 0,
    ensures
        in_first_phase(milliseconds + ALERT_FLASH_MILLISECONDS) == !in_first_phase(milliseconds),
        in_first_phase(milliseconds + 2 * ALERT_FLASH_MILLISECONDS) == in_first_phase(
            milliseconds,
        ),
{
    assert((milliseconds + 500) / 500 == milliseconds / 500 + 1);
    assert((milliseconds + 1000) / 500 == milliseconds / 500 + 2);
}

} // verus!
