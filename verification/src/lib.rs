//! Derives status levels for a ship's subsystems from its telemetry flags and
//! journal events, and renders those levels as light states for an X52 Pro.

pub mod config;
pub mod events;
pub mod game;
mod text;
pub mod x52pro;

use config::Config;
use events::Event;
use game::file::journal::Event as JournalEvent;
use game::file::Status as FileStatus;
use game::ship::{
    flags_after_event, flags_after_status, global_status_for, incoming_status_flags,
    status_changes, StatusBitField,
};
use game::{Attribute, Control, Controls, Ship, Status, StatusLevel};
use std::path::PathBuf;
use vstd::prelude::*;
use x52pro::device::{
    all_lights, highest_status_level, led_states_of, light_mapping_for, Device, Input, LedState,
    Light,
};
use x52pro::StatusLevelToModeMapper;

verus! {

/// The time between two animation ticks, in milliseconds: that of one flash.
pub const ANIMATION_TICK_MILLISECONDS: u64 = 500;

/// The controls whose inputs show the level of an attribute. The throttle has
/// no control among the supported ones.
pub open spec fn controls_of(attribute: Attribute) -> Seq<Control> {
    match attribute {
        Attribute::Boost => seq![Control::Boost],
        Attribute::CargoScoop => seq![Control::CargoScoop],
        Attribute::ExternalLights => seq![Control::ExternalLights],
        Attribute::FrameShiftDrive => seq![
            Control::Hyperspace,
            Control::HyperSuperCombination,
            Control::Supercruise,
        ],
        Attribute::Hardpoints => seq![Control::Hardpoints],
        Attribute::HeatSink => seq![Control::HeatSink],
        Attribute::LandingGear => seq![Control::LandingGear],
        Attribute::SilentRunning => seq![Control::SilentRunning],
        Attribute::Throttle => Seq::empty(),
    }
}

/// Each of the inputs, in their order, with the given level.
pub open spec fn inputs_at_level(
    inputs: Seq<Input>,
    level: StatusLevel,
) -> Seq<(Input, StatusLevel)> {
    Seq::new(inputs.len(), |i: int| (inputs[i], level))
}

/// The inputs bound to the first `count` of the given controls, control by
/// control, each with the given level.
pub open spec fn control_input_levels(
    bindings: Controls,
    controls: Seq<Control>,
    count: int,
    level: StatusLevel,
) -> Seq<(Input, StatusLevel)>
    decreases count,
{
    if count <= 0 {
        Seq::empty()
    } else {
        control_input_levels(bindings, controls, count - 1, level) + inputs_at_level(
            bindings.inputs_of(controls[count - 1]),
            level,
        )
    }
}

/// The inputs that show the first `count` of the given statuses, status by
/// status, each input with the level of the status that it shows.
pub open spec fn status_input_levels(
    bindings: Controls,
    statuses: Seq<Status>,
    count: int,
) -> Seq<(Input, StatusLevel)>
    decreases count,
{
    if count <= 0 {
        Seq::empty()
    } else {
        status_input_levels(bindings, statuses, count - 1) + control_input_levels(
            bindings,
            controls_of(statuses[count - 1].attribute),
            controls_of(statuses[count - 1].attribute).len() as int,
            statuses[count - 1].level,
        )
    }
}

/// Returns the controls whose inputs show the level of the status's
/// attribute.
pub fn controls_for_status(status: &Status) -> (controls: Vec<Control>)
    ensures
        controls@ == controls_of(status.attribute),
{
    let controls = match status.attribute {
        Attribute::Boost => vec![Control::Boost],
        Attribute::CargoScoop => vec![Control::CargoScoop],
        Attribute::ExternalLights => vec![Control::ExternalLights],
        Attribute::FrameShiftDrive => vec![
            Control::Hyperspace,
            Control::HyperSuperCombination,
            Control::Supercruise,
        ],
        Attribute::Hardpoints => vec![Control::Hardpoints],
        Attribute::HeatSink => vec![Control::HeatSink],
        Attribute::LandingGear => vec![Control::LandingGear],
        Attribute::SilentRunning => vec![Control::SilentRunning],
        Attribute::Throttle => Vec::new(),
    };
    assert(controls@ =~= controls_of(status.attribute));
    controls
}

/// Returns, for every status, every input bound to a control of the status's
/// attribute, with the level of the status.
pub fn input_status_levels_for(
    controls: &Controls,
    statuses: &Vec<Status>,
) -> (input_status_levels: Vec<(Input, StatusLevel)>)
    ensures
        input_status_levels@ == status_input_levels(*controls, statuses@, statuses@.len() as int),
{
    let mut input_status_levels: Vec<(Input, StatusLevel)> = Vec::new();
    let mut status_position: usize = 0;

    while status_position < statuses.len()
        invariant
            status_position <= statuses@.len(),
            input_status_levels@ == status_input_levels(
                *controls,
                statuses@,
                status_position as int,
            ),
        decreases statuses@.len() - status_position,
    {
        let status = &statuses[status_position];
        let status_controls = controls_for_status(status);
        let ghost levels_before = input_status_levels@;
        let mut control_position: usize = 0;

        while control_position < status_controls.len()
            invariant
                control_position <= status_controls@.len(),
                input_status_levels@ == levels_before + control_input_levels(
                    *controls,
                    status_controls@,
                    control_position as int,
                    status.level,
                ),
            decreases status_controls@.len() - control_position,
        {
            let inputs = controls.inputs_for_control(status_controls[control_position]);
            let ghost levels_of_controls_before = input_status_levels@;
            let mut input_position: usize = 0;

            while input_position < inputs.len()
                invariant
                    input_position <= inputs@.len(),
                    input_status_levels@ == levels_of_controls_before + inputs_at_level(
                        inputs@,
                        status.level,
                    ).take(input_position as int),
                decreases inputs@.len() - input_position,
            {
                input_status_levels.push((inputs[input_position], status.level));
                input_position += 1;
                assert(inputs_at_level(inputs@, status.level).take(input_position as int)
                    =~= inputs_at_level(inputs@, status.level).take(input_position - 1).push(
                    (inputs@[input_position - 1], status.level),
                ));
            }
            assert(inputs_at_level(inputs@, status.level).take(input_position as int)
                =~= inputs_at_level(inputs@, status.level));
            assert(input_status_levels@ =~= levels_before + control_input_levels(
                *controls,
                status_controls@,
                control_position + 1,
                status.level,
            ));
            control_position += 1;
        }
        status_position += 1;
    }

    input_status_levels
}

/// Sets the lights of the device from the statuses of the ship: every input
/// bound to a control of a status's attribute is given the status's level,
/// and the device resolves the levels of the inputs that share a light.
/// Returns the states to put the LEDs of all lights in at the time `now`.
pub fn set_x52pro_inputs_from_ship_statues(
    x52pro: &mut Device,
    controls: &Controls,
    statuses: Vec<Status>,
    status_level_to_mode_mapper: &StatusLevelToModeMapper,
    now: u128,
) -> (led_states: Vec<LedState>)
    requires
        now >= old(x52pro).state_mapper().reference(),
    ensures
        final(x52pro).state_mapper() == old(x52pro).state_mapper(),
        final(x52pro).light_mappings().len() == all_lights().len(),
        forall|light: Light|
            #![trigger light.spec_index()]
            final(x52pro).light_mapping(light) == light_mapping_for(light).with_mode(
                status_level_to_mode_mapper.mode_for(
                    highest_status_level(
                        status_input_levels(*controls, statuses@, statuses@.len() as int),
                        light,
                    ),
                ),
            ),
        forall|light: Light|
            #![trigger light.spec_index()]
            final(x52pro).animated_lights().contains(light) == final(x52pro).light_mapping(
                light,
            ).animated(),
        led_states@ == led_states_of(
            final(x52pro).light_mappings(),
            all_lights().len() as int,
            old(x52pro).state_mapper().elapsed(now),
        ),
{
    let input_status_levels = input_status_levels_for(controls, &statuses);
    x52pro.set_input_status_levels(input_status_levels, status_level_to_mode_mapper, now)
}

/// The bit field after the first `count` of the journal events have been
/// applied, one after the other.
pub open spec fn flags_after_events(
    current: StatusBitField,
    events: Seq<JournalEvent>,
    count: int,
) -> StatusBitField
    decreases count,
{
    if count <= 0 {
        current
    } else {
        flags_after_event(flags_after_events(current, events, count - 1), events[count - 1])
    }
}

/// Applies the journal events to the ship, one after the other.
pub fn apply_journal_events(ship: &mut Ship, journal_events: &Vec<JournalEvent>)
    ensures
        final(ship).flags() == flags_after_events(
            old(ship).flags(),
            journal_events@,
            journal_events@.len() as int,
        ),
{
    let mut position: usize = 0;
    while position < journal_events.len()
        invariant
            position <= journal_events@.len(),
            ship.flags() == flags_after_events(
                old(ship).flags(),
                journal_events@,
                position as int,
            ),
        decreases journal_events@.len() - position,
    {
        ship.apply_journal_event(journal_events[position]);
        position += 1;
    }
}

/// What the event loop is to do once an event has been handled.
#[derive(Debug, PartialEq)]
pub enum Action {
    /// Open the journal file at the path, and read journal events from it
    /// from now on.
    OpenJournal(PathBuf),
    /// Put each LED in the state given, in the order given.
    SetLeds(Vec<LedState>),
    /// Nothing: the status update brought no change that is relevant.
    Nothing,
    /// End the loop.
    Exit,
}

/// All that the event loop owns: the ship, the device, the controls bound to
/// its inputs, and the configured light modes.
pub struct Session {
    pub ship: Ship,
    pub x52pro: Device,
    pub controls: Controls,
    pub config: Config,
}

impl Session {
    /// Returns a session for a ship of which nothing is known yet and a
    /// device whose lights are timed from the given reference time.
    pub fn new(config: Config, controls: Controls, reference_milliseconds: u128) -> (session: Self)
        ensures
            session.ship.flags() == 0,
            session.config == config,
            session.controls == controls,
            session.x52pro.state_mapper().reference() == reference_milliseconds,
            session.x52pro.animated_lights().len() == 0,
            forall|light: Light|
                #![trigger light.spec_index()]
                session.x52pro.light_mapping(light) == light_mapping_for(light),
    {
        Session { ship: Ship::new(), x52pro: Device::new(reference_milliseconds), controls, config }
    }

    /// True if a status update makes it necessary to set the lights anew:
    /// the status differs from what is known, or journal events came with it.
    pub open spec fn update_is_relevant(
        current: StatusBitField,
        status: FileStatus,
        journal_events: Seq<JournalEvent>,
    ) -> bool {
        journal_events.len() > 0 || status_changes(
            flags_after_events(current, journal_events, journal_events.len() as int),
            incoming_status_flags(status),
        )
    }

    /// Handles one event at the time `now` of the caller's clock, and says
    /// what the event loop is to do next. `journal_events` holds the events
    /// of interest that the journal has gained since the last status update:
    /// they are looked at for a status update only, and applied before it.
    pub fn handle(
        &mut self,
        event: Event,
        journal_events: Vec<JournalEvent>,
        now: u128,
    ) -> (action: Action)
        requires
            now >= old(self).x52pro.state_mapper().reference(),
        ensures
            final(self).config == old(self).config,
            final(self).controls == old(self).controls,
            final(self).x52pro.state_mapper() == old(self).x52pro.state_mapper(),
            match event {
                Event::NewJournalFile(path) => {
                    &&& action == Action::OpenJournal(path)
                    &&& final(self).ship.flags() == old(self).ship.flags()
                    &&& final(self).x52pro == old(self).x52pro
                },
                Event::Exit => {
                    &&& action == Action::Exit
                    &&& final(self).ship.flags() == old(self).ship.flags()
                    &&& final(self).x52pro == old(self).x52pro
                },
                Event::AnimationTick => {
                    &&& final(self).ship.flags() == old(self).ship.flags()
                    &&& final(self).x52pro == old(self).x52pro
                    &&& action matches Action::SetLeds(led_states)
                    &&& led_states@ == led_states_of(
                        old(self).x52pro.animated_mappings(),
                        old(self).x52pro.animated_lights().len() as int,
                        old(self).x52pro.state_mapper().elapsed(now),
                    )
                },
                Event::StatusUpdate(status) => {
                    &&& final(self).ship.flags() == flags_after_status(
                        flags_after_events(
                            old(self).ship.flags(),
                            journal_events@,
                            journal_events@.len() as int,
                        ),
                        incoming_status_flags(status),
                    )
                    &&& if Self::update_is_relevant(
                        old(self).ship.flags(),
                        status,
                        journal_events@,
                    ) {
                        &&& action matches Action::SetLeds(led_states)
                        &&& led_states@ == led_states_of(
                            final(self).x52pro.light_mappings(),
                            all_lights().len() as int,
                            old(self).x52pro.state_mapper().elapsed(now),
                        )
                        &&& forall|light: Light|
                            #![trigger light.spec_index()]
                            final(self).x52pro.light_mapping(light) == light_mapping_for(
                                light,
                            ).with_mode(
                                old(self).config.mode_config_for(
                                    global_status_for(final(self).ship.flags()),
                                ).mapper().mode_for(
                                    highest_status_level(
                                        status_input_levels(
                                            old(self).controls,
                                            final(self).ship.statuses_of(),
                                            final(self).ship.statuses_of().len() as int,
                                        ),
                                        light,
                                    ),
                                ),
                            )
                        &&& forall|light: Light|
                            #![trigger light.spec_index()]
                            final(self).x52pro.animated_lights().contains(light)
                                == final(self).x52pro.light_mapping(light).animated()
                    } else {
                        &&& action == Action::Nothing
                        &&& final(self).x52pro == old(self).x52pro
                    }
                },
            },
    {
        match event {
            Event::NewJournalFile(file_path) => Action::OpenJournal(file_path),
            Event::Exit => Action::Exit,
            Event::AnimationTick => Action::SetLeds(self.x52pro.update_animated_lights(now)),
            Event::StatusUpdate(status) => {
                let journal_events_present = journal_events.len() > 0;

                apply_journal_events(&mut self.ship, &journal_events);

                // The status is taken in whether or not journal events came.
                let status_changed = self.ship.update_status(status);

                if status_changed || journal_events_present {
                    let mapper = self.config.status_level_to_mode_mapper(
                        self.ship.global_status(),
                    );
                    let statuses = self.ship.statuses();
                    Action::SetLeds(
                        set_x52pro_inputs_from_ship_statues(
                            &mut self.x52pro,
                            &self.controls,
                            statuses,
                            &mapper,
                            now,
                        ),
                    )
                } else {
                    Action::Nothing
                }
            },
        }
    }
}

} // verus!
