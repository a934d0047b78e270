use super::file::journal::Event;
use super::file::{LegalState, Status as FileStatus};
use vstd::prelude::*;

verus! {

/// The packed set of boolean facts known about the ship.
pub type StatusBitField = u64;

// Facts mirrored from the flags of the status snapshot, each at the bit
// position that the game documents for it.
/// Bit 2 of the snapshot flags.
pub const LANDING_GEAR_DEPLOYED: StatusBitField = 0x4;

/// Bit 4 of the snapshot flags.
pub const SUPERCRUISE: StatusBitField = 0x10;

/// Bit 6 of the snapshot flags.
pub const HARDPOINTS_DEPLOYED: StatusBitField = 0x40;

/// Bit 8 of the snapshot flags.
pub const EXTERNAL_LIGHTS_ON: StatusBitField = 0x100;

/// Bit 9 of the snapshot flags.
pub const CARGO_SCOOP_DEPLOYED: StatusBitField = 0x200;

/// Bit 10 of the snapshot flags.
pub const SILENT_RUNNING: StatusBitField = 0x400;

/// Bit 16 of the snapshot flags.
pub const MASS_LOCKED: StatusBitField = 0x1_0000;

/// Bit 17 of the snapshot flags.
pub const FRAME_SHIFT_DRIVE_CHARGING: StatusBitField = 0x2_0000;

/// Bit 18 of the snapshot flags.
pub const FRAME_SHIFT_DRIVE_COOLDOWN: StatusBitField = 0x4_0000;

/// Bit 20 of the snapshot flags.
pub const OVERHEATING: StatusBitField = 0x10_0000;

// Facts that come from sources other than the snapshot flags are packed into
// the high half of the word, which the snapshot flags cannot reach.
/// Bit 48: set and cleared by journal events only.
pub const DOCKING: StatusBitField = 0x1_0000_0000_0000;

/// Bit 49: mirrors the legal state that the snapshot carries beside its flags.
pub const SPEEDING: StatusBitField = 0x2_0000_0000_0000;

/// The bits that a status snapshot decides.
pub const STATUS_FILTER: StatusBitField = LANDING_GEAR_DEPLOYED | CARGO_SCOOP_DEPLOYED
    | EXTERNAL_LIGHTS_ON | FRAME_SHIFT_DRIVE_CHARGING | MASS_LOCKED | FRAME_SHIFT_DRIVE_COOLDOWN
    | OVERHEATING | SILENT_RUNNING | HARDPOINTS_DEPLOYED | SUPERCRUISE | SPEEDING;

/// The bits that only journal events decide.
pub const DERIVED_FILTER: StatusBitField = DOCKING;

/// An attribute of a `Ship` that can be associated with a value.
#[derive(Clone, Copy, Debug, PartialEq, Eq, Structural)]
pub enum Attribute {
    Boost,
    CargoScoop,
    ExternalLights,
    FrameShiftDrive,
    Hardpoints,
    HeatSink,
    LandingGear,
    SilentRunning,
    Throttle,
}

/// A status value that can be associated to an `Attribute` through a `Status`.
/// The levels are ordered by severity: `Inactive < Active < Blocked < Alert`.
#[derive(Clone, Copy, Debug, PartialEq, Eq, Structural)]
pub enum StatusLevel {
    Inactive,
    Active,
    Blocked,
    Alert,
}

impl StatusLevel {
    /// The position of the level in the severity order.
    pub open spec fn rank(self) -> nat {
        match self {
            StatusLevel::Inactive => 0,
            StatusLevel::Active => 1,
            StatusLevel::Blocked => 2,
            StatusLevel::Alert => 3,
        }
    }

    /// The more severe of two levels.
    pub open spec fn spec_max(self, other: StatusLevel) -> StatusLevel {
        if other.rank() > self.rank() {
            other
        } else {
            self
        }
    }

    /// Returns the position of the level in the severity order.
    pub fn severity(&self) -> (rank: u8)
        ensures
            rank == self.rank(),
    {
        match self {
            StatusLevel::Inactive => 0,
            StatusLevel::Active => 1,
            StatusLevel::Blocked => 2,
            StatusLevel::Alert => 3,
        }
    }

    /// Returns true if this level is strictly more severe than `other`.
    pub fn exceeds(&self, other: &StatusLevel) -> (higher: bool)
        ensures
            higher == (self.rank() > other.rank()),
    {
        self.severity() > other.severity()
    }
}

/// An association of an `Attribute` to a `StatusLevel` value for a `Ship`.
#[derive(Clone, Copy, Debug, PartialEq, Eq, Structural)]
pub struct Status {
    pub attribute: Attribute,
    pub level: StatusLevel,
}

/// A condition that can be used to specify a `StatusLevel` through a
/// `ConditionStatusLevelMapping`.
#[derive(Clone, Copy, Debug, PartialEq, Eq, Structural)]
pub enum Condition {
    Any(StatusBitField),
    All(StatusBitField),
}

impl Condition {
    /// True if the condition is met by the given bit field: `Any` asks for at
    /// least one of its bits, `All` for every one of them.
    pub open spec fn holds(self, flags: StatusBitField) -> bool {
        match self {
            Condition::Any(mask) => flags & mask != 0,
            Condition::All(mask) => flags & mask == mask,
        }
    }
}

/// A mapping that defines the `Condition` that indicates a `StatusLevel`
/// applies.
#[derive(Clone, Copy, Debug, PartialEq, Eq, Structural)]
pub struct ConditionStatusLevelMapping {
    pub condition: Condition,
    pub status_level: StatusLevel,
}

impl ConditionStatusLevelMapping {
    pub fn new(condition: Condition, status_level: StatusLevel) -> (mapping: Self)
        ensures
            mapping.condition == condition,
            mapping.status_level == status_level,
    {
        Self { condition, status_level }
    }
}

/// A list of `ConditionStatusLevelMapping` instances that apply to an
/// `Attribute`.
pub struct AttributeStatusLevelMappings {
    pub attribute: Attribute,
    pub condition_status_level_mappings: Vec<ConditionStatusLevelMapping>,
}

impl AttributeStatusLevelMappings {
    pub fn new(
        attribute: Attribute,
        condition_status_level_mappings: Vec<ConditionStatusLevelMapping>,
    ) -> (mappings: Self)
        ensures
            mappings.attribute == attribute,
            mappings.condition_status_level_mappings == condition_status_level_mappings,
    {
        Self { attribute, condition_status_level_mappings }
    }
}

/// The highest precedence status of the ship as a whole.
#[derive(Clone, Copy, Debug, PartialEq, Eq, Structural)]
pub enum GlobalStatus {
    Normal,
    HardpointsDeployed,
    NightVisionOn,
}

/// The level that an ordered list of mappings gives to a bit field, looking
/// at the mappings from position `start` on: the level of the first mapping
/// whose condition holds, and `Inactive` if there is none.
pub open spec fn level_from(
    flags: StatusBitField,
    mappings: Seq<ConditionStatusLevelMapping>,
    start: int,
) -> StatusLevel
    decreases mappings.len() - start,
{
    if start < 0 || start >= mappings.len() {
        StatusLevel::Inactive
    } else if mappings[start].condition.holds(flags) {
        mappings[start].status_level
    } else {
        level_from(flags, mappings, start + 1)
    }
}

/// The level that an ordered list of mappings gives to a bit field.
pub open spec fn level_for(
    flags: StatusBitField,
    mappings: Seq<ConditionStatusLevelMapping>,
) -> StatusLevel {
    level_from(flags, mappings, 0)
}

/// The bit field that a status snapshot describes: its flags in the low half,
/// and the speeding bit if the legal state says so.
pub open spec fn incoming_status_flags(status: FileStatus) -> StatusBitField {
    (status.flags as u64) | (if status.legal_state == LegalState::Speeding {
        SPEEDING
    } else {
        0
    })
}

/// The part of a bit field that a status snapshot decides.
pub open spec fn filtered(flags: StatusBitField) -> StatusBitField {
    flags & STATUS_FILTER
}

/// True if a snapshot that describes `incoming` differs from the bit field
/// `current` in a bit that snapshots decide.
pub open spec fn status_changes(current: StatusBitField, incoming: StatusBitField) -> bool {
    filtered(current) != filtered(incoming)
}

/// The bit field after a snapshot that describes `incoming` has been taken
/// in: unchanged if the snapshot brings nothing new, else the snapshot's part
/// together with the derived bits as they were.
pub open spec fn flags_after_status(
    current: StatusBitField,
    incoming: StatusBitField,
) -> StatusBitField {
    if status_changes(current, incoming) {
        filtered(incoming) | (current & DERIVED_FILTER)
    } else {
        current
    }
}

/// The bit field after a journal event has been applied.
pub open spec fn flags_after_event(current: StatusBitField, event: Event) -> StatusBitField {
    match event {
        Event::Docked | Event::DockingCancelled | Event::DockingTimeout => current & !DOCKING,
        Event::DockingGranted => current | DOCKING,
        Event::Other => current,
    }
}

/// True if the journal event is one that changes what is known of the ship.
pub open spec fn is_known_event(event: Event) -> bool {
    event != Event::Other
}

/// True if the bit field holds no bit but those that snapshots and journal
/// events decide.
pub open spec fn only_known_bits(flags: StatusBitField) -> bool {
    flags & !(STATUS_FILTER | DERIVED_FILTER) == 0
}

/// The attributes in the order in which `Ship::statuses` reports them.
pub open spec fn reported_attributes() -> Seq<Attribute> {
    seq![
        Attribute::CargoScoop,
        Attribute::ExternalLights,
        Attribute::FrameShiftDrive,
        Attribute::LandingGear,
        Attribute::HeatSink,
        Attribute::SilentRunning,
        Attribute::Hardpoints,
        Attribute::Boost,
        Attribute::Throttle,
    ]
}

/// The ordered mappings of each attribute. The order within a list is its
/// precedence: a mapping is looked at only if none before it applies.
pub open spec fn mappings_for(attribute: Attribute) -> Seq<ConditionStatusLevelMapping> {
    match attribute {
        Attribute::CargoScoop => seq![
            ConditionStatusLevelMapping {
                condition: Condition::All(CARGO_SCOOP_DEPLOYED),
                status_level: StatusLevel::Active,
            },
        ],
        Attribute::ExternalLights => seq![
            ConditionStatusLevelMapping {
                condition: Condition::All(EXTERNAL_LIGHTS_ON),
                status_level: StatusLevel::Active,
            },
        ],
        Attribute::FrameShiftDrive => seq![
            ConditionStatusLevelMapping {
                condition: Condition::All(FRAME_SHIFT_DRIVE_CHARGING | OVERHEATING),
                status_level: StatusLevel::Alert,
            },
            ConditionStatusLevelMapping {
                condition: Condition::All(SUPERCRUISE),
                status_level: StatusLevel::Active,
            },
            ConditionStatusLevelMapping {
                condition: Condition::Any(
                    CARGO_SCOOP_DEPLOYED | MASS_LOCKED | FRAME_SHIFT_DRIVE_COOLDOWN
                        | HARDPOINTS_DEPLOYED | LANDING_GEAR_DEPLOYED,
                ),
                status_level: StatusLevel::Blocked,
            },
            ConditionStatusLevelMapping {
                condition: Condition::All(FRAME_SHIFT_DRIVE_CHARGING),
                status_level: StatusLevel::Active,
            },
        ],
        Attribute::LandingGear => seq![
            ConditionStatusLevelMapping {
                condition: Condition::All(LANDING_GEAR_DEPLOYED),
                status_level: StatusLevel::Active,
            },
            ConditionStatusLevelMapping {
                condition: Condition::All(DOCKING),
                status_level: StatusLevel::Alert,
            },
        ],
        Attribute::HeatSink => seq![
            ConditionStatusLevelMapping {
                condition: Condition::All(OVERHEATING),
                status_level: StatusLevel::Alert,
            },
        ],
        Attribute::SilentRunning => seq![
            ConditionStatusLevelMapping {
                condition: Condition::All(SILENT_RUNNING | OVERHEATING),
                status_level: StatusLevel::Alert,
            },
            ConditionStatusLevelMapping {
                condition: Condition::All(SILENT_RUNNING),
                status_level: StatusLevel::Active,
            },
        ],
        Attribute::Hardpoints => seq![
            ConditionStatusLevelMapping {
                condition: Condition::All(HARDPOINTS_DEPLOYED),
                status_level: StatusLevel::Active,
            },
        ],
        Attribute::Boost => seq![
            ConditionStatusLevelMapping {
                condition: Condition::All(LANDING_GEAR_DEPLOYED),
                status_level: StatusLevel::Blocked,
            },
        ],
        Attribute::Throttle => seq![
            ConditionStatusLevelMapping {
                condition: Condition::All(SPEEDING),
                status_level: StatusLevel::Alert,
            },
        ],
    }
}

/// The level of an attribute of a ship whose bit field is `flags`.
pub open spec fn attribute_level(flags: StatusBitField, attribute: Attribute) -> StatusLevel {
    level_for(flags, mappings_for(attribute))
}

/// The ship: the bit field of what is known of it, and the mappings by which
/// the level of each attribute is read from that bit field.
pub struct Ship {
    status_flags: StatusBitField,
    attribute_status_level_mappings: Vec<AttributeStatusLevelMappings>,
}

impl Ship {
    /// The bit field of what is known of the ship.
    pub closed spec fn flags(&self) -> StatusBitField {
        self.status_flags
    }

    /// The ship holds one list of mappings for each reported attribute, in
    /// the reported order, and each list is the one that `mappings_for` gives.
    #[verifier::type_invariant]
    spec fn holds_standard_mappings(&self) -> bool {
        &&& self.attribute_status_level_mappings@.len() == reported_attributes().len()
        &&& forall|i: int|
            0 <= i < self.attribute_status_level_mappings@.len() ==> {
                &&& (#[trigger] self.attribute_status_level_mappings@[i]).attribute
                    == reported_attributes()[i]
                &&& self.attribute_status_level_mappings@[i].condition_status_level_mappings@
                    == mappings_for(reported_attributes()[i])
            }
    }

    /// Returns a `Ship` instance of which nothing is known yet: no bit is set.
    pub fn new() -> (ship: Self)
        ensures
            ship.flags() == 0,
    {
        let cargo_scoop = AttributeStatusLevelMappings::new(
            Attribute::CargoScoop,
            vec![
                ConditionStatusLevelMapping::new(
                    Condition::All(CARGO_SCOOP_DEPLOYED),
                    StatusLevel::Active,
                ),
            ],
        );
        let external_lights = AttributeStatusLevelMappings::new(
            Attribute::ExternalLights,
            vec![
                ConditionStatusLevelMapping::new(
                    Condition::All(EXTERNAL_LIGHTS_ON),
                    StatusLevel::Active,
                ),
            ],
        );
        let frame_shift_drive = AttributeStatusLevelMappings::new(
            Attribute::FrameShiftDrive,
            vec![
                ConditionStatusLevelMapping::new(
                    Condition::All(FRAME_SHIFT_DRIVE_CHARGING | OVERHEATING),
                    StatusLevel::Alert,
                ),
                // Supercruise is higher precedence than normal flight,
                // specifically for blocking states like hardpoints deployed.
                ConditionStatusLevelMapping::new(Condition::All(SUPERCRUISE), StatusLevel::Active),
                ConditionStatusLevelMapping::new(
                    Condition::Any(
                        CARGO_SCOOP_DEPLOYED | MASS_LOCKED | FRAME_SHIFT_DRIVE_COOLDOWN
                            | HARDPOINTS_DEPLOYED | LANDING_GEAR_DEPLOYED,
                    ),
                    StatusLevel::Blocked,
                ),
                ConditionStatusLevelMapping::new(
                    Condition::All(FRAME_SHIFT_DRIVE_CHARGING),
                    StatusLevel::Active,
                ),
            ],
        );
        let landing_gear = AttributeStatusLevelMappings::new(
            Attribute::LandingGear,
            vec![
                ConditionStatusLevelMapping::new(
                    Condition::All(LANDING_GEAR_DEPLOYED),
                    StatusLevel::Active,
                ),
                ConditionStatusLevelMapping::new(Condition::All(DOCKING), StatusLevel::Alert),
            ],
        );
        let heat_sink = AttributeStatusLevelMappings::new(
            Attribute::HeatSink,
            vec![ConditionStatusLevelMapping::new(Condition::All(OVERHEATING), StatusLevel::Alert)],
        );
        let silent_running = AttributeStatusLevelMappings::new(
            Attribute::SilentRunning,
            vec![
                ConditionStatusLevelMapping::new(
                    Condition::All(SILENT_RUNNING | OVERHEATING),
                    StatusLevel::Alert,
                ),
                ConditionStatusLevelMapping::new(
                    Condition::All(SILENT_RUNNING),
                    StatusLevel::Active,
                ),
            ],
        );
        let hardpoints = AttributeStatusLevelMappings::new(
            Attribute::Hardpoints,
            vec![
                ConditionStatusLevelMapping::new(
                    Condition::All(HARDPOINTS_DEPLOYED),
                    StatusLevel::Active,
                ),
            ],
        );
        let boost = AttributeStatusLevelMappings::new(
            Attribute::Boost,
            vec![
                ConditionStatusLevelMapping::new(
                    Condition::All(LANDING_GEAR_DEPLOYED),
                    StatusLevel::Blocked,
                ),
            ],
        );
        let throttle = AttributeStatusLevelMappings::new(
            Attribute::Throttle,
            vec![ConditionStatusLevelMapping::new(Condition::All(SPEEDING), StatusLevel::Alert)],
        );
        proof {
            assert(cargo_scoop.condition_status_level_mappings@ =~= mappings_for(
                Attribute::CargoScoop,
            ));
            assert(external_lights.condition_status_level_mappings@ =~= mappings_for(
                Attribute::ExternalLights,
            ));
            assert(frame_shift_drive.condition_status_level_mappings@ =~= mappings_for(
                Attribute::FrameShiftDrive,
            ));
            assert(landing_gear.condition_status_level_mappings@ =~= mappings_for(
                Attribute::LandingGear,
            ));
            assert(heat_sink.condition_status_level_mappings@ =~= mappings_for(
                Attribute::HeatSink,
            ));
            assert(silent_running.condition_status_level_mappings@ =~= mappings_for(
                Attribute::SilentRunning,
            ));
            assert(hardpoints.condition_status_level_mappings@ =~= mappings_for(
                Attribute::Hardpoints,
            ));
            assert(boost.condition_status_level_mappings@ =~= mappings_for(Attribute::Boost));
            assert(throttle.condition_status_level_mappings@ =~= mappings_for(
                Attribute::Throttle,
            ));
        }
        let attribute_status_level_mappings = vec![
            cargo_scoop,
            external_lights,
            frame_shift_drive,
            landing_gear,
            heat_sink,
            silent_running,
            hardpoints,
            boost,
            throttle,
        ];
        Self { status_flags: 0, attribute_status_level_mappings }
    }

    /// Returns a `Ship` instance of which the given status snapshot is all
    /// that is known.
    pub fn from_status(status: FileStatus) -> (ship: Self)
        ensures
            ship.flags() == filtered(incoming_status_flags(status)),
            only_known_bits(ship.flags()),
    {
        let mut ship = Self::new();
        ship.update_status(status);
        proof {
            let incoming = incoming_status_flags(status);
            assert(0u64 & STATUS_FILTER != incoming & STATUS_FILTER ==> (incoming & STATUS_FILTER)
                | (0u64 & DERIVED_FILTER) == incoming & STATUS_FILTER) by (bit_vector);
            assert(0u64 & STATUS_FILTER == incoming & STATUS_FILTER ==> 0u64 == incoming
                & STATUS_FILTER) by (bit_vector);
            assert((incoming & STATUS_FILTER) & !(STATUS_FILTER | DERIVED_FILTER) == 0)
                by (bit_vector);
        }
        ship
    }

    /// Updates the ship given the journal event: docking starts when it is
    /// granted, and ends when the ship has docked or the request was cancelled
    /// or timed out. Returns false, and leaves the ship as it is, for the
    /// event `Other`, which cannot be applied: the caller may report it.
    pub fn apply_journal_event(&mut self, event: Event) -> (applied: bool)
        ensures
            final(self).flags() == flags_after_event(old(self).flags(), event),
            applied == is_known_event(event),
            !applied ==> final(self).flags() == old(self).flags(),
            final(self).flags() & !DERIVED_FILTER == old(self).flags() & !DERIVED_FILTER,
            only_known_bits(old(self).flags()) ==> only_known_bits(final(self).flags()),
    {
        proof {
            use_type_invariant(&*self);
            lemma_event_changes_derived_bits_only(self.status_flags, event);
        }
        match event {
            Event::Docked | Event::DockingCancelled | Event::DockingTimeout => {
                self.status_flags = self.status_flags & !DOCKING;
                true
            },
            Event::DockingGranted => {
                self.status_flags = self.status_flags | DOCKING;
                true
            },
            Event::Other => false,
        }
    }

    /// Takes in a status snapshot. The snapshot is first flattened into the
    /// bit field and filtered. If it differs in no filtered bit from what is
    /// known, nothing changes and false is returned. Else the filtered bits
    /// are replaced, the derived bits stay as they were, and true is returned.
    pub fn update_status(&mut self, status: FileStatus) -> (changed: bool)
        ensures
            changed == status_changes(old(self).flags(), incoming_status_flags(status)),
            final(self).flags() == flags_after_status(
                old(self).flags(),
                incoming_status_flags(status),
            ),
            !changed ==> final(self).flags() == old(self).flags(),
            filtered(final(self).flags()) == filtered(incoming_status_flags(status)),
            final(self).flags() & DERIVED_FILTER == old(self).flags() & DERIVED_FILTER,
            only_known_bits(old(self).flags()) ==> {
                &&& only_known_bits(final(self).flags())
                &&& final(self).flags() & !STATUS_FILTER == old(self).flags() & !STATUS_FILTER
            },
    {
        proof {
            use_type_invariant(&*self);
            lemma_status_changes_filtered_bits_only(
                self.status_flags,
                incoming_status_flags(status),
            );
        }
        // Flatten non-flag statuses into the bit-field.
        let speeding: StatusBitField = match status.legal_state {
            LegalState::Speeding => SPEEDING,
            LegalState::Other => 0,
        };
        let incoming_status_flags: StatusBitField = status.flags as u64 | speeding;

        let updated_status_flags = Self::filtered_status_flags(incoming_status_flags);

        if Self::filtered_status_flags(self.status_flags) == updated_status_flags {
            false
        } else {
            // Reinstate derived status flags that were filtered out (and
            // necessarily can't have triggered a status change).
            self.status_flags = updated_status_flags | (self.status_flags & DERIVED_FILTER);
            true
        }
    }

    /// Takes in a status snapshot if there is one. Without a snapshot nothing
    /// changes and false is returned.
    pub fn update_optional_status(&mut self, status: Option<FileStatus>) -> (changed: bool)
        ensures
            status is None ==> !changed && final(self).flags() == old(self).flags(),
            status is Some ==> {
                &&& changed == status_changes(
                    old(self).flags(),
                    incoming_status_flags(status->Some_0),
                )
                &&& final(self).flags() == flags_after_status(
                    old(self).flags(),
                    incoming_status_flags(status->Some_0),
                )
            },
    {
        match status {
            Some(status) => self.update_status(status),
            None => false,
        }
    }

    /// Replaces the whole bit field, derived bits included.
    pub fn set_status(&mut self, status_flags: StatusBitField)
        ensures
            final(self).flags() == status_flags,
    {
        proof {
            use_type_invariant(&*self);
        }
        self.status_flags = status_flags;
    }

    /// The status of every attribute, in the order of `reported_attributes`.
    pub open spec fn statuses_of(&self) -> Seq<Status> {
        Seq::new(
            reported_attributes().len(),
            |i: int|
                Status {
                    attribute: reported_attributes()[i],
                    level: attribute_level(self.flags(), reported_attributes()[i]),
                },
        )
    }

    /// Returns a vector of `Status` instances, one each for every `Attribute`,
    /// specifying the current `StatusLevel` for that attribute.
    pub fn statuses(&self) -> (statuses: Vec<Status>)
        ensures
            statuses@ == self.statuses_of(),
            statuses@.len() == reported_attributes().len(),
            forall|i: int|
                0 <= i < statuses@.len() ==> {
                    &&& (#[trigger] statuses@[i]).attribute == reported_attributes()[i]
                    &&& statuses@[i].level == attribute_level(self.flags(), statuses@[i].attribute)
                },
            forall|attribute: Attribute|
                #![trigger reported_position(attribute)]
                statuses@[reported_position(attribute)] == (Status {
                    attribute,
                    level: attribute_level(self.flags(), attribute),
                }),
    {
        proof {
            use_type_invariant(self);
        }
        let mut statuses: Vec<Status> = Vec::new();
        let mut index: usize = 0;

        while index < self.attribute_status_level_mappings.len()
            invariant
                self.holds_standard_mappings(),
                index <= self.attribute_status_level_mappings@.len(),
                statuses@.len() == index,
                forall|i: int|
                    0 <= i < index ==> {
                        &&& (#[trigger] statuses@[i]).attribute == reported_attributes()[i]
                        &&& statuses@[i].level == attribute_level(
                            self.flags(),
                            statuses@[i].attribute,
                        )
                    },
            decreases self.attribute_status_level_mappings@.len() - index,
        {
            let mapping = &self.attribute_status_level_mappings[index];
            statuses.push(
                Status {
                    attribute: mapping.attribute,
                    level: self.status_level_for_condition(
                        &mapping.condition_status_level_mappings,
                    ),
                },
            );
            index += 1;
        }

        proof {
            assert(statuses@ =~= self.statuses_of());
            assert forall|attribute: Attribute|
                #![trigger reported_position(attribute)]
                statuses@[reported_position(attribute)] == (Status {
                    attribute,
                    level: attribute_level(self.flags(), attribute),
                }) by {
                let position = reported_position(attribute);
                assert(statuses@[position].attribute == reported_attributes()[position]);
            }
        }
        statuses
    }

    /// Returns the current global (highest precedence) status for the ship.
    pub fn global_status(&self) -> (status: GlobalStatus)
        ensures
            status == global_status_for(self.flags()),
    {
        if self.any_status_flags_set(HARDPOINTS_DEPLOYED) {
            GlobalStatus::HardpointsDeployed
        } else {
            GlobalStatus::Normal
        }
    }

    /// Returns the level that the ordered mappings give to the ship as it is:
    /// the level of the first mapping whose condition holds, and `Inactive`
    /// if there is none.
    pub fn status_level_for_condition(
        &self,
        mappings: &Vec<ConditionStatusLevelMapping>,
    ) -> (level: StatusLevel)
        ensures
            level == level_for(self.flags(), mappings@),
    {
        let mut index: usize = 0;

        while index < mappings.len()
            invariant
                index <= mappings@.len(),
                level_for(self.flags(), mappings@) == level_from(
                    self.flags(),
                    mappings@,
                    index as int,
                ),
            decreases mappings@.len() - index,
        {
            let mapping = &mappings[index];
            let applies = match mapping.condition {
                Condition::Any(flags) => self.any_status_flags_set(flags),
                Condition::All(flags) => self.all_status_flags_set(flags),
            };
            if applies {
                return mapping.status_level;
            }
            index += 1;
        }

        StatusLevel::Inactive
    }

    /// Returns true if the landing gear is deployed.
    pub fn landing_gear_deployed(&self) -> (deployed: bool)
        ensures
            deployed == (self.flags() & LANDING_GEAR_DEPLOYED != 0),
    {
        self.is_status_flag_set(LANDING_GEAR_DEPLOYED)
    }

    /// Returns true if the cargo scoop is deployed.
    pub fn cargo_scoop_deployed(&self) -> (deployed: bool)
        ensures
            deployed == (self.flags() & CARGO_SCOOP_DEPLOYED != 0),
    {
        self.is_status_flag_set(CARGO_SCOOP_DEPLOYED)
    }

    /// Returns true if the external lights are on.
    pub fn external_lights_on(&self) -> (on: bool)
        ensures
            on == (self.flags() & EXTERNAL_LIGHTS_ON != 0),
    {
        self.is_status_flag_set(EXTERNAL_LIGHTS_ON)
    }

    /// Returns true if the frame shift drive is charging.
    pub fn frame_shift_drive_charging(&self) -> (charging: bool)
        ensures
            charging == (self.flags() & FRAME_SHIFT_DRIVE_CHARGING != 0),
    {
        self.is_status_flag_set(FRAME_SHIFT_DRIVE_CHARGING)
    }

    /// Returns true if the given flag, a single bit, is set.
    pub fn is_status_flag_set(&self, flag: StatusBitField) -> (set: bool)
        ensures
            set == (self.flags() & flag != 0),
    {
        (self.status_flags & flag) != 0
    }

    /// Returns true if at least one of the given flags is set.
    pub fn any_status_flags_set(&self, flags: StatusBitField) -> (set: bool)
        ensures
            set == Condition::Any(flags).holds(self.flags()),
    {
        self.status_flags & flags != 0
    }

    /// Returns true if every one of the given flags is set.
    pub fn all_status_flags_set(&self, flags: StatusBitField) -> (set: bool)
        ensures
            set == Condition::All(flags).holds(self.flags()),
    {
        self.status_flags & flags == flags
    }

    /// Returns the part of the bit field that status snapshots decide.
    pub fn filtered_status_flags(flags: StatusBitField) -> (kept: StatusBitField)
        ensures
            kept == filtered(flags),
    {
        flags & STATUS_FILTER
    }
}

/// The global status of a ship whose bit field is `flags`: deployed
/// hardpoints take precedence over everything else.
pub open spec fn global_status_for(flags: StatusBitField) -> GlobalStatus {
    if flags & HARDPOINTS_DEPLOYED != 0 {
        GlobalStatus::HardpointsDeployed
    } else {
        GlobalStatus::Normal
    }
}

/// The position of an attribute in `reported_attributes`.
pub open spec fn reported_position(attribute: Attribute) -> int {
    match attribute {
        Attribute::CargoScoop => 0,
        Attribute::ExternalLights => 1,
        Attribute::FrameShiftDrive => 2,
        Attribute::LandingGear => 3,
        Attribute::HeatSink => 4,
        Attribute::SilentRunning => 5,
        Attribute::Hardpoints => 6,
        Attribute::Boost => 7,
        Attribute::Throttle => 8,
    }
}

/// A journal event changes no bit but the derived ones, and leaves a bit
/// field of known bits one of known bits.
pub proof fn lemma_event_changes_derived_bits_only(current: StatusBitField, event: Event)
    ensures
        flags_after_event(current, event) & !DERIVED_FILTER == current & !DERIVED_FILTER,
        only_known_bits(current) ==> only_known_bits(flags_after_event(current, event)),
        !is_known_event(event) ==> flags_after_event(current, event) == current,
{
    assert((current & !DOCKING) & !DERIVED_FILTER == current & !DERIVED_FILTER) by (bit_vector);
    assert((current | DOCKING) & !DERIVED_FILTER == current & !DERIVED_FILTER) by (bit_vector);
    assert(current & !(STATUS_FILTER | DERIVED_FILTER) == 0 ==> (current & !DOCKING) & !(
    STATUS_FILTER | DERIVED_FILTER) == 0) by (bit_vector);
    assert(current & !(STATUS_FILTER | DERIVED_FILTER) == 0 ==> (current | DOCKING) & !(
    STATUS_FILTER | DERIVED_FILTER) == 0) by (bit_vector);
}

/// A status snapshot leaves the derived bits as they are, and makes the
/// filtered bits those of the snapshot. In a bit field of known bits it
/// changes no bit but the filtered ones.
pub proof fn lemma_status_changes_filtered_bits_only(
    current: StatusBitField,
    incoming: StatusBitField,
)
    ensures
        flags_after_status(current, incoming) & DERIVED_FILTER == current & DERIVED_FILTER,
        filtered(flags_after_status(current, incoming)) == filtered(incoming),
        only_known_bits(current) ==> {
            &&& only_known_bits(flags_after_status(current, incoming))
            &&& flags_after_status(current, incoming) & !STATUS_FILTER == current & !STATUS_FILTER
        },
{
    let replaced = (incoming & STATUS_FILTER) | (current & DERIVED_FILTER);
    assert(replaced & DERIVED_FILTER == current & DERIVED_FILTER) by (bit_vector)
        requires
            replaced == (incoming & STATUS_FILTER) | (current & DERIVED_FILTER),
    ;
    assert(replaced & STATUS_FILTER == incoming & STATUS_FILTER) by (bit_vector)
        requires
            replaced == (incoming & STATUS_FILTER) | (current & DERIVED_FILTER),
    ;
    assert(replaced & !(STATUS_FILTER | DERIVED_FILTER) == 0) by (bit_vector)
        requires
            replaced == (incoming & STATUS_FILTER) | (current & DERIVED_FILTER),
    ;
    assert(current & !(STATUS_FILTER | DERIVED_FILTER) == 0 ==> replaced & !STATUS_FILTER
        == current & !STATUS_FILTER) by (bit_vector)
        requires
            replaced == (incoming & STATUS_FILTER) | (current & DERIVED_FILTER),
    ;
}

/// The bit field after a sequence of status snapshots has been taken in, one
/// after the other.
pub open spec fn flags_after_statuses(
    current: StatusBitField,
    statuses: Seq<FileStatus>,
) -> StatusBitField
    decreases statuses.len(),
{
    if statuses.len() == 0 {
        current
    } else {
        flags_after_status(
            flags_after_statuses(current, statuses.drop_last()),
            incoming_status_flags(statuses.last()),
        )
    }
}

/// The bits that status snapshots decide and the bits that journal events
/// decide do not overlap, and no flag of a snapshot reaches a derived bit.
pub proof fn law_filters_do_not_overlap(flags: u32)
    ensures
        STATUS_FILTER & DERIVED_FILTER == 0,
        (flags as u64) & DERIVED_FILTER == 0,
{
    assert(STATUS_FILTER & DERIVED_FILTER == 0) by (bit_vector);
    assert((flags as u64) & DERIVED_FILTER == 0) by (bit_vector);
}

/// Taking in the same status snapshot a second time reports no change and
/// leaves the bit field as the first time left it.
pub proof fn law_update_is_idempotent(current: StatusBitField, status: FileStatus)
    ensures
        !status_changes(
            flags_after_status(current, incoming_status_flags(status)),
            incoming_status_flags(status),
        ),
        flags_after_status(
            flags_after_status(current, incoming_status_flags(status)),
            incoming_status_flags(status),
        ) == flags_after_status(current, incoming_status_flags(status)),
{
    lemma_status_changes_filtered_bits_only(current, incoming_status_flags(status));
}

/// Whatever status snapshots are taken in, in whatever number, the derived
/// bits stay as they were; and in a bit field of known bits no bit changes
/// but those that snapshots decide.
pub proof fn law_statuses_keep_derived_bits(current: StatusBitField, statuses: Seq<FileStatus>)
    ensures
        flags_after_statuses(current, statuses) & DERIVED_FILTER == current & DERIVED_FILTER,
        only_known_bits(current) ==> {
            &&& only_known_bits(flags_after_statuses(current, statuses))
            &&& flags_after_statuses(current, statuses) & !STATUS_FILTER == current
                & !STATUS_FILTER
        },
    decreases statuses.len(),
{
    if statuses.len() > 0 {
        law_statuses_keep_derived_bits(current, statuses.drop_last());
        lemma_status_changes_filtered_bits_only(
            flags_after_statuses(current, statuses.drop_last()),
            incoming_status_flags(statuses.last()),
        );
    }
}

/// The derived bits follow the journal events and nothing else: granted
/// docking sets the docking bit, ended docking clears it, an event of no
/// interest changes nothing, and no event touches a bit that snapshots decide.
pub proof fn law_events_decide_derived_bits(current: StatusBitField, event: Event)
    ensures
        event == Event::DockingGranted ==> flags_after_event(current, event) & DOCKING == DOCKING,
        event == Event::Docked || event == Event::DockingCancelled || event
            == Event::DockingTimeout ==> flags_after_event(current, event) & DOCKING == 0,
        event == Event::Other ==> flags_after_event(current, event) == current,
        flags_after_event(current, event) & !DERIVED_FILTER == current & !DERIVED_FILTER,
        filtered(flags_after_event(current, event)) == filtered(current),
        flags_after_event(current, event) != current ==> is_known_event(event),
{
    lemma_event_changes_derived_bits_only(current, event);
    assert((current | DOCKING) & DOCKING == DOCKING) by (bit_vector);
    assert((current & !DOCKING) & DOCKING == 0) by (bit_vector);
    assert((current & !DOCKING) & STATUS_FILTER == current & STATUS_FILTER) by (bit_vector);
    assert((current | DOCKING) & STATUS_FILTER == current & STATUS_FILTER) by (bit_vector);
}

/// The first mapping whose condition holds decides the level: if the mapping
/// at `position` holds and none before it does, the level is that mapping's;
/// if no mapping holds, the level is `Inactive`.
pub proof fn law_first_match_wins(
    flags: StatusBitField,
    mappings: Seq<ConditionStatusLevelMapping>,
    position: int,
)
    requires
        0 <= position <= mappings.len(),
        forall|i: int| 0 <= i < position ==> !(#[trigger] mappings[i]).condition.holds(flags),
    ensures
        position < mappings.len() && mappings[position].condition.holds(flags) ==> level_for(
            flags,
            mappings,
        ) == mappings[position].status_level,
        position == mappings.len() ==> level_for(flags, mappings) == StatusLevel::Inactive,
        level_for(flags, mappings) == level_from(flags, mappings, position),
{
    lemma_skip_unmatched(flags, mappings, 0, position);
}

/// Mappings whose conditions do not hold are passed over.
proof fn lemma_skip_unmatched(
    flags: StatusBitField,
    mappings: Seq<ConditionStatusLevelMapping>,
    start: int,
    position: int,
)
    requires
        0 <= start <= position <= mappings.len(),
        forall|i: int| start <= i < position ==> !(#[trigger] mappings[i]).condition.holds(flags),
    ensures
        level_from(flags, mappings, start) == level_from(flags, mappings, position),
    decreases position - start,
{
    if start < position {
        lemma_skip_unmatched(flags, mappings, start + 1, position);
    }
}

/// Where a list asks first for all bits of `x` and `y` together for an alert,
/// then for any bit of `z` for a block, then for all bits of `x` for
/// activity, a bit field that meets all three conditions is at alert.
pub proof fn law_alert_takes_precedence(
    flags: StatusBitField,
    x: StatusBitField,
    y: StatusBitField,
    z: StatusBitField,
)
    requires
        flags & (x | y) == x | y,
    ensures
        level_for(
            flags,
            seq![
                ConditionStatusLevelMapping {
                    condition: Condition::All(x | y),
                    status_level: StatusLevel::Alert,
                },
                ConditionStatusLevelMapping {
                    condition: Condition::Any(z),
                    status_level: StatusLevel::Blocked,
                },
                ConditionStatusLevelMapping {
                    condition: Condition::All(x),
                    status_level: StatusLevel::Active,
                },
            ],
        ) == StatusLevel::Alert,
{
}

} // verus!
