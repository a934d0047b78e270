use crate::game::file::{ControlBinding, ControlBindings, Input as BindingsInput};
use crate::text::str_eq;
use crate::x52pro::device::Input;
use vstd::prelude::*;

verus! {

pub const X52PRO_DEVICE: &'static str = "SaitekX52Pro";

pub const X52PRO_CLUTCH: &'static str = "Joy_31";

pub const X52PRO_FIRE: &'static str = "Joy_2";

pub const X52PRO_FIRE_A: &'static str = "Joy_3";

pub const X52PRO_FIRE_B: &'static str = "Joy_4";

pub const X52PRO_FIRE_D: &'static str = "Joy_7";

pub const X52PRO_FIRE_E: &'static str = "Joy_8";

pub const X52PRO_T1: &'static str = "Joy_9";

pub const X52PRO_T2: &'static str = "Joy_10";

pub const X52PRO_T3: &'static str = "Joy_11";

pub const X52PRO_T4: &'static str = "Joy_12";

pub const X52PRO_T5: &'static str = "Joy_13";

pub const X52PRO_T6: &'static str = "Joy_14";

/// A supported game control that can be mapped to an X52Pro input.
#[derive(Clone, Copy, Debug, PartialEq, Eq, Structural)]
pub enum Control {
    Boost,
    CargoScoop,
    ExternalLights,
    Hardpoints,
    HeatSink,
    Hyperspace,
    HyperSuperCombination,
    LandingGear,
    SilentRunning,
    Supercruise,
}

/// The supported X52Pro input, if any, that goes by the given name on the
/// device of the given name in the bindings file.
pub open spec fn input_named(device: Seq<char>, name: Seq<char>) -> Option<Input> {
    if device != X52PRO_DEVICE@ {
        None
    } else if name == X52PRO_CLUTCH@ {
        Some(Input::Clutch)
    } else if name == X52PRO_FIRE@ {
        Some(Input::Fire)
    } else if name == X52PRO_FIRE_A@ {
        Some(Input::FireA)
    } else if name == X52PRO_FIRE_B@ {
        Some(Input::FireB)
    } else if name == X52PRO_FIRE_D@ {
        Some(Input::FireD)
    } else if name == X52PRO_FIRE_E@ {
        Some(Input::FireE)
    } else if name == X52PRO_T1@ {
        Some(Input::T1)
    } else if name == X52PRO_T2@ {
        Some(Input::T2)
    } else if name == X52PRO_T3@ {
        Some(Input::T3)
    } else if name == X52PRO_T4@ {
        Some(Input::T4)
    } else if name == X52PRO_T5@ {
        Some(Input::T5)
    } else if name == X52PRO_T6@ {
        Some(Input::T6)
    } else {
        None
    }
}

/// The supported X52Pro inputs among the primary and the secondary input of
/// a binding, the primary first.
pub open spec fn bound_inputs(binding: ControlBinding) -> Seq<Input> {
    let primary = match input_named(binding.primary.device@, binding.primary.name@) {
        Some(input) => seq![input],
        None => Seq::empty(),
    };
    let secondary = match input_named(binding.secondary.device@, binding.secondary.name@) {
        Some(input) => seq![input],
        None => Seq::empty(),
    };
    primary + secondary
}

/// The binding of a control among the bindings of a file.
pub open spec fn binding_of(file: ControlBindings, control: Control) -> ControlBinding {
    match control {
        Control::Boost => file.boost,
        Control::CargoScoop => file.cargo_scoop,
        Control::ExternalLights => file.external_lights,
        Control::Hardpoints => file.hardpoints,
        Control::HeatSink => file.heat_sink,
        Control::Hyperspace => file.hyperspace,
        Control::HyperSuperCombination => file.hyper_super_combo,
        Control::LandingGear => file.landing_gear,
        Control::SilentRunning => file.silent_running,
        Control::Supercruise => file.supercruise,
    }
}

/// The set of game controls bound to X52Pro inputs as loaded from a bindings
/// file.
#[derive(Debug)]
pub struct Controls {
    file: ControlBindings,
}

impl Controls {
    /// The bindings that the controls were built from.
    pub closed spec fn bindings(&self) -> ControlBindings {
        self.file
    }

    /// The inputs that are bound to the given control.
    pub open spec fn inputs_of(&self, control: Control) -> Seq<Input> {
        bound_inputs(binding_of(self.bindings(), control))
    }

    /// Returns an instance built from the given `ControlBindings` instance.
    pub fn from_file_control_bindings(file: ControlBindings) -> (controls: Self)
        ensures
            controls.bindings() == file,
    {
        Controls { file }
    }

    /// Returns a vector containing all the `Input` instances that are bound to
    /// the given `Control` instance, the primary before the secondary. The
    /// vector will be empty if none of the supported inputs is bound to the
    /// given control.
    pub fn inputs_for_control(&self, control: Control) -> (inputs: Vec<Input>)
        ensures
            inputs@ == self.inputs_of(control),
    {
        let control_binding = match control {
            Control::Boost => &self.file.boost,
            Control::CargoScoop => &self.file.cargo_scoop,
            Control::ExternalLights => &self.file.external_lights,
            Control::Hardpoints => &self.file.hardpoints,
            Control::HeatSink => &self.file.heat_sink,
            Control::Hyperspace => &self.file.hyperspace,
            Control::HyperSuperCombination => &self.file.hyper_super_combo,
            Control::LandingGear => &self.file.landing_gear,
            Control::SilentRunning => &self.file.silent_running,
            Control::Supercruise => &self.file.supercruise,
        };

        let mut inputs: Vec<Input> = Vec::with_capacity(2);

        if let Some(input) = input_from_file_input(&control_binding.primary) {
            inputs.push(input);
        }
        if let Some(input) = input_from_file_input(&control_binding.secondary) {
            inputs.push(input);
        }

        assert(inputs@ =~= self.inputs_of(control));
        inputs
    }
}

/// Returns a supported X52Pro `Input` that matches the bindings file input.
pub fn input_from_file_input(input: &BindingsInput) -> (device_input: Option<Input>)
    ensures
        device_input == input_named(input.device@, input.name@),
{
    let name = input.name.as_str();

    if !str_eq(input.device.as_str(), X52PRO_DEVICE) {
        None
    } else if str_eq(name, X52PRO_CLUTCH) {
        Some(Input::Clutch)
    } else if str_eq(name, X52PRO_FIRE) {
        Some(Input::Fire)
    } else if str_eq(name, X52PRO_FIRE_A) {
        Some(Input::FireA)
    } else if str_eq(name, X52PRO_FIRE_B) {
        Some(Input::FireB)
    } else if str_eq(name, X52PRO_FIRE_D) {
        Some(Input::FireD)
    } else if str_eq(name, X52PRO_FIRE_E) {
        Some(Input::FireE)
    } else if str_eq(name, X52PRO_T1) {
        Some(Input::T1)
    } else if str_eq(name, X52PRO_T2) {
        Some(Input::T2)
    } else if str_eq(name, X52PRO_T3) {
        Some(Input::T3)
    } else if str_eq(name, X52PRO_T4) {
        Some(Input::T4)
    } else if str_eq(name, X52PRO_T5) {
        Some(Input::T5)
    } else if str_eq(name, X52PRO_T6) {
        Some(Input::T6)
    } else {
        None
    }
}

} // verus!
