use vstd::prelude::*;

verus! {

/// A set of mappings from device inputs to game controls as stored in the game
/// binding files.
#[derive(Debug, PartialEq, Eq)]
pub struct ControlBindings {
    pub external_lights: ControlBinding,
    pub cargo_scoop: ControlBinding,
    pub landing_gear: ControlBinding,
    pub hardpoints: ControlBinding,
    pub boost: ControlBinding,
    pub hyper_super_combo: ControlBinding,
    pub supercruise: ControlBinding,
    pub hyperspace: ControlBinding,
    pub silent_running: ControlBinding,
    pub heat_sink: ControlBinding,
    pub throttle: ControlBinding,
    pub night_vision: ControlBinding,
}

/// A pair of device inputs that can be mapped to a game control, as stored in
/// the game binding files. An axis has a single input in `binding` instead.
#[derive(Debug, PartialEq, Eq)]
pub struct ControlBinding {
    pub primary: Input,
    pub secondary: Input,
    pub binding: Input,
}

impl ControlBinding {
    /// Returns a binding of the two inputs, each given by the name of its
    /// device and its own name, with no axis bound.
    pub fn new(primary: (&str, &str), secondary: (&str, &str)) -> (control_binding: Self)
        ensures
            control_binding.primary.device@ == primary.0@,
            control_binding.primary.name@ == primary.1@,
            control_binding.secondary.device@ == secondary.0@,
            control_binding.secondary.name@ == secondary.1@,
            control_binding.binding.device@.len() == 0,
            control_binding.binding.name@.len() == 0,
    {
        Self {
            primary: Input::new(primary.0, primary.1),
            secondary: Input::new(secondary.0, secondary.1),
            binding: Input { device: String::new(), name: String::new() },
        }
    }
}

/// A device input as stored in the game binding files. Both names are empty
/// where nothing is bound.
#[derive(Debug, PartialEq, Eq)]
pub struct Input {
    pub device: String,
    pub name: String,
}

impl Input {
    /// Returns the input of the given name on the device of the given name.
    pub fn new(device: &str, name: &str) -> (input: Self)
        ensures
            input.device@ == device@,
            input.name@ == name@,
    {
        Self { device: device.to_owned(), name: name.to_owned() }
    }
}

} // verus!
