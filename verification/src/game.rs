pub mod controls;
pub mod file;
pub mod ship;

pub use controls::{Control, Controls};
pub use ship::{
    Attribute, AttributeStatusLevelMappings, Condition, ConditionStatusLevelMapping, GlobalStatus,
    Ship, Status, StatusLevel,
};
