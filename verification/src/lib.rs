pub mod states;
pub mod resources;
pub mod outcome;
pub mod pitching;
pub mod batting;
pub mod screens;
pub mod schedule;
