//! Rules of a small arcade game in which the player dodges roaming creeps.
//!
//! The engine that draws, plays sound and delivers input is not part of this
//! crate. Each handler here takes the event that the engine delivered and
//! returns the commands that the engine is to carry out, in order.

pub mod chance;
pub mod enemy;
pub mod hud;
pub mod main_scene;
pub mod player;
