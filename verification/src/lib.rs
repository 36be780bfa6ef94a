//! Per-frame character motion controller for a platformer.
//!
//! Given raw input intent and live physics-sensor readings, the library
//! composes a motion command for a rigid body (a basis with desired velocity
//! and facing plus layered one-shot actions: jump, dash, crouch) and keeps
//! the small pieces of cross-frame state: the air-action budget and the
//! fall-through-platform arbitration latch.
//!
//! All distances, speeds and direction components are fixed-point values in
//! thousandths of a world unit, so that every rule of the controller is
//! stated and proved exactly.

pub mod air_actions;
pub mod controls;
pub mod fall_through;
pub mod math;
