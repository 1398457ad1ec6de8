//! Control core of a double compound pendulum simulation.
//!
//! The pendulum's equations of motion are evaluated by the caller; this crate
//! holds the parts of the simulation that decide what happens: how a time
//! interval is split into equal sub-steps that are applied in sequence
//! ([`stepper`]), and how play, pause, reset and tick messages turn into
//! commands for the driver ([`session`]).

pub mod session;
pub mod stepper;

pub use session::{Command, Msg, Session, TICK_SUB_STEPS};
pub use stepper::multi_step;
