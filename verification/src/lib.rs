//! Core bookkeeping of a simulator for a single azimuthal acoustic mode
//! coupled to a heat-release-rate response.
//!
//! The numerical state itself evolves in real-valued coordinates and is
//! handled by the surrounding application; this crate holds the parts of
//! the engine that are exact: the integer scheduling derived from the
//! timestep and save cadence, the save/termination decisions of the
//! stepping loop, the description of where results are stored, and the
//! error taxonomy of configuration and saving.

pub mod integrator;
pub mod observers;
pub mod parameters;
