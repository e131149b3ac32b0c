//! A turn-based reinforcement-learning bridge for a real-time arena shooter.
//!
//! The simulation runs at frame rate and stops at control points; an external
//! controller submits one action per agent and reads back rewards and termination.
//! `state` holds the shared record, `pump` the simulation side, `api` the controller
//! side, `actions` the action tokens and their effect, `frame` captured frames,
//! `palette` the game's pictures and `world` the spawning of agents.

pub mod actions;
pub mod api;
pub mod frame;
pub mod palette;
pub mod pump;
pub mod state;
pub mod world;
