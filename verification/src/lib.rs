//! Core simulation of a terminal-rendered asteroids game.
//!
//! The library holds the verified simulation and collision core: fixed-point
//! vector math on a toroidal field, per-entity kinematics, shape-based
//! collision resolution with asteroid fragmentation and scoring, the power-up
//! state machine, the difficulty controller, and the per-frame orchestrator.
//! Terminal input and output live outside the library; the orchestrator is
//! driven with plain input events and hands back plain entity state.

pub mod angle;
pub mod constants;
pub mod entities;
pub mod game;
pub mod rendering;
pub mod rng;
pub mod types;
pub mod upgrades;
