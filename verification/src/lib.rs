//! An artificial-life simulation: a population of frogs on a bounded
//! 2-D grid, each driven by a procedurally generated apparatus of
//! sensor and effector discs. Effector positions are matched against
//! five fixed motor zones; matches fire movements, movements may eat
//! food, and leaving the grid kills the frog.
#![verifier::loop_isolation(false)]

pub mod config;
pub mod egg;
pub mod env;
pub mod frog;
pub mod rng;
pub mod zone;
