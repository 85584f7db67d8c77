//! Deployment path resolution and execution for a ROM library manager.
//!
//! The engine merges the expected, detected and user-entered folder layouts
//! of a destination, turns a selection of games into a byte-accounted
//! transfer plan, pre-flight checks that plan against facts about the
//! destination, and drives a cancellable, pausable copy job one item at a
//! time.

pub mod model;
pub mod views;
pub mod resolver;
pub mod plan;
pub mod executor;
pub mod validator;
pub mod builder;
