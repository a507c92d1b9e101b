//! Decision core of a development tool for simulated node networks.
//!
//! The crate holds the logic of two flows: running integration tests against a
//! fleet of simulated nodes (`run_tests`) and installing a built package on a
//! running node (`start_package`). Every function here works on plain values
//! and is verified, but for the calls into `serde_json`, which stand in
//! `start_package::json` with what is assumed of them. Spawning processes,
//! touching the file system and talking to a node are left to the caller, who
//! performs the actions that these functions hand out and reports back what
//! happened.

pub mod run_tests;
pub mod start_package;
pub mod text;
