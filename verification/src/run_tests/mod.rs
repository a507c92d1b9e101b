//! Running the tests of a configuration: the data that describes a run, the
//! protocol spoken with the node under test, and the decisions of the run.

pub mod cleanup;
pub mod cleanup_laws;
pub mod coordinator;
pub mod coordinator_laws;
pub mod kernel_types;
pub mod router;
pub mod suite;
pub mod tester_types;
pub mod types;
pub mod verdict;
