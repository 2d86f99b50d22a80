//! Verified core of an SSV operator's signature handling: decoding of fixture
//! fields, the per-validator partial-signature collection state machine, and
//! the decision logic of the consensus-data spec tests.

pub mod collector_laws;
pub mod collector_state;
pub mod consensus_fixtures;
pub mod decode;
pub mod deserializers;
pub mod error_codes;
pub mod fixture_encoding;
pub mod manager;
pub mod types;
