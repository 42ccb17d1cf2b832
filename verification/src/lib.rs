//! Start-up configuration of the Forge desktop application: the schema
//! migrations of its local database and the rules of its start-up sequence.

pub mod migration;
pub mod sequencer;
