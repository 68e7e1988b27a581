//! A registry of organizations and of the batches of disbursement data that
//! they commit, each record kept at an address derived from fixed seeds.

pub mod address;
pub mod state;
pub mod store;
pub mod instructions;
pub mod laws;
