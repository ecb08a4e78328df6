//! Client-side workflow for a fee-enforcing token transfer contract: the
//! persisted contract address, the shape of every outbound request, and the
//! classification of what the remote side answers.

pub mod address;
pub mod state;
pub mod request;
pub mod outcome;
pub mod interact;
pub mod command;
