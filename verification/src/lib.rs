//! Remote commands for running editor instances: the framed call message, the
//! naming convention by which endpoints are found, and the strict fan-out that
//! delivers one message to every endpoint found.

pub mod broadcast;
pub mod command;
pub mod discovery;
pub mod wire;
