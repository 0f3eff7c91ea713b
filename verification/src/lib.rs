//! A stateful UDS (ISO 14229) diagnostic ECU: request handling and the
//! replay of recorded request sequences, with their contracts.
pub mod ecu;
pub mod laws;
pub mod sequence;
