//! A relay that moves messages from a queue on one broker to an exchange on
//! another, acknowledging each source delivery only once its forward is
//! confirmed. The decisions live here as a state machine; the program that
//! talks to the brokers performs the actions it asks for and reports back.

pub mod address;
pub mod config;
pub mod relay;
pub mod laws;
