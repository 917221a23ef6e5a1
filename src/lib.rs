//! zkLogin session handling and sponsored-transaction flow, with the
//! request-building and response-handling logic specified and proved.
pub mod client;
pub mod service;
