//! Core types of an audio graph engine: parameter data carried by events,
//! the events that reach a node's processor, and the diff/patch protocol
//! that turns changes of a parameter struct into events and back.

pub mod bytes;
pub mod diff;
pub mod event;
pub mod laws;
