//! A main loop built around the prepare/poll/dispatch cycle: the outcome of each step of the
//! iteration protocol, decoded from the native loop's status codes.

pub mod standard;
