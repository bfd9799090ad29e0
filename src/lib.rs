//! A screen-recording core: the recording session state machine, the
//! capture-loop driver that numbers frames and hands them to an encoder, and
//! the planning of trim requests, each with a machine-checked contract.

pub mod capture;
pub mod error;
pub mod naming;
pub mod session;
pub mod tools;
