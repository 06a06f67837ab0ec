//! A request/response protocol through which an authority asks a bound oracle
//! for a random value and later receives it, with one outstanding request at a
//! time per requester record.

pub mod key;
pub mod error;
pub mod requester;
pub mod base;
pub mod fee;
pub mod safety;
pub mod address;
