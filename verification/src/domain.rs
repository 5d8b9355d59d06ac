//! The records and capabilities that the reactor shares with the rest of the
//! system.

pub mod bot;
pub mod botconfig;
pub mod clock;
pub mod exchange;
