//! Task-lifecycle reactor for user-owned trading-bot workloads.
//!
//! Bots run as containers on a shared cluster. When a container stops, the
//! event bus delivers a notification. The reactor decides whether the stop
//! was an unplanned, memory-related kill, and if it was, asks for one
//! replacement run and for one record of the task that now stands for the
//! bot.
//!
//! The library makes no call itself:
//!
//! - [`classifier`] holds the one judgment: which stops are restart-worthy.
//! - [`notification`] and [`identity`] hold what is read from a notification.
//! - [`launcher`] says what to ask of the container orchestration and what
//!   its answer means.
//! - [`store`] plans the one transaction that writes the task metadata record
//!   together with the bot's status; [`memory_store`] carries such
//!   transactions out in memory.
//! - [`reactor`] is the state machine that ties these together, and
//!   [`guarantees`] states what holds of every run of it.
//! - [`domain`], [`config`] and [`infra`] hold the records and settings that
//!   the reactor shares with the rest of the system.
//!
//! A notification that is delivered twice is worked on twice: each delivery
//! can start a replacement and write a record, and the later write wins.

pub mod classifier;
pub mod config;
pub mod domain;
pub mod guarantees;
pub mod identity;
pub mod infra;
pub mod launcher;
pub mod memory_store;
pub mod notification;
pub mod reactor;
pub mod store;
pub mod text;
