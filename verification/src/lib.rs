//! A hardware-telemetry dashboard: the sampling engine that turns the
//! kernel's counters into a snapshot on every tick, and the pipeline that
//! draws the latest snapshot on a terminal.
//!
//! The crate computes and decides; it reads no file, opens no terminal and
//! talks to no bus. Whoever does hands it what was read and is told what to
//! write:
//!
//! - [`hwmon`], [`cpu`] and [`sensors`] take the content of the kernel's
//!   files, or the way in which reading them failed, and give the values in
//!   them.
//! - [`rates`] and [`engine`] keep the previous sample of every counter and
//!   make a [`message::SensorsMessage`] out of the current one.
//! - [`events`] decides what a snapshot, a keystroke or a failure does to the
//!   dashboard, and [`render`] and [`frame`] give the bytes that draw it.
//! - [`session`], [`bus`] and [`config`] hold what is fixed about the
//!   terminal, the message bus and the names of the kernel's files.
//!
//! Numbers with a fraction are carried as integers in thousandths of their
//! unit: usage in thousandths of a percent, frequency in kHz, temperature in
//! thousandths of a degree Celsius, throughput in thousandths of a bit per
//! second. Every result is therefore exact, and every contract says which
//! integer it is.

pub mod bus;
pub mod config;
pub mod cpu;
pub mod engine;
pub mod error;
pub mod events;
pub mod frame;
pub mod hwmon;
pub mod message;
pub mod parse;
pub mod rates;
pub mod render;
pub mod sensors;
pub mod session;
pub mod text;
