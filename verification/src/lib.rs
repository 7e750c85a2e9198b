//! A media remote that talks to a phone over Bluetooth LE: it shows the track
//! that is playing, sends the media commands of three buttons, and keeps the
//! bond with the phone across restarts.
//!
//! This crate holds what the device decides and computes. Radio, flash,
//! display and buttons are driven by the firmware that calls it.

pub mod advertise;
pub mod bond;
pub mod buttons;
mod copy;
pub mod display;
mod keys;
pub mod le;
pub mod lock;
pub mod media;
pub mod screen;
pub mod session;
pub mod title;

