//! Client-side model of the External Control Protocol spoken by networked
//! media players: discovery of devices, the requests that query and command
//! them, the typed documents they answer with, and the search parameter
//! builder.
//!
//! The library performs no input or output. Every operation on a [`Device`]
//! yields the [`Request`] that a transport has to carry out, and discovery is
//! a state machine that is fed what the multicast transport received.

pub mod address;
pub mod device;
pub mod discovery;
pub mod error;
pub mod key;
pub mod models;
pub mod search;
pub mod text;

pub use crate::device::{Device, Method, Request};
pub use crate::discovery::{Arrival, Discovery, Probe};
pub use crate::error::Error;
pub use crate::key::Key;
pub use crate::models::{
    ActiveApp, App, Apps, Buffering, DeviceInfo, Format, MediaPlayer, NewStream, Plugin,
    Screensaver, StreamSegment,
};
pub use crate::search::{Search, SearchType};
