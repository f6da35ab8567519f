//! The core of a live viewer for a device log stream.
//!
//! Lines of the stream are parsed into entries ([`parser`]) and kept in a
//! bounded store that lets the oldest entry go when it is full and knows
//! every entry by a stable absolute index ([`store`]). The entries on show
//! are picked by a set of filters ([`filter`], [`pattern`]), crash and ANR
//! reports are flagged whatever the filters say, and both selections are
//! kept as ascending lists of absolute indices ([`index`]). A viewport
//! either tails the entries on show or stays paused on the ones it showed
//! ([`viewport`]). [`app`] holds all of this together with the invariants
//! that tie the parts to each other; [`input`] says what keys and pointer
//! actions do to it, [`adb`] reads what the device tools print, [`json`]
//! highlights JSON payloads, and [`view`] says what the screen shows.
//! [`text`] has the character scanning that the parsers share.
//!
//! The library touches neither the terminal nor the device nor the file
//! system: it is handed what happened there and says what follows.

pub mod adb;
pub mod app;
pub mod filter;
pub mod index;
pub mod input;
pub mod json;
pub mod parser;
pub mod pattern;
pub mod store;
pub mod text;
pub mod view;
pub mod viewport;
