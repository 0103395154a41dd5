//! A record/replay engine for keyboard and mouse input.
//!
//! The engine captures a stream of input events, interprets a fixed set of
//! three shortcut events as mode controls, accumulates timestamped events in
//! a record buffer while armed, and plans the replay of a recorded buffer
//! with faithful or flattened timing.  The host process supplies the raw
//! event stream and performs the actual sleeping and event injection; every
//! decision the engine takes is verified here.

pub mod codec;
pub mod dispatch;
pub mod engine;
pub mod event;
pub mod keymap;
pub mod playback;
