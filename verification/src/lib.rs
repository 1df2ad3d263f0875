//! Core of a terminal video-search client: the result list with its
//! selection cursor, the cancellable search pipeline, and the key-input
//! state machine. Terminal drawing, networking and process spawning live
//! in the surrounding application; everything here is verified.

pub mod coordinator;
pub mod input;
pub mod item;
pub mod player;
pub mod store;
pub mod text;
pub mod thumb;
