//! Decision logic of an in-game overlay: resolving multi-level pointer
//! chains, the hotkey and key-binding state machine, the notification
//! queue, key names and the persisted configuration.
pub mod config;
pub mod injector;
pub mod keys;
pub mod memory;
pub mod tool;
