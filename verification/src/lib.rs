//! Verified core of a split-keyboard firmware: key actions and the
//! default keymap, the storage schema and its key codec, the keymap/behavior
//! restore and rewrite logic, BLE bond-profile management, the host-service
//! context, custom messages, pointing modes and an in-memory NOR flash model.

pub mod action;

pub mod behavior;
pub mod board;
pub mod bytes;
pub mod codec;
pub mod config;
pub mod custom_message;
pub mod device;
pub mod flash;
pub mod grid;
pub mod host_context;
pub mod keymap;
pub mod layout;
pub mod macro_bytes;
pub mod pointing;
pub mod profile;
pub mod restore;
pub mod schema;
pub mod storage;
pub mod task;
