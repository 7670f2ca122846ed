//! Modal input dispatch engine for a vim-style browser shell.
//!
//! The engine classifies every raw key event delivered by the host, tracks a
//! "leader key" composition window, keeps a cached answer to the asynchronous
//! "is the page in insert mode?" query, and decides for each event which
//! command to run and whether the event propagates to the host's default
//! handling. All GUI work (windows, web views, script execution) is left to
//! the embedding application; the engine only takes plain values in and hands
//! plain decisions back.

pub mod command;
pub mod engine;
pub mod inspector;
pub mod keys;
pub mod leader;
pub mod mode;
