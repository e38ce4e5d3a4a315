//! Verified core of a Discord rich-presence wrapper: metadata pipelines for
//! music players, editor and language-server presence, and the parsing and
//! formatting around them.

pub mod activity;
pub mod backoff;
pub mod discord;
pub mod editor;
pub mod hashing;
pub mod keyed;
pub mod lsp;
pub mod mailbox;
pub mod metadata;
pub mod mpris;
pub mod music;
pub mod paths;
pub mod pattern;
pub mod playerctl;
pub mod programs;
pub mod rpc;
pub mod text;
pub mod time;
pub mod util;
