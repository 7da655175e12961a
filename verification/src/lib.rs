//! A backend that runs weavers on this machine and shows them as pods.
//!
//! A weaver is a tmux session that runs loom. What the backend keeps about it lies
//! in a directory of its own. Everything the backend decides stands here; what
//! touches the disk, tmux or a terminal is asked for step by step, as [`progress`]
//! describes.
pub mod byte_string;
pub mod client;
pub mod config;
pub mod error;
pub mod log_follower;
pub mod path;
pub mod pod;
pub mod pod_builder;
pub mod progress;
pub mod pty;
pub mod shell;
pub mod text;
pub mod text_map;
pub mod time;
pub mod tmux;
pub mod weaver;

pub use client::LocalClient;
pub use config::LocalConfig;
pub use error::{LocalError, LocalResult};
pub use weaver::{LocalWeaver, WeaverMetadata, WeaverStatus};
