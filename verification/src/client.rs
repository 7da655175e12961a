//! The local backend: pods that are weavers on this machine.
pub mod access;
pub mod create;
pub mod delete;
pub mod lifecycle;
pub mod promises;
pub mod questions;
pub mod show;
pub mod start;

use crate::config::{ConfigView, LocalConfig};
use crate::text_map::TextMap;
use crate::weaver::{LocalWeaver, WeaverView};
use vstd::prelude::*;

verus! {

/// The local backend, with the weavers that it knows of.
#[derive(Debug)]
pub struct LocalClient {
    pub config: LocalConfig,
    /// The weavers by their ids.
    pub weavers: TextMap<LocalWeaver>,
}

/// A [`LocalClient`] as text.
pub struct ClientView {
    pub config: ConfigView,
    pub weavers: Map<Seq<char>, WeaverView>,
}

impl View for LocalClient {
    type V = ClientView;

    open spec fn view(&self) -> ClientView {
        ClientView { config: self.config@, weavers: self.weavers@ }
    }
}

} // verus!
