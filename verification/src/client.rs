//! Client-side state: the resource manager.

pub mod resourcemanager;
