//! Fragments of a game client: a resource manager that tracks textures and
//! fonts loaded from an on-disk asset tree, and the user-interface scenes
//! (a splash screen, a main menu) that consume those resources.
//!
//! The rendering toolkit and the file system sit outside this crate; the
//! logic here works on plain handles and path strings, with contracts.

pub mod client;
pub mod scenes;
