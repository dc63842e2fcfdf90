//! A personal photo library kept in two stores at once: a relational catalogue
//! and a directory tree. This crate holds the rules that keep the two in
//! agreement: how photos are named, where each element lives on disk, and in
//! which order the steps of each operation are taken.
pub mod error;
pub mod timestamp;
pub mod naming;
pub mod filesystem;
pub mod store;
pub mod capability;
pub mod element;
pub mod library;
pub mod laws;

pub use capability::{ElementDatabase, ElementFilesystem};
pub use element::{Album, Collection, Photo};
pub use error::{Error, IoKind, OsplError};
pub use filesystem::{Directory, Filesystem};
pub use library::Library;
pub use naming::get_filename_from;
pub use store::Step;
pub use timestamp::Timestamp;
