//! Core logic of a small file-sharing service: clients upload files into one
//! directory and browse what is stored there, newest or largest first, with
//! thumbnails of the images.
//!
//! The library decides and computes; it touches neither the file system nor
//! the network. A caller reads requests and directories, tells the library
//! what it found, and carries out what the library answers:
//!
//! - [`upload`] takes an upload step by step: the random name of the file,
//!   the options sent with it, the move to the client's name, the link.
//! - [`recent`] lists what a walk of the storage directory found: filtered
//!   by date ([`entry`]), ordered ([`order`]), cut into pages, with a
//!   navigation bar ([`pagination`]).
//! - [`helpers`] places files and thumbnails below the storage root,
//!   [`thumbnail`] makes and links thumbnails, [`delete`] removes both.
//! - [`auth`], [`config`], [`error`] and [`status`] hold who may use the
//!   service, its settings, its failures and its status codes; [`text`] and
//!   [`time`] hold what the others need of texts and of moments.
//!
//! What the library takes from other crates it takes through a few
//! functions whose contracts are trusted, not proved; each says so in its
//! documentation.

use vstd::prelude::*;

pub mod auth;
pub mod config;
pub mod delete;
pub mod entry;
pub mod error;
pub mod helpers;
pub mod order;
pub mod pagination;
pub mod recent;
pub mod status;
pub mod text;
pub mod thumbnail;
pub mod time;
pub mod upload;

pub use config::Opt;
pub use error::WebError;

verus! {

/// Name of the directory, below the storage root, that holds the thumbnails.
pub const THUMBNAIL_SUBDIR: &'static str = "thumbnails";

} // verus!
