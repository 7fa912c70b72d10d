//! Conveniences around file paths.
//!
//! A [`Filey`] is a handle on one path. It tells the path's name, stem and
//! parent, and what kind of file lies at it now ([`FileTypes`]). A
//! [`PathNormalizer`] expands and contracts the tilde and makes paths
//! absolute, for a home directory and a working directory that the caller
//! supplies. [`UnitOfInfo`] writes byte counts in compact notation.
//!
//! The library changes nothing on disk. For creating, removing, measuring,
//! listing, moving, copying and linking it decides what is to be asked of
//! the operating system and hands that out as a [`Request`], which the
//! caller carries out.
//!
//! Paths are text, read as Unix paths.

pub mod decimal;
pub mod error;
pub mod file_types;
pub mod filey;
pub mod normalizer;
pub mod permissions;
pub mod request;
pub mod system;
pub mod unit_of_information;
pub mod units;

pub use crate::error::{Error, OsFailure};
pub use crate::file_types::FileTypes;
pub use crate::filey::Filey;
pub use crate::normalizer::PathNormalizer;
pub use crate::permissions::{Permission, Permissions};
pub use crate::request::{Request, Transfer};
pub use crate::unit_of_information::UnitOfInfo;
