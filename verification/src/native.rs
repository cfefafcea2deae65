//! Questions put to the operating system.

pub mod pla;
pub mod version_helper;
