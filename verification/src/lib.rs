//! Verified core of a safe access layer over a C-style configuration-set
//! interface: string marshalling, decoding of sentinel-coded results, and the
//! call protocol that keeps foreign resources owned and released exactly once.

pub mod c_string;
pub mod config_set;
pub mod protocol;
pub mod sentinel;

pub use crate::c_string::CString;
pub use crate::config_set::{Call, ConfigSet, Phase};
pub use crate::sentinel::MaybeBool;
