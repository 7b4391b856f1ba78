//! Ground-station plugins.

pub mod helios;
