//! Orbitport's Helios ground-station plugin, its canonical types, the gateway's
//! error-to-status mapping and a model of the Helios mock service, with their
//! behaviour stated as Verus contracts.

pub mod formats;
pub mod gateway;
pub mod laws;
pub mod mock;
pub mod plugins;
pub mod provider;
pub mod types;
