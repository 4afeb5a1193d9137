//! UseDNS: the provider catalogue, address validation, active-provider
//! detection, settings model and the planning of DNS changes, each with a
//! contract checked by Verus.
pub mod actions;
pub mod catalog;
pub mod encoding;
pub mod messages;
pub mod models;
pub mod net;
pub mod storage;
pub mod system;
pub mod text;
pub mod tray;
