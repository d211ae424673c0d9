//! Delivery relay and click-wait logic for desktop notifications.

pub mod bundle;
pub mod cli;
pub mod config;
pub mod context;
pub mod delivery;
pub mod document;
pub mod error;
pub mod focus;
pub mod forward;
pub mod hooks;
pub mod listener;
pub mod notification;
pub mod payload;
pub mod provider;
pub mod relay;
pub mod remote;
pub mod render;
pub mod text;
