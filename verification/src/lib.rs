//! Glue between the Discord Game SDK client and a frame-driven game engine.
//!
//! [`DiscordPlugin`] carries the application's client identifier. Its
//! [`build`](DiscordPlugin::build) calls the SDK's constructor with that
//! identifier and registers the outcome with a [`Host`]: on success the
//! handle is published in the host's main-thread slot and polled once per
//! tick, on failure one error record is emitted and the host is left without
//! the feature. The module [`laws`] proves what follows for every host.

pub mod host;
pub mod laws;
pub mod plugin;

pub use host::{Host, HostView, Phase};
pub use plugin::{ClientID, DiscordPlugin};
