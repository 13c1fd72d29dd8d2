//! Scheduling, configuration and region logic of the Nyra desktop assistant.

pub mod capture;
pub mod job;
pub mod launch;
pub mod overlay;
pub mod sensory;
pub mod sentry;
pub mod settings_default_values;
pub mod perception;
pub mod platform;
pub mod reaction;
pub mod text;
