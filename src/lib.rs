//! Supervision of the companion gateway process and aggregation of the
//! health of the services that the desktop shell depends on.
pub mod config;
pub mod docker;
pub mod gateway;
pub mod hardware;
pub mod health;
pub mod onboarding;
pub mod privacy;
pub mod services;
pub mod text;
pub mod updater;
