//! Verified request logic of a self-hosted file and paste sharing service.
pub mod form_fields;
pub mod homepage;
pub mod imagestrip;
pub mod model;
pub mod numbers;
pub mod settings;
pub mod text;
pub mod settings_form;
pub mod net;
pub mod crypto;
pub mod delivery;
pub mod access;
pub mod upload;
pub mod tus;
pub mod oidc;
pub mod api;
pub mod system;
pub mod pastes;
pub mod browse;
pub mod samples;
pub mod moderation;
pub mod accounts;
pub mod expiry;
pub mod intake;
pub mod fetch;
pub mod imagestream;
pub mod openapi;
