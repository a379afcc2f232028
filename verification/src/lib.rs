//! A software U2F token whose application keys are threshold (two-party)
//! ECDSA shares, with its key store kept in the desktop secret service.
pub mod app_id;
pub mod application_key;
pub mod attributes;
pub mod digest;
pub mod encoding;
pub mod gotham_crypto;
pub mod key_handle;
pub mod known_app_ids;
pub mod random_source;
pub mod secret_store;
pub mod service_calls;
pub mod text;
