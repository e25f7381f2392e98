//! An encrypted credential vault: envelope encryption of field values under a
//! passphrase-protected master key, encrypted account and password-history
//! storage, and the widget and session state machines of its terminal front end.
pub mod account_table;
pub mod app;
pub mod auth;
pub mod cipher;
pub mod confirm;
pub mod error;
pub mod fmt;
pub mod form;
pub mod hex;
pub mod import;
pub mod input;
pub mod key;
pub mod keystore;
pub mod model;
pub mod repo;
pub mod text;
pub mod time;
pub mod view;
