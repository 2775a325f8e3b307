//! Verified building blocks of the Root14 private-payment demos.
pub mod field;
pub mod hex;
pub mod notes;
pub mod merkle;
pub mod prove;
pub mod wallet;
pub mod transfer;
pub mod oracle;
pub mod settings;
