//! A local authenticator: the record model of one-time-password secrets, the
//! ordered store of records, code generation, the encrypted form of the
//! store, and the decoding of foreign exports.
//!
//! The library computes on values; reading and writing files, asking for
//! passwords and drawing the dashboard are left to the program around it.

pub mod backup;
pub mod crypto;
pub mod error;
pub mod importer;
pub mod otp;
pub mod paths;
pub mod record;
pub mod secret;
pub mod store;
pub mod text;
pub mod uri;
