//! The individual target resources: each one names a backing service that
//! receives content, with the credentials secret and verification settings.

pub mod mongodb;
pub mod redis;
pub mod s3;
pub mod sql;
pub mod target;
pub mod webhook;
