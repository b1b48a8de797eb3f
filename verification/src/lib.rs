//! Helper routines for a document-database web backend: ObjectId hex strings,
//! password hashing and verification, duplicate-key error translation, random
//! SKU generation, and auth-token checks.

pub mod auth;
pub mod db_errors;
pub mod errors;
pub mod object_id;
pub mod password;
pub mod sku;
