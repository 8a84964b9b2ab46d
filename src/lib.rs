//! Client logic for a cryptocurrency exchange's public and trading APIs:
//! request bodies, nonces and HMAC-SHA512 signatures for private calls, and
//! typed decoding of the JSON answers.
pub mod text;
pub mod signer;
pub mod json;
pub mod model;
pub mod endpoints;
