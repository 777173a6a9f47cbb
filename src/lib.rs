//! Mutual authentication (MAuth) for HTTP: canonical strings, request
//! signing in the current and the legacy scheme, validation of signed
//! responses against a replay window, and a cache of remote parties' public
//! keys. Around it sit a few helpers of the audit tooling.

pub mod audit;
pub mod canonical;
pub mod client;
pub mod encoding;
pub mod headers;
pub mod primitives;
