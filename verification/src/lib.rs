//! Uptime monitor core: a health state machine that turns per-service probe
//! statuses into edge-triggered down/up alert events, and a deterministic
//! HMAC-SHA1 request-signing engine for the outbound alert POST.

pub mod encoding;
pub mod errors;
pub mod health;
pub mod notify;
pub mod signature;
pub mod store;
