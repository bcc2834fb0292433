//! Append pipeline for economic events: validation, idempotent
//! reservation of client tokens, and the acknowledgment returned to callers.
pub mod handler;
pub mod registry;
pub mod time;
pub mod validation;
