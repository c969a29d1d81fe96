//! Client-side engine of a realtime chat surface: the wire frames it speaks,
//! the roster and transcript it keeps, and the rules that reconcile them with
//! every inbound frame.
pub mod json;
pub mod protocol;
pub mod chat;
