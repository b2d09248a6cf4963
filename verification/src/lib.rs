//! Core logic of a browser-emulating HTTP client bridge: client and session
//! registries, the request pipeline's decision rules, the streaming body
//! store, cancellation bookkeeping, and the WebSocket event loop.
//!
//! All network I/O, the async runtime, and the host-language bindings live
//! outside this crate; the functions here work on plain values and on the
//! registries' own state, and their contracts state exactly what each
//! operation decides.

pub mod body;
pub mod cancel;
pub mod chars;
pub mod cookies;
pub mod ephemeral;
pub mod errors;
pub mod method;
pub mod options;
pub mod pipeline;
pub mod profiles;
pub mod sessions;
pub mod table;
pub mod transports;
pub mod util;
pub mod ws;
pub mod wsheaders;
