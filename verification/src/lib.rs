//! Core of a single-process HTTP gateway that serves a bundled single-page
//! application and forwards API calls under registered route prefixes to
//! independent backend services.
//!
//! The crate holds the request router and reverse-proxy forwarding logic:
//! classifying an inbound path, building the outbound target URL, relaying
//! headers, synthesizing error responses for upstream failures, and serving
//! bundled assets with a SPA fallback. Listening, transport I/O, and startup
//! wiring live outside this crate and call into it with plain values.

pub mod assets;
pub mod proxy;
pub mod respond;
pub mod routes;
pub mod text;
