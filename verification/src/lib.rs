//! The logic of the MLX Pilot bridge to OpenClaw and of its desktop shell,
//! verified with Verus.
//!
//! - [`text`]: trimming, case folding, decimal numerals and joining.
//! - [`json`]: JSON documents parsed by `serde_json`, and lookups in them.
//! - [`openclaw`]: the OpenClaw runtime: log reads, status, chat requests,
//!   CLI outcomes and the normalized chat response.
//! - [`desktop`]: the desktop shell's choices of daemon, address and URL.
pub mod text;
pub mod json;
pub mod openclaw;
pub mod desktop;
