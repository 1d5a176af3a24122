//! A policy-gated resource reader.
//!
//! Given a URL and an access policy, the library decides whether the fetch is
//! permitted, dispatches on the URL's scheme, and maps the outcome of the
//! actual transfer — a local file read or an HTTP(S) fetch — to either the
//! resource's raw bytes or a precise, typed failure.  The I/O itself is left
//! to the embedding program: the library hands it a fetch step to perform and
//! interprets the outcome it hands back, so every decision and every mapping
//! here is verified.

pub mod digits;
pub mod resources;
pub mod terminal_size;
