//! Verified core of a cross-platform screen-capture library: the error
//! model, the image-format model and its parser, RGBA encoding with its
//! validation rules, Base64 output, and the decisions of the capture
//! pipeline. Operating-system access and the JavaScript binding live in
//! the `app/` crate.

pub mod text;
pub mod error;
pub mod monitor;
pub mod base64;
pub mod encoding;
pub mod interop;
pub mod capture;
