//! Encoder for the WebAssembly binary module format.
//!
//! A module is described in memory by the data types of this crate (sections,
//! function types, instructions, and so on) and serialized by the
//! [`encoder::WasmEncode`] trait into the canonical byte layout: an 8-byte
//! preamble followed by length-prefixed sections.  Every encoding function is
//! verified against a mathematical description of the byte layout, so the
//! bytes produced are pinned down exactly by the specifications.

pub mod constants;
pub mod encoder;
pub mod expression;
pub mod function_type;
pub mod index;
pub mod limits;
pub mod module;
pub mod section;
