//! A safety layer between caller-supplied byte sources/sinks and pull-based
//! binary codecs.
//!
//! The codecs themselves (image decoders and encoders, and their relatives)
//! are an opaque engine capability: this crate adapts a seekable byte source
//! to the three pull primitives such an engine needs (read, skip, end-of-data,
//! with a one-shot error latch), adapts the engine's push-style encode
//! callback to a caller-supplied sink, and wraps the decoded allocation in an
//! owned buffer whose element count is derived from the decode metadata and
//! the requested channel count.
//!
//! The crate itself ships no codec engine: callers supply one through the
//! [`engine::CodecEngine`] trait, and every guarantee stated here holds for
//! any engine, since nothing is assumed of what an engine returns.

pub mod bridge;
pub mod dxt;
pub mod engine;
pub mod image;
pub mod image_write;
pub mod sink;
pub mod source;
pub mod truetype;
