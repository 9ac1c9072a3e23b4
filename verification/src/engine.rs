//! The codec engine capability: the opaque decoder/encoder this crate
//! bridges to.

use vstd::prelude::*;

use crate::bridge::ReadBridge;
use crate::image::Info;
use crate::sink::{ByteSink, WriteBridge};
use crate::source::ByteSource;

verus! {

/// Per-call decode configuration. These switches are handed explicitly to
/// every decode call instead of living in process-wide mutable state, so
/// concurrent decodes cannot observe each other's settings.
#[derive(Debug, Clone, Copy, PartialEq, Eq, Structural)]
pub struct DecodeOptions {
    /// Flip the image vertically, so the first pixel of the output is the
    /// bottom left.
    pub flip_vertically_on_load: bool,
    /// Divide per pixel to remove premultiplied alpha, only where the image
    /// file explicitly says its data is premultiplied.
    pub unpremultiply_on_load: bool,
    /// Convert iPhone-formatted PNGs back to RGB; when off, the native
    /// iPhone layout (BGR stored in RGB) comes through unchanged.
    pub convert_iphone_png_to_rgb: bool,
}

impl Default for DecodeOptions {
    fn default() -> (r: Self)
        ensures
            !r.flip_vertically_on_load,
            !r.unpremultiply_on_load,
            r.convert_iphone_png_to_rgb,
    {
        DecodeOptions {
            flip_vertically_on_load: false,
            unpremultiply_on_load: false,
            convert_iphone_png_to_rgb: true,
        }
    }
}

/// A pull-based codec engine: the opaque capability that implements the
/// actual codec algorithms. This crate never retries or re-enters it.
///
/// Decoding consumes either a complete in-memory buffer or the pull
/// primitives of a [`ReadBridge`] over a caller's source; it yields the raw
/// samples and the decode metadata, or fails. Encoding either writes to a
/// named destination or pushes chunks through a [`WriteBridge`] into a
/// caller's sink. Nothing is promised of an engine's results: the verified
/// callers in this crate validate whatever comes back before wrapping it.
///
/// `desired_channels` is the numeric channel request (0 keeps the source's
/// native count). The default body of every operation reports failure, so an
/// engine implements only the capabilities it has.
pub trait CodecEngine: Sized {
    /// Metadata of the image in `buffer`, without decoding the pixels.
    fn info_from_memory(&mut self, buffer: &[u8]) -> (r: Option<Info>) {
        None
    }

    /// Metadata of the image behind `source`, without decoding the pixels.
    /// The source is left usable, its content untouched.
    fn info_from_source<R: ByteSource>(
        &mut self,
        bridge: &mut ReadBridge,
        source: &mut R,
    ) -> (r: Option<Info>)
        requires
            old(source).wf(),
        ensures
            final(source).wf(),
            final(source).stream() == old(source).stream(),
            final(source).reliable() == old(source).reliable(),
    {
        None
    }

    /// Whether the image in `buffer` carries 16 bits per channel.
    fn is_16_bit_from_memory(&mut self, buffer: &[u8]) -> (r: bool) {
        false
    }

    /// Whether the image behind `source` carries 16 bits per channel.
    /// The source is left usable, its content untouched.
    fn is_16_bit_from_source<R: ByteSource>(
        &mut self,
        bridge: &mut ReadBridge,
        source: &mut R,
    ) -> (r: bool)
        requires
            old(source).wf(),
        ensures
            final(source).wf(),
            final(source).stream() == old(source).stream(),
            final(source).reliable() == old(source).reliable(),
    {
        false
    }

    /// Decodes the image in `buffer` to 8-bit samples plus metadata.
    fn decode8_from_memory(
        &mut self,
        buffer: &[u8],
        desired_channels: i32,
        options: &DecodeOptions,
    ) -> (r: Option<(Info, Vec<u8>)>) {
        None
    }

    /// Decodes the image behind `source` to 8-bit samples plus metadata.
    /// The source is left usable, its content untouched.
    fn decode8_from_source<R: ByteSource>(
        &mut self,
        bridge: &mut ReadBridge,
        source: &mut R,
        desired_channels: i32,
        options: &DecodeOptions,
    ) -> (r: Option<(Info, Vec<u8>)>)
        requires
            old(source).wf(),
        ensures
            final(source).wf(),
            final(source).stream() == old(source).stream(),
            final(source).reliable() == old(source).reliable(),
    {
        None
    }

    /// Decodes the image in `buffer` to 16-bit samples plus metadata.
    fn decode16_from_memory(
        &mut self,
        buffer: &[u8],
        desired_channels: i32,
        options: &DecodeOptions,
    ) -> (r: Option<(Info, Vec<u16>)>) {
        None
    }

    /// Decodes the image behind `source` to 16-bit samples plus metadata.
    /// The source is left usable, its content untouched.
    fn decode16_from_source<R: ByteSource>(
        &mut self,
        bridge: &mut ReadBridge,
        source: &mut R,
        desired_channels: i32,
        options: &DecodeOptions,
    ) -> (r: Option<(Info, Vec<u16>)>)
        requires
            old(source).wf(),
        ensures
            final(source).wf(),
            final(source).stream() == old(source).stream(),
            final(source).reliable() == old(source).reliable(),
    {
        None
    }

    /// Encodes `w` by `h` pixels of `comp` channels as PNG at the named
    /// destination. `true` on success.
    fn encode_png_to_path(
        &mut self,
        path: &str,
        w: i32,
        h: i32,
        comp: i32,
        buffer: &[u8],
        stride_in_bytes: i32,
    ) -> (r: bool) {
        false
    }

    /// Encodes the pixels as BMP at the named destination. `true` on success.
    fn encode_bmp_to_path(&mut self, path: &str, w: i32, h: i32, comp: i32, buffer: &[u8]) -> (r:
        bool) {
        false
    }

    /// Encodes the pixels as TGA at the named destination. `true` on success.
    fn encode_tga_to_path(&mut self, path: &str, w: i32, h: i32, comp: i32, buffer: &[u8]) -> (r:
        bool) {
        false
    }

    /// Encodes the pixels as JPEG of the given `quality` at the named
    /// destination. `true` on success.
    fn encode_jpg_to_path(
        &mut self,
        path: &str,
        w: i32,
        h: i32,
        comp: i32,
        buffer: &[u8],
        quality: i32,
    ) -> (r: bool) {
        false
    }

    /// Encodes the pixels as PNG, pushing the output through `bridge` into
    /// `sink` chunk by chunk: whatever happens, chunks are only ever
    /// appended to the sink's record. `true` on success.
    fn encode_png_to_sink<S: ByteSink>(
        &mut self,
        bridge: &mut WriteBridge,
        sink: &mut S,
        w: i32,
        h: i32,
        comp: i32,
        buffer: &[u8],
        stride_in_bytes: i32,
    ) -> (r: bool)
        ensures
            old(sink).received().is_prefix_of(final(sink).received()),
    {
        proof {
            assert(old(sink).received() =~= old(sink).received().subrange(
                0,
                old(sink).received().len() as int,
            ));
        }
        false
    }

    /// Encodes the pixels as BMP, pushing the output through `bridge` into
    /// `sink` chunk by chunk: whatever happens, chunks are only ever
    /// appended to the sink's record. `true` on success.
    fn encode_bmp_to_sink<S: ByteSink>(
        &mut self,
        bridge: &mut WriteBridge,
        sink: &mut S,
        w: i32,
        h: i32,
        comp: i32,
        buffer: &[u8],
    ) -> (r: bool)
        ensures
            old(sink).received().is_prefix_of(final(sink).received()),
    {
        proof {
            assert(old(sink).received() =~= old(sink).received().subrange(
                0,
                old(sink).received().len() as int,
            ));
        }
        false
    }

    /// Encodes the pixels as TGA, pushing the output through `bridge` into
    /// `sink` chunk by chunk: whatever happens, chunks are only ever
    /// appended to the sink's record. `true` on success.
    fn encode_tga_to_sink<S: ByteSink>(
        &mut self,
        bridge: &mut WriteBridge,
        sink: &mut S,
        w: i32,
        h: i32,
        comp: i32,
        buffer: &[u8],
    ) -> (r: bool)
        ensures
            old(sink).received().is_prefix_of(final(sink).received()),
    {
        proof {
            assert(old(sink).received() =~= old(sink).received().subrange(
                0,
                old(sink).received().len() as int,
            ));
        }
        false
    }

    /// Encodes the pixels as JPEG of the given `quality`, pushing the output
    /// through `bridge` into `sink` chunk by chunk: whatever happens, chunks
    /// are only ever appended to the sink's record. `true` on success.
    fn encode_jpg_to_sink<S: ByteSink>(
        &mut self,
        bridge: &mut WriteBridge,
        sink: &mut S,
        w: i32,
        h: i32,
        comp: i32,
        buffer: &[u8],
        quality: i32,
    ) -> (r: bool)
        ensures
            old(sink).received().is_prefix_of(final(sink).received()),
    {
        proof {
            assert(old(sink).received() =~= old(sink).received().subrange(
                0,
                old(sink).received().len() as int,
            ));
        }
        false
    }
}

} // verus!
