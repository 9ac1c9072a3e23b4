//! Encode entry points: write images to a named destination or stream them
//! to a caller-supplied sink, chunk by chunk.

use vstd::prelude::*;

use crate::engine::CodecEngine;
use crate::sink::{ByteSink, WriteBridge};

verus! {

/// The pixel arguments describe an image the encoders can consume: positive
/// dimensions, one to four channels, and a buffer holding at least
/// width times height times channels samples.
pub open spec fn spec_pixel_args_valid(w: int, h: int, comp: int, len: int) -> bool {
    &&& 0 < w
    &&& 0 < h
    &&& 1 <= comp <= 4
    &&& w * h * comp <= len
}

/// The PNG writer additionally takes a row stride in bytes: zero means
/// tightly packed; otherwise it must cover a row, and the buffer must cover
/// the last row's end.
pub open spec fn spec_png_args_valid(w: int, h: int, comp: int, len: int, stride: int) -> bool {
    &&& 0 < w
    &&& 0 < h
    &&& 1 <= comp <= 4
    &&& (stride == 0 || stride >= w * comp)
    &&& (if stride == 0 {
        w * h * comp
    } else {
        stride * (h - 1) + w * comp
    }) <= len
}

/// Executable check of `spec_pixel_args_valid`.
fn pixel_args_valid(w: i32, h: i32, comp: i32, len: usize) -> (r: bool)
    ensures
        r == spec_pixel_args_valid(w as int, h as int, comp as int, len as int),
{
    if w <= 0 || h <= 0 || comp < 1 || comp > 4 {
        return false;
    }
    let wu = w as u64;
    let hu = h as u64;
    let cu = comp as u64;
    assert(wu * hu <= 0x7fff_ffffu64 * 0x7fff_ffffu64) by (nonlinear_arith)
        requires
            wu <= 0x7fff_ffff,
            hu <= 0x7fff_ffff,
    ;
    let wh = wu * hu;
    assert(wh * cu <= 0x3fff_ffff_0000_0001u64 * 4) by (nonlinear_arith)
        requires
            wh <= 0x3fff_ffff_0000_0001u64,
            cu <= 4,
    ;
    wh * cu <= len as u64
}

/// Executable check of `spec_png_args_valid`.
fn png_args_valid(w: i32, h: i32, comp: i32, len: usize, stride: i32) -> (r: bool)
    ensures
        r == spec_png_args_valid(w as int, h as int, comp as int, len as int, stride as int),
{
    if w <= 0 || h <= 0 || comp < 1 || comp > 4 || stride < 0 {
        return false;
    }
    let wq = w as u64;
    let cq = comp as u64;
    assert(wq * cq <= 0x7fff_ffffu64 * 4) by (nonlinear_arith)
        requires
            wq <= 0x7fff_ffff,
            cq <= 4,
    ;
    let row = wq * cq;
    if stride == 0 {
        return pixel_args_valid(w, h, comp, len);
    }
    if (stride as u64) < row {
        return false;
    }
    let su = stride as u64;
    let hu = (h - 1) as u64;
    assert(su * hu <= 0x7fff_ffffu64 * 0x7fff_fffeu64) by (nonlinear_arith)
        requires
            su <= 0x7fff_ffff,
            hu <= 0x7fff_fffe,
    ;
    su * hu + row <= len as u64
}

/// Every record is a prefix of itself: the form of "the sink was only
/// appended to" that holds when nothing was delivered at all.
proof fn lemma_prefix_reflexive(chunks: Seq<Seq<u8>>)
    ensures
        chunks.is_prefix_of(chunks),
{
    assert(chunks =~= chunks.subrange(0, chunks.len() as int));
}

/// Writes the pixels as PNG at the named destination. Rejects arguments the
/// encoders cannot consume without invoking the engine; otherwise reports
/// the engine's own success or failure.
pub fn stbi_write_png<E: CodecEngine>(
    engine: &mut E,
    filename: &str,
    w: i32,
    h: i32,
    comp: i32,
    buffer: &[u8],
    stride_in_bytes: i32,
) -> (r: Option<()>)
    ensures
        !spec_png_args_valid(
            w as int,
            h as int,
            comp as int,
            buffer@.len() as int,
            stride_in_bytes as int,
        ) ==> r is None,
{
    if !png_args_valid(w, h, comp, buffer.len(), stride_in_bytes) {
        return None;
    }
    if engine.encode_png_to_path(filename, w, h, comp, buffer, stride_in_bytes) {
        Some(())
    } else {
        None
    }
}

/// Writes the pixels as BMP at the named destination.
pub fn stbi_write_bmp<E: CodecEngine>(
    engine: &mut E,
    filename: &str,
    w: i32,
    h: i32,
    comp: i32,
    buffer: &[u8],
) -> (r: Option<()>)
    ensures
        !spec_pixel_args_valid(w as int, h as int, comp as int, buffer@.len() as int) ==> r
            is None,
{
    if !pixel_args_valid(w, h, comp, buffer.len()) {
        return None;
    }
    if engine.encode_bmp_to_path(filename, w, h, comp, buffer) {
        Some(())
    } else {
        None
    }
}

/// Writes the pixels as TGA at the named destination.
pub fn stbi_write_tga<E: CodecEngine>(
    engine: &mut E,
    filename: &str,
    w: i32,
    h: i32,
    comp: i32,
    buffer: &[u8],
) -> (r: Option<()>)
    ensures
        !spec_pixel_args_valid(w as int, h as int, comp as int, buffer@.len() as int) ==> r
            is None,
{
    if !pixel_args_valid(w, h, comp, buffer.len()) {
        return None;
    }
    if engine.encode_tga_to_path(filename, w, h, comp, buffer) {
        Some(())
    } else {
        None
    }
}

/// Writes the pixels as JPEG of the given `quality` at the named
/// destination.
pub fn stbi_write_jpg<E: CodecEngine>(
    engine: &mut E,
    filename: &str,
    w: i32,
    h: i32,
    comp: i32,
    buffer: &[u8],
    quality: i32,
) -> (r: Option<()>)
    ensures
        !spec_pixel_args_valid(w as int, h as int, comp as int, buffer@.len() as int) ==> r
            is None,
{
    if !pixel_args_valid(w, h, comp, buffer.len()) {
        return None;
    }
    if engine.encode_jpg_to_path(filename, w, h, comp, buffer, quality) {
        Some(())
    } else {
        None
    }
}

/// Encodes the pixels as PNG, delivering the output to `sink` chunk by
/// chunk through a fresh write bridge. On rejected arguments nothing at all
/// is delivered to the sink.
pub fn stbi_write_png_to_func<E: CodecEngine, S: ByteSink>(
    engine: &mut E,
    sink: &mut S,
    w: i32,
    h: i32,
    comp: i32,
    buffer: &[u8],
    stride_in_bytes: i32,
) -> (r: Option<()>)
    ensures
        old(sink).received().is_prefix_of(final(sink).received()),
        !spec_png_args_valid(
            w as int,
            h as int,
            comp as int,
            buffer@.len() as int,
            stride_in_bytes as int,
        ) ==> r is None && final(sink).received() == old(sink).received(),
{
    if !png_args_valid(w, h, comp, buffer.len(), stride_in_bytes) {
        proof {
            lemma_prefix_reflexive(old(sink).received());
        }
        return None;
    }
    let mut bridge = WriteBridge::new();
    if engine.encode_png_to_sink(&mut bridge, sink, w, h, comp, buffer, stride_in_bytes) {
        Some(())
    } else {
        None
    }
}

/// Encodes the pixels as BMP, delivering the output to `sink` chunk by
/// chunk through a fresh write bridge.
pub fn stbi_write_bmp_to_func<E: CodecEngine, S: ByteSink>(
    engine: &mut E,
    sink: &mut S,
    w: i32,
    h: i32,
    comp: i32,
    buffer: &[u8],
) -> (r: Option<()>)
    ensures
        old(sink).received().is_prefix_of(final(sink).received()),
        !spec_pixel_args_valid(w as int, h as int, comp as int, buffer@.len() as int) ==> r
            is None && final(sink).received() == old(sink).received(),
{
    if !pixel_args_valid(w, h, comp, buffer.len()) {
        proof {
            lemma_prefix_reflexive(old(sink).received());
        }
        return None;
    }
    let mut bridge = WriteBridge::new();
    if engine.encode_bmp_to_sink(&mut bridge, sink, w, h, comp, buffer) {
        Some(())
    } else {
        None
    }
}

/// Encodes the pixels as TGA, delivering the output to `sink` chunk by
/// chunk through a fresh write bridge.
pub fn stbi_write_tga_to_func<E: CodecEngine, S: ByteSink>(
    engine: &mut E,
    sink: &mut S,
    w: i32,
    h: i32,
    comp: i32,
    buffer: &[u8],
) -> (r: Option<()>)
    ensures
        old(sink).received().is_prefix_of(final(sink).received()),
        !spec_pixel_args_valid(w as int, h as int, comp as int, buffer@.len() as int) ==> r
            is None && final(sink).received() == old(sink).received(),
{
    if !pixel_args_valid(w, h, comp, buffer.len()) {
        proof {
            lemma_prefix_reflexive(old(sink).received());
        }
        return None;
    }
    let mut bridge = WriteBridge::new();
    if engine.encode_tga_to_sink(&mut bridge, sink, w, h, comp, buffer) {
        Some(())
    } else {
        None
    }
}

/// Encodes the pixels as JPEG of the given `quality`, delivering the output
/// to `sink` chunk by chunk through a fresh write bridge.
pub fn stbi_write_jpg_to_func<E: CodecEngine, S: ByteSink>(
    engine: &mut E,
    sink: &mut S,
    w: i32,
    h: i32,
    comp: i32,
    buffer: &[u8],
    quality: i32,
) -> (r: Option<()>)
    ensures
        old(sink).received().is_prefix_of(final(sink).received()),
        !spec_pixel_args_valid(w as int, h as int, comp as int, buffer@.len() as int) ==> r
            is None && final(sink).received() == old(sink).received(),
{
    if !pixel_args_valid(w, h, comp, buffer.len()) {
        proof {
            lemma_prefix_reflexive(old(sink).received());
        }
        return None;
    }
    let mut bridge = WriteBridge::new();
    if engine.encode_jpg_to_sink(&mut bridge, sink, w, h, comp, buffer, quality) {
        Some(())
    } else {
        None
    }
}

} // verus!
