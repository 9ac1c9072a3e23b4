//! Encoding through a test engine: the push path, the write bridge, and
//! argument validation.

use stb::engine::CodecEngine;
use stb::image_write::{
    stbi_write_bmp, stbi_write_bmp_to_func, stbi_write_png_to_func, stbi_write_tga_to_func,
};
use stb::sink::{ByteSink, MemorySink, WriteBridge};

/// A deterministic stand-in encoding: a header with the dimensions, then the
/// samples verbatim.
fn encode_raw(w: i32, h: i32, comp: i32, buffer: &[u8]) -> Vec<u8> {
    let mut out = vec![
        (w as u16).to_le_bytes()[0],
        (w as u16).to_le_bytes()[1],
        (h as u16).to_le_bytes()[0],
        (h as u16).to_le_bytes()[1],
        comp as u8,
    ];
    out.extend_from_slice(&buffer[..(w as usize) * (h as usize) * (comp as usize)]);
    out
}

/// An engine whose complete-buffer encode path records the bytes it would
/// have written, so tests can compare the push path against it.
struct RecordingEncoder {
    written: Vec<u8>,
    chunk_size: usize,
}

impl RecordingEncoder {
    fn new(chunk_size: usize) -> Self {
        RecordingEncoder {
            written: Vec::new(),
            chunk_size,
        }
    }
}

impl CodecEngine for RecordingEncoder {
    fn encode_bmp_to_path(
        &mut self,
        _path: &str,
        w: i32,
        h: i32,
        comp: i32,
        buffer: &[u8],
    ) -> bool {
        self.written = encode_raw(w, h, comp, buffer);
        true
    }

    fn encode_bmp_to_sink<S: ByteSink>(
        &mut self,
        bridge: &mut WriteBridge,
        sink: &mut S,
        w: i32,
        h: i32,
        comp: i32,
        buffer: &[u8],
    ) -> bool {
        let bytes = encode_raw(w, h, comp, buffer);
        for chunk in bytes.chunks(self.chunk_size) {
            bridge.push(sink, chunk);
        }
        true
    }

    fn encode_tga_to_sink<S: ByteSink>(
        &mut self,
        _bridge: &mut WriteBridge,
        _sink: &mut S,
        _w: i32,
        _h: i32,
        _comp: i32,
        _buffer: &[u8],
    ) -> bool {
        // An engine without this capability: nothing delivered, failure
        // reported.
        false
    }
}

#[test]
fn write_bmp_callback() {
    let mut engine = RecordingEncoder::new(3);
    let mut sink = MemorySink::new();
    stbi_write_bmp_to_func(&mut engine, &mut sink, 1, 1, 1, &[1])
        .expect("encode should succeed");
    assert_ne!(sink.chunk_count(), 0);
}

#[test]
fn push_path_matches_complete_buffer_path() {
    // A 1 x 1 single-channel pixel through the push path: at least one
    // non-empty chunk arrives, and the concatenation equals the bytes of
    // the complete-buffer encode of the same input.
    let mut engine = RecordingEncoder::new(2);
    let mut sink = MemorySink::new();
    stbi_write_bmp_to_func(&mut engine, &mut sink, 1, 1, 1, &[42])
        .expect("push encode should succeed");

    assert!(sink.chunk_count() >= 1);
    assert!((0..sink.chunk_count()).any(|i| sink.chunk_len(i) > 0));

    stbi_write_bmp(&mut engine, "ignored", 1, 1, 1, &[42]).expect("encode should succeed");
    assert_eq!(sink.concatenated(), engine.written);
}

#[test]
fn chunk_boundaries_are_preserved() {
    // 5 header bytes + 4 samples pushed in chunks of 3: boundaries 3/3/3.
    let mut engine = RecordingEncoder::new(3);
    let mut sink = MemorySink::new();
    stbi_write_bmp_to_func(&mut engine, &mut sink, 2, 2, 1, &[1, 2, 3, 4])
        .expect("encode should succeed");
    assert_eq!(sink.chunk_count(), 3);
    assert_eq!(sink.chunk_len(0), 3);
    assert_eq!(sink.chunk_len(1), 3);
    assert_eq!(sink.chunk_len(2), 3);
    assert_eq!(sink.concatenated(), encode_raw(2, 2, 1, &[1, 2, 3, 4]));
}

#[test]
fn invalid_arguments_are_rejected_before_the_engine() {
    let mut engine = RecordingEncoder::new(3);
    let mut sink = MemorySink::new();

    // Zero dimensions, channel counts out of range, short buffers.
    assert!(stbi_write_bmp_to_func(&mut engine, &mut sink, 0, 1, 1, &[1]).is_none());
    assert!(stbi_write_bmp_to_func(&mut engine, &mut sink, 1, 0, 1, &[1]).is_none());
    assert!(stbi_write_bmp_to_func(&mut engine, &mut sink, 1, 1, 5, &[1; 5]).is_none());
    assert!(stbi_write_bmp_to_func(&mut engine, &mut sink, 2, 2, 1, &[1, 2, 3]).is_none());
    assert_eq!(sink.chunk_count(), 0);

    // A row stride smaller than a row is rejected for PNG.
    assert!(stbi_write_png_to_func(&mut engine, &mut sink, 2, 1, 2, &[1, 2, 3, 4], 3).is_none());
    assert_eq!(sink.chunk_count(), 0);
}

#[test]
fn missing_capability_reports_failure() {
    let mut engine = RecordingEncoder::new(3);
    let mut sink = MemorySink::new();
    assert!(stbi_write_tga_to_func(&mut engine, &mut sink, 1, 1, 1, &[1]).is_none());
}
