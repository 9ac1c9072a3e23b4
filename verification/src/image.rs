//! Decode metadata, the channel remapper, the owned pixel buffer, and the
//! decode entry points.

use vstd::prelude::*;

use crate::bridge::ReadBridge;
use crate::engine::{CodecEngine, DecodeOptions};
use crate::source::ByteSource;

verus! {

/// Channel count a caller may request from a decode: `Default` keeps the
/// channel count native to the source.
#[derive(Debug, Clone, Copy, PartialEq, Eq, PartialOrd, Structural)]
pub enum Channels {
    Default,
    Grey,
    GreyAlpha,
    Rgb,
    RgbAlpha,
}

impl Channels {
    /// The numeric code of this request: 0 stands for `Default`, otherwise
    /// the requested channel count itself.
    pub open spec fn spec_code(self) -> int {
        match self {
            Channels::Default => 0,
            Channels::Grey => 1,
            Channels::GreyAlpha => 2,
            Channels::Rgb => 3,
            Channels::RgbAlpha => 4,
        }
    }

    /// The numeric code handed to a codec engine.
    pub fn code(self) -> (r: i32)
        ensures
            r as int == self.spec_code(),
    {
        match self {
            Channels::Default => 0,
            Channels::Grey => 1,
            Channels::GreyAlpha => 2,
            Channels::Rgb => 3,
            Channels::RgbAlpha => 4,
        }
    }
}

/// Decode metadata reported by a codec engine.
#[derive(Debug, Clone, Copy, PartialEq, Eq, Structural)]
pub struct Info {
    /// Image width in pixels
    pub width: i32,
    /// Image height in pixels
    pub height: i32,
    /// Number of image components native to the image file
    pub components: i32,
}

impl Default for Info {
    fn default() -> (r: Self)
        ensures
            r.width == 0,
            r.height == 0,
            r.components == 0,
    {
        Info { width: 0, height: 0, components: 0 }
    }
}

/// Metadata is well formed when the dimensions are non-negative and the
/// native channel count is between one and four.
pub open spec fn info_valid(info: Info) -> bool {
    &&& 0 <= info.width
    &&& 0 <= info.height
    &&& 1 <= info.components <= 4
}

/// The channel count used to size a decoded buffer: the requested count if
/// the caller named one, else the count native to the source.
pub open spec fn spec_effective_channels(desired: Channels, native: int) -> int {
    if desired == Channels::Default {
        native
    } else {
        desired.spec_code()
    }
}

/// Logical element count of a decoded buffer: width times height times the
/// effective channel count.
pub open spec fn spec_element_count(desired: Channels, info: Info) -> int {
    info.width * info.height * spec_effective_channels(desired, info.components as int)
}

/// The channel-count substitution rule, stated on its own: a named request
/// wins, and only `Default` falls back to the source's native count.
pub proof fn lemma_effective_channels(desired: Channels, native: int)
    ensures
        desired == Channels::Default ==> spec_effective_channels(desired, native) == native,
        desired != Channels::Default ==> spec_effective_channels(desired, native)
            == desired.spec_code(),
        1 <= native <= 4 ==> 1 <= spec_effective_channels(desired, native) <= 4,
{
}

/// Executable check of `info_valid`.
pub fn check_info_valid(info: &Info) -> (r: bool)
    ensures
        r == info_valid(*info),
{
    0 <= info.width && 0 <= info.height && 1 <= info.components && info.components <= 4
}

/// Computes the element count of a decode described by `info` under the
/// request `desired`, or reports that the metadata is unusable: not well
/// formed, or a count too large for this machine.
pub fn element_count(desired: Channels, info: &Info) -> (r: Option<usize>)
    ensures
        r matches Some(n) ==> info_valid(*info) && n as int == spec_element_count(desired, *info),
        r is None <==> !info_valid(*info) || spec_element_count(desired, *info) > usize::MAX,
{
    if !check_info_valid(info) {
        return None;
    }
    let eff: i32 = if matches!(desired, Channels::Default) {
        info.components
    } else {
        desired.code()
    };
    let w = info.width as u64;
    let h = info.height as u64;
    let e = eff as u64;
    assert(w * h <= 0x7fff_ffffu64 * 0x7fff_ffffu64) by (nonlinear_arith)
        requires
            w <= 0x7fff_ffff,
            h <= 0x7fff_ffff,
    ;
    let wh = w * h;
    assert(wh * e <= 0x3fff_ffff_0000_0001u64 * 4) by (nonlinear_arith)
        requires
            wh <= 0x3fff_ffff_0000_0001u64,
            e <= 4,
    ;
    let total = wh * e;
    assert(total == spec_element_count(desired, *info));
    if total <= usize::MAX as u64 {
        Some(total as usize)
    } else {
        None
    }
}

/// Decoded image memory, exclusively owned.
///
/// Its logical element count is fixed at construction from the decode
/// metadata and the requested channel count, and never recomputed. The
/// allocation is released exactly once, when the one owning `Data` value is
/// dropped or consumed by [`Data::into_vec`]; a second release is
/// structurally impossible, and a borrowed view cannot outlive the value.
pub struct Data<T> {
    data: Vec<T>,
    size: usize,
}

impl<T> View for Data<T> {
    type V = Seq<T>;

    closed spec fn view(&self) -> Seq<T> {
        self.data@
    }
}

impl<T> Data<T> {
    #[verifier::type_invariant]
    spec fn size_matches(self) -> bool {
        self.size == self.data@.len()
    }

    /// Wraps samples an engine produced for the decode described by `info`
    /// under the request `desired_channels`. The samples must already have
    /// the element count the remapper derives from the metadata — a decode
    /// entry point checks that before building a `Data`.
    pub fn new(data: Vec<T>, desired_channels: Channels, info: Info) -> (r: Data<T>)
        requires
            info_valid(info),
            data@.len() == spec_element_count(desired_channels, info),
        ensures
            r@ == data@,
    {
        let size = data.len();
        Data { data, size }
    }

    /// Borrows the image memory, read-only. Any number of views may be
    /// taken; none can outlive this `Data`.
    pub fn as_slice(&self) -> (r: &[T])
        ensures
            r@ == self@,
    {
        self.data.as_slice()
    }

    /// The element count: width times height times the effective channel
    /// count of the decode that produced this buffer.
    pub fn size(&self) -> (r: usize)
        ensures
            r == self@.len(),
    {
        proof {
            use_type_invariant(self);
        }
        self.size
    }
}

impl<T: Clone> Data<T> {
    /// Consumes this buffer into an independently owned vector, detaching
    /// the samples from the buffer's lifetime.
    pub fn into_vec(self) -> (r: Vec<T>)
        ensures
            r@ == self@,
    {
        self.data
    }
}

/// Turns a raw engine decode result into an owned buffer, or rejects it.
///
/// `None` comes back exactly when the engine reported failure, or reported
/// metadata that is not well formed, or handed back an allocation whose
/// element count does not match width times height times the effective
/// channel count — the short-circuit that keeps a bad engine result from
/// ever becoming an owned buffer. On `Some`, the metadata and the samples
/// are exactly the engine's, and the buffer is sized by the remapper's rule.
pub fn finish_decode<T>(raw: Option<(Info, Vec<T>)>, desired_channels: Channels) -> (r: Option<
    (Info, Data<T>),
>)
    ensures
        r is Some <==> (raw matches Some((info, samples)) && info_valid(info) && samples@.len()
            == spec_element_count(desired_channels, info)),
        r matches Some((info, d)) ==> (raw matches Some((info0, samples)) && info == info0 && d@
            == samples@ && d@.len() == spec_element_count(desired_channels, info)),
{
    match raw {
        None => None,
        Some((info, samples)) => {
            let len = samples.len();
            match element_count(desired_channels, &info) {
                None => {
                    // The count is unusable; the samples cannot match it,
                    // since their length fits this machine.
                    assert(samples@.len() <= usize::MAX);
                    None
                },
                Some(n) => {
                    if len == n {
                        Some((info, Data::new(samples, desired_channels, info)))
                    } else {
                        None
                    }
                },
            }
        },
    }
}

/// Validates metadata an engine reported: `Some` exactly when the engine
/// succeeded and the metadata is well formed, and then unchanged.
pub fn accept_info(raw: Option<Info>) -> (r: Option<Info>)
    ensures
        r is Some <==> (raw matches Some(info) && info_valid(info)),
        r matches Some(info) ==> raw == Some(info) && info_valid(info),
{
    match raw {
        None => None,
        Some(info) => {
            if check_info_valid(&info) {
                Some(info)
            } else {
                None
            }
        },
    }
}

/// Image dimensions and native channel count of the image in `buffer`,
/// without decoding the pixels.
pub fn stbi_info_from_memory<E: CodecEngine>(engine: &mut E, buffer: &[u8]) -> (r: Option<Info>)
    ensures
        r matches Some(info) ==> info_valid(info),
{
    accept_info(engine.info_from_memory(buffer))
}

/// Image dimensions and native channel count of the image behind `reader`,
/// without decoding the pixels. A fresh read bridge adapts the source for
/// this one call.
pub fn stbi_info_from_reader<E: CodecEngine, R: ByteSource>(engine: &mut E, reader: &mut R) -> (r:
    Option<Info>)
    requires
        old(reader).wf(),
    ensures
        final(reader).wf(),
        final(reader).stream() == old(reader).stream(),
        final(reader).reliable() == old(reader).reliable(),
        r matches Some(info) ==> info_valid(info),
{
    let mut bridge = ReadBridge::new();
    accept_info(engine.info_from_source(&mut bridge, reader))
}

/// Whether the image in `buffer` carries 16 bits per channel.
pub fn stbi_is_16_bit_from_memory<E: CodecEngine>(engine: &mut E, buffer: &[u8]) -> bool {
    engine.is_16_bit_from_memory(buffer)
}

/// Whether the image behind `reader` carries 16 bits per channel.
pub fn stbi_is_16_bit_from_reader<E: CodecEngine, R: ByteSource>(
    engine: &mut E,
    reader: &mut R,
) -> (r: bool)
    requires
        old(reader).wf(),
    ensures
        final(reader).wf(),
        final(reader).stream() == old(reader).stream(),
        final(reader).reliable() == old(reader).reliable(),
{
    let mut bridge = ReadBridge::new();
    engine.is_16_bit_from_source(&mut bridge, reader)
}

/// 8-bits-per-channel interface, load image from a complete in-memory
/// buffer. On success the buffer holds exactly width times height times the
/// effective channel count elements.
pub fn stbi_load_from_memory<E: CodecEngine>(
    engine: &mut E,
    buffer: &[u8],
    desired_channels: Channels,
    options: &DecodeOptions,
) -> (r: Option<(Info, Data<u8>)>)
    ensures
        r matches Some((info, d)) ==> info_valid(info) && d@.len() == spec_element_count(
            desired_channels,
            info,
        ),
{
    let raw = engine.decode8_from_memory(buffer, desired_channels.code(), options);
    finish_decode(raw, desired_channels)
}

/// 8-bits-per-channel interface, load image from a seekable reader through
/// a fresh read bridge.
pub fn stbi_load_from_reader<E: CodecEngine, R: ByteSource>(
    engine: &mut E,
    reader: &mut R,
    desired_channels: Channels,
    options: &DecodeOptions,
) -> (r: Option<(Info, Data<u8>)>)
    requires
        old(reader).wf(),
    ensures
        final(reader).wf(),
        final(reader).stream() == old(reader).stream(),
        final(reader).reliable() == old(reader).reliable(),
        r matches Some((info, d)) ==> info_valid(info) && d@.len() == spec_element_count(
            desired_channels,
            info,
        ),
{
    let mut bridge = ReadBridge::new();
    let raw = engine.decode8_from_source(&mut bridge, reader, desired_channels.code(), options);
    finish_decode(raw, desired_channels)
}

/// 16-bits-per-channel interface, load image from a complete in-memory
/// buffer.
pub fn stbi_load_16_from_memory<E: CodecEngine>(
    engine: &mut E,
    buffer: &[u8],
    desired_channels: Channels,
    options: &DecodeOptions,
) -> (r: Option<(Info, Data<u16>)>)
    ensures
        r matches Some((info, d)) ==> info_valid(info) && d@.len() == spec_element_count(
            desired_channels,
            info,
        ),
{
    let raw = engine.decode16_from_memory(buffer, desired_channels.code(), options);
    finish_decode(raw, desired_channels)
}

/// 16-bits-per-channel interface, load image from a seekable reader through
/// a fresh read bridge.
pub fn stbi_load_16_from_reader<E: CodecEngine, R: ByteSource>(
    engine: &mut E,
    reader: &mut R,
    desired_channels: Channels,
    options: &DecodeOptions,
) -> (r: Option<(Info, Data<u16>)>)
    requires
        old(reader).wf(),
    ensures
        final(reader).wf(),
        final(reader).stream() == old(reader).stream(),
        final(reader).reliable() == old(reader).reliable(),
        r matches Some((info, d)) ==> info_valid(info) && d@.len() == spec_element_count(
            desired_channels,
            info,
        ),
{
    let mut bridge = ReadBridge::new();
    let raw = engine.decode16_from_source(&mut bridge, reader, desired_channels.code(), options);
    finish_decode(raw, desired_channels)
}

} // verus!
