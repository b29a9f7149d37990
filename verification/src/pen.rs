//! Pixel encoders: stateless strategies that pack an 8-bit-per-channel RGB
//! triple into a display-native pixel value, and the registry that resolves a
//! requested format to a constructed encoder.

use vstd::prelude::*;

verus! {

/// The closed set of pixel encodings a context can be asked for. Only RGB565
/// has an encoder today; requesting any other format fails with
/// [`crate::Error::NotImplemented`] rather than silently degrading.
#[derive(Clone, Copy, Debug, PartialEq, Eq, Structural)]
pub enum PicoGraphicsPenType {
    Pen1bit,
    Pen3bit,
    PenP2,
    PenP4,
    PenP8,
    PenRgb332,
    PenRgb565,
    PenRgb888,
    PenInky7,
}

/// The RGB565 packing: bits 15-11 are the top 5 bits of red, bits 10-5 the
/// top 6 bits of green, bits 4-0 the top 5 bits of blue. Truncation only, no
/// rounding or dithering; total over all byte triples.
pub open spec fn rgb565_encode(r: u8, g: u8, b: u8) -> u16 {
    (((r & 0xf8) as u16) << 8) | (((g & 0xfc) as u16) << 3) | (((b & 0xf8) as u16) >> 3)
}

/// Whether the registry can construct an encoder for `pen_type`.
pub open spec fn pen_implemented(pen_type: PicoGraphicsPenType) -> bool {
    pen_type is PenRgb565
}

/// A pixel encoder: a pure function object with no hidden state. Each
/// implementor fixes its encoding once, as `spec_encode`, and `create_pen`
/// must return exactly that value.
pub trait PicoGraphicsPen: Sized {
    /// The encoding this pen implements, as a mathematical function of the
    /// channel bytes alone.
    spec fn spec_encode(&self, r: u8, g: u8, b: u8) -> u16;

    /// Packs the channel triple into the display-native pixel value.
    fn create_pen(&self, r: u8, g: u8, b: u8) -> (pen: u16)
        ensures
            pen == self.spec_encode(r, g, b),
    ;
}

/// The RGB565 encoder.
pub struct PicoGraphicsPenRgb565 {}

impl PicoGraphicsPen for PicoGraphicsPenRgb565 {
    open spec fn spec_encode(&self, r: u8, g: u8, b: u8) -> u16 {
        rgb565_encode(r, g, b)
    }

    fn create_pen(&self, r: u8, g: u8, b: u8) -> (pen: u16) {
        (((r & 0xf8) as u16) << 8) | (((g & 0xfc) as u16) << 3) | (((b & 0xf8) as u16) >> 3)
    }
}

/// The encoder registry: resolves a requested format to a constructed
/// encoder. Succeeds exactly for RGB565; every other format deterministically
/// fails with [`crate::Error::NotImplemented`].
pub fn from(pen_type: PicoGraphicsPenType) -> (result: Result<
    PicoGraphicsPenRgb565,
    crate::Error,
>)
    ensures
        result is Ok <==> pen_implemented(pen_type),
        result is Err ==> result == Err::<PicoGraphicsPenRgb565, crate::Error>(
            crate::Error::NotImplemented,
        ),
{
    match pen_type {
        PicoGraphicsPenType::PenRgb565 => Ok(PicoGraphicsPenRgb565 {}),
        _ => Err(crate::Error::NotImplemented),
    }
}

/// Every RGB565 encoding fits in 16 bits, whatever the channel bytes: the
/// packed value never exceeds the display-native pixel width.
pub proof fn lemma_rgb565_fits_16_bits(r: u8, g: u8, b: u8)
    ensures
        rgb565_encode(r, g, b) <= 0xffff,
{
}

/// Encoding is deterministic: two pens created from the same channel triple
/// are equal. The encoder is a pure function object with no hidden state, so
/// nothing but the channels can influence the result.
pub proof fn lemma_create_pen_deterministic(first: u16, second: u16, r: u8, g: u8, b: u8)
    requires
        first == rgb565_encode(r, g, b),
        second == rgb565_encode(r, g, b),
    ensures
        first == second,
{
}

} // verus!
