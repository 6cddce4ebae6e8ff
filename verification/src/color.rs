//! Colours as the texture and the frame target store them, and the way a
//! draw pass writes one colour over another.
//!
//! Every channel is an 8-bit fraction of full intensity: `0` is none of it
//! and `255` is all of it. A host that needs unit-range numbers divides by
//! `255`.

use vstd::prelude::*;

verus! {

/// Full intensity of a channel.
pub const CHANNEL_MAX: u8 = 255;

/// One texel of a texture, or one pixel of a frame target.
#[derive(Copy, Clone, Debug, PartialEq, Eq, Structural)]
pub struct Rgba {
    pub r: u8,
    pub g: u8,
    pub b: u8,
    pub a: u8,
}

/// How the output of a draw pass combines with what the target already holds.
#[derive(Copy, Clone, Debug, PartialEq, Eq, Structural)]
pub enum BlendMode {
    /// The source overwrites the destination, whatever its alpha.
    Replace,
    /// Source-over compositing, weighted by the alpha of the source.
    Alpha,
}

/// One channel of source-over compositing: `src * alpha + dst * (1 - alpha)`
/// on fractions of full intensity, rounded to the nearest step.
pub open spec fn blend_channel(src: int, dst: int, alpha: int) -> int {
    (src * alpha + dst * (CHANNEL_MAX - alpha) + CHANNEL_MAX / 2) / (CHANNEL_MAX as int)
}

/// The colour left in the target when `src` is composited over `dst`. Each
/// of the four channels, alpha included, is weighted by the alpha of `src`.
pub open spec fn source_over(src: Rgba, dst: Rgba) -> Rgba {
    Rgba {
        r: blend_channel(src.r as int, dst.r as int, src.a as int) as u8,
        g: blend_channel(src.g as int, dst.g as int, src.a as int) as u8,
        b: blend_channel(src.b as int, dst.b as int, src.a as int) as u8,
        a: blend_channel(src.a as int, dst.a as int, src.a as int) as u8,
    }
}

/// The colour left in the target when `src` is written over `dst` under `mode`.
pub open spec fn blended(mode: BlendMode, src: Rgba, dst: Rgba) -> Rgba {
    match mode {
        BlendMode::Replace => src,
        BlendMode::Alpha => source_over(src, dst),
    }
}

/// A blended channel lies between the two channels it mixes, so it is a
/// channel value again.
pub proof fn lemma_blend_channel_bounds(src: int, dst: int, alpha: int)
    requires
        0 <= src <= 255,
        0 <= dst <= 255,
        0 <= alpha <= 255,
    ensures
        0 <= blend_channel(src, dst, alpha) <= 255,
        src <= dst ==> src <= blend_channel(src, dst, alpha) <= dst,
        dst <= src ==> dst <= blend_channel(src, dst, alpha) <= src,
{
    let lo = if src <= dst { src } else { dst };
    let hi = if src <= dst { dst } else { src };
    let sum = src * alpha + dst * (255 - alpha);
    assert(lo * 255 <= sum <= hi * 255) by (nonlinear_arith)
        requires
            lo <= src <= hi,
            lo <= dst <= hi,
            0 <= alpha <= 255,
            sum == src * alpha + dst * (255 - alpha),
    ;
}

/// A fully transparent source leaves the destination as it was.
pub proof fn lemma_transparent_source_keeps_destination(src: Rgba, dst: Rgba)
    requires
        src.a == 0,
    ensures
        source_over(src, dst) == dst,
        blended(BlendMode::Alpha, src, dst) == dst,
{
    assert forall|s: int, d: int| 0 <= d <= 255 implies #[trigger] blend_channel(s, d, 0) == d by {
        assert(s * 0 == 0);
    }
}

/// A fully opaque source replaces the destination entirely.
pub proof fn lemma_opaque_source_replaces_destination(src: Rgba, dst: Rgba)
    requires
        src.a == 255,
    ensures
        source_over(src, dst) == src,
        blended(BlendMode::Alpha, src, dst) == src,
{
    assert forall|s: int, d: int| 0 <= s <= 255 implies #[trigger] blend_channel(s, d, 255)
        == s by {
        assert(d * 0 == 0);
    }
}

/// One channel of a source composited over a destination under `alpha`.
fn blend_one(src: u8, dst: u8, alpha: u8) -> (out: u8)
    ensures
        out == blend_channel(src as int, dst as int, alpha as int),
{
    proof {
        lemma_blend_channel_bounds(src as int, dst as int, alpha as int);
        assert(0 <= src * alpha <= 255 * 255) by (nonlinear_arith)
            requires
                0 <= src <= 255,
                0 <= alpha <= 255,
        ;
        assert(0 <= dst * (255 - alpha) <= 255 * 255) by (nonlinear_arith)
            requires
                0 <= dst <= 255,
                0 <= alpha <= 255,
        ;
    }
    let weighted_src: u32 = src as u32 * alpha as u32;
    let weighted_dst: u32 = dst as u32 * (255 - alpha) as u32;
    ((weighted_src + weighted_dst + 127) / 255) as u8
}

impl Rgba {
    /// A colour from its four channels.
    pub fn new(r: u8, g: u8, b: u8, a: u8) -> (c: Rgba)
        ensures
            c == (Rgba { r, g, b, a }),
    {
        Rgba { r, g, b, a }
    }

    /// Composites `self` over `dst` with source-over alpha blending.
    pub fn over(self, dst: Rgba) -> (out: Rgba)
        ensures
            out == source_over(self, dst),
            self.a == 0 ==> out == dst,
            self.a == 255 ==> out == self,
    {
        proof {
            if self.a == 0 {
                lemma_transparent_source_keeps_destination(self, dst);
            }
            if self.a == 255 {
                lemma_opaque_source_replaces_destination(self, dst);
            }
        }
        Rgba {
            r: blend_one(self.r, dst.r, self.a),
            g: blend_one(self.g, dst.g, self.a),
            b: blend_one(self.b, dst.b, self.a),
            a: blend_one(self.a, dst.a, self.a),
        }
    }
}

impl BlendMode {
    /// Writes `src` over `dst` under this blend mode and returns what the
    /// target then holds.
    pub fn apply(self, src: Rgba, dst: Rgba) -> (out: Rgba)
        ensures
            out == blended(self, src, dst),
    {
        match self {
            BlendMode::Replace => src,
            BlendMode::Alpha => src.over(dst),
        }
    }
}

} // verus!
