use crate::num::Scalar;
use vstd::prelude::*;

verus! {

/// One four-channel pixel: red, green, blue, alpha.
#[derive(Clone, Copy, PartialEq, Eq, Structural, Debug)]
pub struct Rgba {
    pub r: u8,
    pub g: u8,
    pub b: u8,
    pub a: u8,
}

/// A three-channel tint for the monochrome mode.
#[derive(Clone, Copy, PartialEq, Eq, Structural, Debug)]
pub struct Tint {
    pub r: u8,
    pub g: u8,
    pub b: u8,
}

/// A coloring mode with its own parameters. The scalar parameters are
/// carried bit for bit, so the derived equality is the structural
/// comparison that change detection relies on.
#[derive(Clone, Copy, PartialEq, Eq, Structural, Debug)]
pub enum ColoringMode {
    Hsl { hue_shift_degrees: Scalar, normalization: Scalar, hue_range_degrees: Scalar },
    Monochrome { tint: Tint, normalization: Scalar },
    Funky { hue_shift_degrees: Scalar },
}

impl ColoringMode {
    /// The display name of the mode's tag.
    pub fn output(&self) -> (r: String)
        ensures
            r@ == (match *self {
                ColoringMode::Hsl { .. } => "HSL"@,
                ColoringMode::Monochrome { .. } => "Monochrome"@,
                ColoringMode::Funky { .. } => "Funky"@,
            }),
    {
        match self {
            ColoringMode::Hsl { .. } => "HSL".to_owned(),
            ColoringMode::Monochrome { .. } => "Monochrome".to_owned(),
            ColoringMode::Funky { .. } => "Funky".to_owned(),
        }
    }
}

/// One full turn of hue, in the fixed-point fraction the pipeline uses.
pub const HUE_ONE: u32 = 65536;

/// The linear ramp of one hue sextant: a fraction of the sextant, given in
/// units of one sixty-five-thousand-five-hundred-thirty-sixth, mapped onto
/// the byte range.
pub open spec fn ramp(f: int) -> int {
    f * 255 / 65536
}

/// Opaque black, the interior convention.
pub open spec fn black_spec() -> Rgba {
    Rgba { r: 0, g: 0, b: 0, a: 255 }
}

/// Opaque black, the color of every pixel whose point did not escape.
pub fn black() -> (c: Rgba)
    ensures
        c == black_spec(),
{
    Rgba { r: 0, g: 0, b: 0, a: 255 }
}

/// The color of a hue at full saturation and half lightness: the hue
/// circle is six linear ramps, and the fraction of a turn picks the
/// sextant and the position on its ramp.
pub open spec fn hue_rgba_spec(h: int) -> Rgba {
    let t = h * 6;
    let sext = t / 65536;
    let f = t % 65536;
    let up = ramp(f) as u8;
    let down = (255 - ramp(f)) as u8;
    if sext == 0 {
        Rgba { r: 255, g: up, b: 0, a: 255 }
    } else if sext == 1 {
        Rgba { r: down, g: 255, b: 0, a: 255 }
    } else if sext == 2 {
        Rgba { r: 0, g: 255, b: up, a: 255 }
    } else if sext == 3 {
        Rgba { r: 0, g: down, b: 255, a: 255 }
    } else if sext == 4 {
        Rgba { r: up, g: 0, b: 255, a: 255 }
    } else {
        Rgba { r: 255, g: 0, b: down, a: 255 }
    }
}

/// The conversion from a hue, as a fraction of a turn, to an opaque pixel
/// at full saturation and half lightness.
pub fn hue_to_rgba(h: u32) -> (c: Rgba)
    requires
        h < HUE_ONE,
    ensures
        c == hue_rgba_spec(h as int),
{
    let t: u32 = h * 6;
    let sext: u32 = t / 65536;
    let f: u32 = t % 65536;
    let up_wide: u32 = f * 255 / 65536;
    proof {
        assert(up_wide <= 254);
    }
    let up: u8 = up_wide as u8;
    let down: u8 = (255 - up_wide) as u8;
    if sext == 0 {
        Rgba { r: 255, g: up, b: 0, a: 255 }
    } else if sext == 1 {
        Rgba { r: down, g: 255, b: 0, a: 255 }
    } else if sext == 2 {
        Rgba { r: 0, g: 255, b: up, a: 255 }
    } else if sext == 3 {
        Rgba { r: 0, g: down, b: 255, a: 255 }
    } else if sext == 4 {
        Rgba { r: up, g: 0, b: 255, a: 255 }
    } else {
        Rgba { r: 255, g: 0, b: down, a: 255 }
    }
}

/// One monochrome channel: the tint channel scaled by the brightness
/// factor, given in units of one sixty-five-thousand-five-hundred-
/// thirty-sixth, and saturated at the byte range.
pub open spec fn scale_channel_spec(channel: int, factor: int) -> int {
    let v = channel * factor / 65536;
    if v > 255 {
        255
    } else {
        v
    }
}

/// The saturating fixed-point scaling of one tint channel.
pub fn scale_channel(channel: u8, factor: u32) -> (v: u8)
    ensures
        v == scale_channel_spec(channel as int, factor as int),
{
    proof {
        assert((channel as int) * (factor as int) <= 255 * 0xffff_ffff) by (nonlinear_arith)
            requires
                channel as int <= 255,
                factor as int <= 0xffff_ffff,
        ;
        assert((channel as int) * (factor as int) >= 0) by (nonlinear_arith)
            requires
                channel as int >= 0,
                factor as int >= 0,
        ;
    }
    let wide: u64 = (channel as u64) * (factor as u64) / 65536;
    if wide > 255 {
        255
    } else {
        wide as u8
    }
}

/// What the caller's smoothing arithmetic hands the pipeline for one
/// pixel: a hue fraction for the hue-driven modes, or a tint with a
/// brightness factor for the monochrome mode. The funky mode also marks
/// the degenerate iterate that never truly passed the escape threshold.
#[derive(Clone, Copy, PartialEq, Eq, Structural, Debug)]
pub enum Shade {
    Hue { fraction: u32 },
    Mono { tint: Tint, factor: u32 },
    Funky { fraction: u32, degenerate: bool },
}

/// A hue fraction stays below one full turn.
pub open spec fn shade_wf(s: Shade) -> bool {
    match s {
        Shade::Hue { fraction } => fraction < HUE_ONE,
        Shade::Mono { .. } => true,
        Shade::Funky { fraction, .. } => fraction < HUE_ONE,
    }
}

/// The color of one pixel: opaque black for a point that exhausted its
/// budget, whatever the mode; otherwise the mode's own arithmetic — the
/// hue ramp, the scaled tint, or the funky ramp with its degenerate case
/// painted black as well.
pub open spec fn pixel_color_spec(iterations: int, max_iterations: int, shade: Shade) -> Rgba {
    if iterations >= max_iterations {
        black_spec()
    } else {
        match shade {
            Shade::Hue { fraction } => hue_rgba_spec(fraction as int),
            Shade::Mono { tint, factor } => Rgba {
                r: scale_channel_spec(tint.r as int, factor as int) as u8,
                g: scale_channel_spec(tint.g as int, factor as int) as u8,
                b: scale_channel_spec(tint.b as int, factor as int) as u8,
                a: 255,
            },
            Shade::Funky { fraction, degenerate } => if degenerate {
                black_spec()
            } else {
                hue_rgba_spec(fraction as int)
            },
        }
    }
}

/// The pipeline's one entry point for a pixel.
pub fn pixel_color(iterations: i32, max_iterations: i32, shade: Shade) -> (c: Rgba)
    requires
        shade_wf(shade),
    ensures
        c == pixel_color_spec(iterations as int, max_iterations as int, shade),
{
    if iterations >= max_iterations {
        return black();
    }
    match shade {
        Shade::Hue { fraction } => hue_to_rgba(fraction),
        Shade::Mono { tint, factor } => Rgba {
            r: scale_channel(tint.r, factor),
            g: scale_channel(tint.g, factor),
            b: scale_channel(tint.b, factor),
            a: 255,
        },
        Shade::Funky { fraction, degenerate } => {
            if degenerate {
                black()
            } else {
                hue_to_rgba(fraction)
            }
        },
    }
}

/// A point that exhausted its iteration budget is painted opaque black
/// under every coloring mode and every shade: the interior convention.
pub proof fn lemma_interior_is_black(iterations: int, max_iterations: int, shade: Shade)
    requires
        iterations >= max_iterations,
    ensures
        pixel_color_spec(iterations, max_iterations, shade) == black_spec(),
{
}

} // verus!
