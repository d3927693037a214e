//! The canonical RGB value and the colour models derived from it.
//!
//! CMYK, HSV and HSL are rational functions of the three 8-bit channels, so
//! each component is kept as an exact fraction of two integers. A caller that
//! wants a decimal number divides `num` by `den`.

use vstd::prelude::*;

verus! {

/// Three 8-bit channels; the value every other model is derived from.
#[derive(Clone, Copy, Debug, PartialEq, Eq, Structural)]
pub struct Rgb {
    pub r: u8,
    pub g: u8,
    pub b: u8,
}

/// The exact fraction `num / den`.
#[derive(Clone, Copy, Debug, PartialEq, Eq, Structural)]
pub struct Ratio {
    pub num: u32,
    pub den: u32,
}

/// Cyan, magenta, yellow and key, each a fraction in `[0, 1]`.
#[derive(Clone, Copy, Debug, PartialEq, Eq, Structural)]
pub struct Cmyk {
    pub c: Ratio,
    pub m: Ratio,
    pub y: Ratio,
    pub k: Ratio,
}

/// Hue in degrees `[0, 360)`, saturation and value in `[0, 1]`.
#[derive(Clone, Copy, Debug, PartialEq, Eq, Structural)]
pub struct Hsv {
    pub h: Ratio,
    pub s: Ratio,
    pub v: Ratio,
}

/// Hue in degrees `[0, 360)`, saturation and lightness in `[0, 1]`.
#[derive(Clone, Copy, Debug, PartialEq, Eq, Structural)]
pub struct Hsl {
    pub h: Ratio,
    pub s: Ratio,
    pub l: Ratio,
}

/// One colour in every model that has an exact representation.
#[derive(Clone, Copy, Debug, PartialEq, Eq, Structural)]
pub struct Colors {
    pub rgb: Rgb,
    pub cmyk: Cmyk,
    pub hsv: Hsv,
    pub hsl: Hsl,
}

impl Ratio {
    /// The denominator is not zero.
    pub open spec fn wf(self) -> bool {
        self.den > 0
    }

    /// The fraction lies in `[0, 1]`.
    pub open spec fn is_share(self) -> bool {
        self.wf() && self.num <= self.den
    }

    /// The fraction, read as degrees, lies in `[0, 360)`.
    pub open spec fn is_angle(self) -> bool {
        self.wf() && self.num < 360 * self.den
    }

    /// The fraction is zero.
    pub open spec fn is_zero(self) -> bool {
        self.wf() && self.num == 0
    }

    /// The fraction is one.
    pub open spec fn is_one(self) -> bool {
        self.wf() && self.num == self.den
    }

    /// Both fractions denote the same rational number.
    pub open spec fn same_value(self, other: Ratio) -> bool {
        self.num * other.den == other.num * self.den
    }

    /// The fraction zero, written `0 / 1`.
    pub open spec fn zero() -> Ratio {
        Ratio { num: 0, den: 1 }
    }
}

impl Cmyk {
    /// Every component is a fraction in `[0, 1]`.
    pub open spec fn wf(self) -> bool {
        self.c.is_share() && self.m.is_share() && self.y.is_share() && self.k.is_share()
    }
}

impl Hsv {
    /// The hue is an angle in `[0, 360)`, saturation and value are
    /// fractions in `[0, 1]`.
    pub open spec fn wf(self) -> bool {
        self.h.is_angle() && self.s.is_share() && self.v.is_share()
    }
}

impl Hsl {
    /// The hue is an angle in `[0, 360)`, saturation and lightness are
    /// fractions in `[0, 1]`.
    pub open spec fn wf(self) -> bool {
        self.h.is_angle() && self.s.is_share() && self.l.is_share()
    }
}

impl Colors {
    /// Every model is well formed and is the model of `rgb`.
    pub open spec fn wf(self) -> bool {
        self.cmyk.wf() && self.hsv.wf() && self.hsl.wf() && self == colors_of(self.rgb)
    }
}

impl Rgb {
    /// The largest of the three channels.
    pub open spec fn max_channel(self) -> int {
        if self.r >= self.g && self.r >= self.b {
            self.r as int
        } else if self.g >= self.b {
            self.g as int
        } else {
            self.b as int
        }
    }

    /// The smallest of the three channels.
    pub open spec fn min_channel(self) -> int {
        if self.r <= self.g && self.r <= self.b {
            self.r as int
        } else if self.g <= self.b {
            self.g as int
        } else {
            self.b as int
        }
    }

    /// The distance between the largest and the smallest channel.
    pub open spec fn spread(self) -> int {
        self.max_channel() - self.min_channel()
    }

    /// All three channels are equal.
    pub open spec fn is_gray(self) -> bool {
        self.r == self.g && self.g == self.b
    }
}

/// The share of one ink: `(max - channel) / max`, and zero for black, where
/// no channel has any light to take away.
pub open spec fn ink_share(channel: u8, max: int) -> Ratio {
    if max == 0 {
        Ratio::zero()
    } else {
        Ratio { num: (max - channel) as u32, den: max as u32 }
    }
}

/// CMYK of `rgb`: `k = 1 - max / 255`, and each ink `(max - channel) / max`.
pub open spec fn cmyk_of(rgb: Rgb) -> Cmyk {
    let max = rgb.max_channel();
    Cmyk {
        c: ink_share(rgb.r, max),
        m: ink_share(rgb.g, max),
        y: ink_share(rgb.b, max),
        k: Ratio { num: (255 - max) as u32, den: 255 },
    }
}

/// The hue of `rgb` in degrees: sixty degrees for each step between the two
/// lesser channels relative to the spread, measured from the sector of the
/// largest channel (red at 0, green at 120, blue at 240) and wrapped into
/// `[0, 360)`. A gray has hue zero.
pub open spec fn hue_of(rgb: Rgb) -> Ratio {
    let max = rgb.max_channel();
    let d = rgb.spread();
    if d == 0 {
        Ratio::zero()
    } else if max == rgb.r {
        if rgb.g >= rgb.b {
            Ratio { num: (60 * (rgb.g - rgb.b)) as u32, den: d as u32 }
        } else {
            Ratio { num: (360 * d - 60 * (rgb.b - rgb.g)) as u32, den: d as u32 }
        }
    } else if max == rgb.g {
        Ratio { num: (120 * d + 60 * (rgb.b - rgb.r)) as u32, den: d as u32 }
    } else {
        Ratio { num: (240 * d + 60 * (rgb.r - rgb.g)) as u32, den: d as u32 }
    }
}

/// HSV of `rgb`: value `max / 255`, saturation `spread / max` (zero for
/// black).
pub open spec fn hsv_of(rgb: Rgb) -> Hsv {
    let max = rgb.max_channel();
    Hsv {
        h: hue_of(rgb),
        s: if max == 0 {
            Ratio::zero()
        } else {
            Ratio { num: rgb.spread() as u32, den: max as u32 }
        },
        v: Ratio { num: max as u32, den: 255 },
    }
}

/// HSL of `rgb`: lightness `(max + min) / 510`, saturation
/// `spread / (255 - |max + min - 255|)` (zero for a gray).
pub open spec fn hsl_of(rgb: Rgb) -> Hsl {
    let sum = rgb.max_channel() + rgb.min_channel();
    let d = rgb.spread();
    Hsl {
        h: hue_of(rgb),
        s: if d == 0 {
            Ratio::zero()
        } else if sum <= 255 {
            Ratio { num: d as u32, den: sum as u32 }
        } else {
            Ratio { num: d as u32, den: (510 - sum) as u32 }
        },
        l: Ratio { num: sum as u32, den: 510 },
    }
}

/// `rgb` in every exact model.
pub open spec fn colors_of(rgb: Rgb) -> Colors {
    Colors { rgb, cmyk: cmyk_of(rgb), hsv: hsv_of(rgb), hsl: hsl_of(rgb) }
}

impl Rgb {
    /// The largest channel.
    pub fn max(&self) -> (out: u8)
        ensures
            out == self.max_channel(),
    {
        if self.r >= self.g && self.r >= self.b {
            self.r
        } else if self.g >= self.b {
            self.g
        } else {
            self.b
        }
    }

    /// The smallest channel.
    pub fn min(&self) -> (out: u8)
        ensures
            out == self.min_channel(),
    {
        if self.r <= self.g && self.r <= self.b {
            self.r
        } else if self.g <= self.b {
            self.g
        } else {
            self.b
        }
    }

    /// The hue in degrees.
    pub fn hue(&self) -> (out: Ratio)
        ensures
            out == hue_of(*self),
            out.is_angle(),
    {
        let max: u8 = self.max();
        let min: u8 = self.min();
        let d: u32 = (max - min) as u32;
        let r: u32 = self.r as u32;
        let g: u32 = self.g as u32;
        let b: u32 = self.b as u32;
        if d == 0 {
            Ratio { num: 0, den: 1 }
        } else if max == self.r {
            if g >= b {
                Ratio { num: 60 * (g - b), den: d }
            } else {
                Ratio { num: 360 * d - 60 * (b - g), den: d }
            }
        } else if max == self.g {
            if b >= r {
                Ratio { num: 120 * d + 60 * (b - r), den: d }
            } else {
                Ratio { num: 120 * d - 60 * (r - b), den: d }
            }
        } else {
            if r >= g {
                Ratio { num: 240 * d + 60 * (r - g), den: d }
            } else {
                Ratio { num: 240 * d - 60 * (g - r), den: d }
            }
        }
    }

    /// The colour as cyan, magenta, yellow and key.
    pub fn cmyk(&self) -> (out: Cmyk)
        ensures
            out == cmyk_of(*self),
            out.wf(),
    {
        let max: u8 = self.max();
        let k: Ratio = Ratio { num: (255 - max) as u32, den: 255 };
        if max == 0 {
            let zero: Ratio = Ratio { num: 0, den: 1 };
            Cmyk { c: zero, m: zero, y: zero, k }
        } else {
            Cmyk {
                c: Ratio { num: (max - self.r) as u32, den: max as u32 },
                m: Ratio { num: (max - self.g) as u32, den: max as u32 },
                y: Ratio { num: (max - self.b) as u32, den: max as u32 },
                k,
            }
        }
    }

    /// The colour as hue, saturation and value.
    pub fn hsv(&self) -> (out: Hsv)
        ensures
            out == hsv_of(*self),
            out.wf(),
    {
        let max: u8 = self.max();
        let min: u8 = self.min();
        let s: Ratio = if max == 0 {
            Ratio { num: 0, den: 1 }
        } else {
            Ratio { num: (max - min) as u32, den: max as u32 }
        };
        Hsv { h: self.hue(), s, v: Ratio { num: max as u32, den: 255 } }
    }

    /// The colour as hue, saturation and lightness.
    pub fn hsl(&self) -> (out: Hsl)
        ensures
            out == hsl_of(*self),
            out.wf(),
    {
        let max: u8 = self.max();
        let min: u8 = self.min();
        let d: u32 = (max - min) as u32;
        let sum: u32 = max as u32 + min as u32;
        let s: Ratio = if d == 0 {
            Ratio { num: 0, den: 1 }
        } else if sum <= 255 {
            Ratio { num: d, den: sum }
        } else {
            Ratio { num: d, den: 510 - sum }
        };
        Hsl { h: self.hue(), s, l: Ratio { num: sum, den: 510 } }
    }
}

impl Colors {
    /// Derives every exact model from `rgb`. Cannot fail: each RGB triple
    /// has a value in each model.
    pub fn new(rgb: &Rgb) -> (out: Colors)
        ensures
            out == colors_of(*rgb),
            out.wf(),
    {
        Colors { rgb: *rgb, cmyk: rgb.cmyk(), hsv: rgb.hsv(), hsl: rgb.hsl() }
    }
}

/// Every model of every colour is well formed: each CMYK component, each
/// saturation, value and lightness is a fraction in `[0, 1]`, and each hue
/// an angle in `[0, 360)` degrees.
pub proof fn lemma_models_are_well_formed(rgb: Rgb)
    ensures
        cmyk_of(rgb).wf(),
        hsv_of(rgb).wf(),
        hsl_of(rgb).wf(),
        colors_of(rgb).wf(),
        hue_of(rgb).is_angle(),
{
}

/// The fractions of `cmyk_of` solve the defining equations of CMYK:
/// `k = 1 - max / 255`, and, unless `k = 1`, `c * (1 - k) = 1 - r / 255 - k`
/// (likewise for magenta with green and yellow with blue). With `k = 1` the
/// three inks are zero. The equations are stated cleared of denominators.
pub proof fn lemma_cmyk_equations(rgb: Rgb)
    ensures
        ({
            let out = cmyk_of(rgb);
            let k = out.k;
            &&& k.num * 255 == (255 - rgb.max_channel()) * k.den
            &&& k.is_one() ==> out.c.is_zero() && out.m.is_zero() && out.y.is_zero()
            &&& !k.is_one() ==> 255 * out.c.num * (k.den - k.num) == out.c.den * ((255 - rgb.r)
                * k.den - 255 * k.num)
            &&& !k.is_one() ==> 255 * out.m.num * (k.den - k.num) == out.m.den * ((255 - rgb.g)
                * k.den - 255 * k.num)
            &&& !k.is_one() ==> 255 * out.y.num * (k.den - k.num) == out.y.den * ((255 - rgb.b)
                * k.den - 255 * k.num)
        }),
{
    let max = rgb.max_channel();
    if max != 0 {
        assert(255 * (max - rgb.r) * (255 - (255 - max)) == max * ((255 - rgb.r) * 255 - 255 * (255
            - max))) by (nonlinear_arith)
            requires
                0 <= rgb.r <= max <= 255,
        ;
        assert(255 * (max - rgb.g) * (255 - (255 - max)) == max * ((255 - rgb.g) * 255 - 255 * (255
            - max))) by (nonlinear_arith)
            requires
                0 <= rgb.g <= max <= 255,
        ;
        assert(255 * (max - rgb.b) * (255 - (255 - max)) == max * ((255 - rgb.b) * 255 - 255 * (255
            - max))) by (nonlinear_arith)
            requires
                0 <= rgb.b <= max <= 255,
        ;
    }
}

/// The fractions of `hsv_of` and `hsl_of` solve the defining equations of
/// the two models: `v = max / 255` and `s * max = max - min` for HSV;
/// `l = (max + min) / 510` and `s * (255 - |max + min - 255|) = max - min`
/// for HSL. The equations are stated cleared of denominators.
pub proof fn lemma_hsv_hsl_equations(rgb: Rgb)
    ensures
        ({
            let max = rgb.max_channel();
            let sum = rgb.max_channel() + rgb.min_channel();
            let width = if sum <= 255 {
                sum
            } else {
                510 - sum
            };
            &&& hsv_of(rgb).v.num * 255 == max * hsv_of(rgb).v.den
            &&& hsv_of(rgb).s.num * max == rgb.spread() * hsv_of(rgb).s.den
            &&& hsl_of(rgb).l.num * 510 == sum * hsl_of(rgb).l.den
            &&& hsl_of(rgb).s.num * width == rgb.spread() * hsl_of(rgb).s.den
        }),
{
    let d = rgb.spread();
    let max = rgb.max_channel();
    let sum = rgb.max_channel() + rgb.min_channel();
    if max != 0 {
        assert(hsv_of(rgb).s.num * max == d * hsv_of(rgb).s.den) by (nonlinear_arith)
            requires
                hsv_of(rgb).s.num == d,
                hsv_of(rgb).s.den == max,
        ;
    }
    if d != 0 {
        let width = if sum <= 255 {
            sum
        } else {
            510 - sum
        };
        assert(hsl_of(rgb).s.num * width == d * hsl_of(rgb).s.den) by (nonlinear_arith)
            requires
                hsl_of(rgb).s.num == d,
                hsl_of(rgb).s.den == width,
        ;
    }
}

/// A gray has no ink but black and no saturation: with `r = g = b`, cyan,
/// magenta and yellow are zero, `k = 1 - r / 255`, and the saturation of HSV
/// and of HSL is zero. Its hue is zero in both.
pub proof fn lemma_gray(rgb: Rgb)
    requires
        rgb.is_gray(),
    ensures
        cmyk_of(rgb).c.is_zero(),
        cmyk_of(rgb).m.is_zero(),
        cmyk_of(rgb).y.is_zero(),
        cmyk_of(rgb).k == (Ratio { num: (255 - rgb.r) as u32, den: 255 }),
        hsv_of(rgb).s.is_zero(),
        hsl_of(rgb).s.is_zero(),
        hsv_of(rgb).h.is_zero(),
        hsl_of(rgb).h.is_zero(),
{
}

/// Saturation is zero only for a gray, in HSV and in HSL alike.
pub proof fn lemma_saturation_zero_iff_gray(rgb: Rgb)
    ensures
        hsv_of(rgb).s.is_zero() <==> rgb.is_gray(),
        hsl_of(rgb).s.is_zero() <==> rgb.is_gray(),
{
}

} // verus!
