//! Colours of four 4-bit channels packed into 16 bits, and their blending.

use vstd::prelude::*;

verus! {

/// The largest value of a 4-bit channel.
pub const CHANNEL_MAX: u8 = 0xF;

/// The bits of the default background: black, nearly opaque.
pub const BACKGROUND_BITS: u16 = 0x000D;

/// The bits of the focus highlight: a light green, opaque.
pub const HIGHLIGHT_BITS: u16 = 0x0FDF;

/// A colour of four 4-bit channels.
///
/// `bits` holds, from the highest nibble down, red, green, blue and alpha.
#[derive(Debug, Default, Clone, Copy, PartialEq, Eq, Structural)]
pub struct Color {
    pub bits: u16,
}

/// The channel between `left` and `right` at weight `alpha`, where the whole
/// weight is 255: `(right * alpha + left * (255 - alpha)) / 255`.
pub open spec fn spec_blend_channel(left: u8, right: u8, alpha: u8) -> int {
    (right * alpha + left * (255 - alpha)) / 255
}

/// The product of two bytes, in a type that holds every such product.
fn promoting_mul(left: u8, right: u8) -> (product: u16)
    ensures
        product == left * right,
{
    assert(0 <= left * right <= 255 * 255) by (nonlinear_arith)
        requires
            0 <= left <= 255,
            0 <= right <= 255,
    ;
    left as u16 * right as u16
}

/// The sum of two alpha channels, held at the channel's largest value.
pub open spec fn spec_alpha_sum(a: u8, b: u8) -> int {
    if a + b > 0xF {
        0xF
    } else {
        a + b
    }
}

/// A blended channel lies between the two channels it was blended from.
pub proof fn lemma_blend_channel_between(left: u8, right: u8, alpha: u8)
    requires
        alpha <= 0xF,
    ensures
        left <= right ==> left <= spec_blend_channel(left, right, alpha) <= right,
        right <= left ==> right <= spec_blend_channel(left, right, alpha) <= left,
{
    let l = left as int;
    let r = right as int;
    let a = alpha as int;
    let sum = r * a + l * (255 - a);
    assert(sum == 255 * l + (r - l) * a) by (nonlinear_arith)
        requires
            sum == r * a + l * (255 - a),
    ;
    assert(l <= r ==> 0 <= (r - l) * a <= (r - l) * 255) by (nonlinear_arith)
        requires
            0 <= a <= 15,
    ;
    assert(r <= l ==> (r - l) * 255 <= (r - l) * a <= 0) by (nonlinear_arith)
        requires
            0 <= a <= 15,
    ;
}

/// With the darker channel on the left, a larger weight never gives a smaller
/// blended channel.
pub proof fn lemma_blend_channel_monotonic(left: u8, right: u8, low: u8, high: u8)
    requires
        left <= right,
        low <= high <= 0xF,
    ensures
        spec_blend_channel(left, right, low) <= spec_blend_channel(left, right, high),
{
    let l = left as int;
    let r = right as int;
    let lo = low as int;
    let hi = high as int;
    assert(r * lo + l * (255 - lo) <= r * hi + l * (255 - hi)) by (nonlinear_arith)
        requires
            0 <= l <= r,
            0 <= lo <= hi,
    ;
}

/// Every channel of a colour is at most 15.
pub proof fn lemma_channel_bounds(c: Color)
    ensures
        c.spec_r() <= 0xF,
        c.spec_g() <= 0xF,
        c.spec_b() <= 0xF,
        c.spec_a() <= 0xF,
{
}

/// Packing four channels and taking them out again gives them back.
pub proof fn lemma_pack_channels(r: u8, g: u8, b: u8, a: u8)
    requires
        r <= 0xF,
        g <= 0xF,
        b <= 0xF,
        a <= 0xF,
    ensures
        r * 0x1000 + g * 0x100 + b * 0x10 + a <= 0xFFFF,
        Color::spec_from_values(r as int, g as int, b as int, a as int).spec_r() == r,
        Color::spec_from_values(r as int, g as int, b as int, a as int).spec_g() == g,
        Color::spec_from_values(r as int, g as int, b as int, a as int).spec_b() == b,
        Color::spec_from_values(r as int, g as int, b as int, a as int).spec_a() == a,
{
    let (r16, g16, b16, a16): (u16, u16, u16, u16) = (r as u16, g as u16, b as u16, a as u16);
    let x: u16 = (r16 * 0x1000 + g16 * 0x100 + b16 * 0x10 + a16) as u16;
    assert(x / 0x1000 == r16 && (x / 0x100) % 0x10 == g16 && (x / 0x10) % 0x10 == b16 && x % 0x10
        == a16) by (bit_vector)
        requires
            r16 <= 0xF,
            g16 <= 0xF,
            b16 <= 0xF,
            a16 <= 0xF,
            x == (r16 * 0x1000 + g16 * 0x100 + b16 * 0x10 + a16) as u16,
    ;
}

/// A colour is the colour of its four channels.
pub proof fn lemma_from_own_channels(c: Color)
    ensures
        Color::spec_from_values(
            c.spec_r() as int,
            c.spec_g() as int,
            c.spec_b() as int,
            c.spec_a() as int,
        ) == c,
{
    let x: u16 = c.bits;
    assert(x == (x / 0x1000) * 0x1000 + ((x / 0x100) % 0x10) * 0x100 + ((x / 0x10) % 0x10) * 0x10
        + x % 0x10) by (bit_vector);
}

impl Color {
    pub open spec fn spec_r(&self) -> u8 {
        (self.bits / 0x1000) as u8
    }

    pub open spec fn spec_g(&self) -> u8 {
        ((self.bits / 0x100) % 0x10) as u8
    }

    pub open spec fn spec_b(&self) -> u8 {
        ((self.bits / 0x10) % 0x10) as u8
    }

    pub open spec fn spec_a(&self) -> u8 {
        (self.bits % 0x10) as u8
    }

    /// The colour of the four channels, each of which is at most 15.
    pub open spec fn spec_from_values(r: int, g: int, b: int, a: int) -> Color {
        Color { bits: (r * 0x1000 + g * 0x100 + b * 0x10 + a) as u16 }
    }

    /// The bits with the channels in the order red, green, blue, alpha.
    pub open spec fn spec_as_rgba4444(&self) -> u16 {
        self.bits
    }

    /// The bits with the channels in the order alpha, blue, green, red.
    pub open spec fn spec_as_abgr4444(&self) -> u16 {
        (self.spec_a() * 0x1000 + self.spec_b() * 0x100 + self.spec_g() * 0x10
            + self.spec_r()) as u16
    }

    /// The colour that bits in the order red, green, blue, alpha stand for.
    pub open spec fn spec_from_rgba4444(bits: u16) -> Color {
        Color { bits }
    }

    /// The colour that bits in the order alpha, blue, green, red stand for.
    pub open spec fn spec_from_abgr4444(bits: u16) -> Color {
        Color::spec_from_values(
            (bits % 0x10) as int,
            ((bits / 0x10) % 0x10) as int,
            ((bits / 0x100) % 0x10) as int,
            (bits / 0x1000) as int,
        )
    }

    /// `other` composited over `self`: each colour channel is blended towards
    /// that of `other` at the weight of the alpha of `self`; the alpha is the
    /// sum of both, held at 15, where `blend_alpha` is set, and that of `self`
    /// where it is not.
    pub open spec fn spec_blend_with(&self, other: Color, blend_alpha: bool) -> Color {
        Color::spec_from_values(
            spec_blend_channel(self.spec_r(), other.spec_r(), self.spec_a()),
            spec_blend_channel(self.spec_g(), other.spec_g(), self.spec_a()),
            spec_blend_channel(self.spec_b(), other.spec_b(), self.spec_a()),
            if blend_alpha {
                spec_alpha_sum(self.spec_a(), other.spec_a())
            } else {
                self.spec_a() as int
            },
        )
    }

    /// The colour with every channel at zero.
    pub fn new() -> (c: Color)
        ensures
            c.bits == 0,
    {
        Color { bits: 0 }
    }

    pub fn from_bits(bits: u16) -> (c: Color)
        ensures
            c.bits == bits,
    {
        Color { bits }
    }

    pub fn into_bits(&self) -> (bits: u16)
        ensures
            bits == self.bits,
    {
        self.bits
    }

    /// The red channel.
    #[verifier::when_used_as_spec(spec_r)]
    pub fn r(&self) -> (v: u8)
        ensures
            v == self.spec_r(),
            v <= 0xF,
    {
        let bits: u16 = self.bits;
        assert(bits >> 12 == bits / 0x1000) by (bit_vector);
        (bits >> 12) as u8
    }

    /// The green channel.
    #[verifier::when_used_as_spec(spec_g)]
    pub fn g(&self) -> (v: u8)
        ensures
            v == self.spec_g(),
            v <= 0xF,
    {
        let bits: u16 = self.bits;
        assert((bits >> 8) & 0xF == (bits / 0x100) % 0x10) by (bit_vector);
        ((bits >> 8) & 0xF) as u8
    }

    /// The blue channel.
    #[verifier::when_used_as_spec(spec_b)]
    pub fn b(&self) -> (v: u8)
        ensures
            v == self.spec_b(),
            v <= 0xF,
    {
        let bits: u16 = self.bits;
        assert((bits >> 4) & 0xF == (bits / 0x10) % 0x10) by (bit_vector);
        ((bits >> 4) & 0xF) as u8
    }

    /// The alpha channel.
    #[verifier::when_used_as_spec(spec_a)]
    pub fn a(&self) -> (v: u8)
        ensures
            v == self.spec_a(),
            v <= 0xF,
    {
        let bits: u16 = self.bits;
        assert(bits & 0xF == bits % 0x10) by (bit_vector);
        (bits & 0xF) as u8
    }

    /// The colour of the four channels.
    pub fn from_values(r: u8, g: u8, b: u8, a: u8) -> (c: Color)
        requires
            r <= 0xF,
            g <= 0xF,
            b <= 0xF,
            a <= 0xF,
        ensures
            c == Color::spec_from_values(r as int, g as int, b as int, a as int),
            c.spec_r() == r,
            c.spec_g() == g,
            c.spec_b() == b,
            c.spec_a() == a,
    {
        let (r16, g16, b16, a16): (u16, u16, u16, u16) = (r as u16, g as u16, b as u16, a as u16);
        proof {
            lemma_pack_channels(r, g, b, a);
            assert((r16 << 12) | (g16 << 8) | (b16 << 4) | a16 == (r16 * 0x1000 + g16 * 0x100 + b16
                * 0x10 + a16) as u16) by (bit_vector)
                requires
                    r16 <= 0xF,
                    g16 <= 0xF,
                    b16 <= 0xF,
                    a16 <= 0xF,
            ;
        }
        Color { bits: (r16 << 12) | (g16 << 8) | (b16 << 4) | a16 }
    }

    /// This colour with its red channel replaced.
    pub fn with_r(self, r: u8) -> (c: Color)
        requires
            r <= 0xF,
        ensures
            c == Color::spec_from_values(
                r as int,
                self.spec_g() as int,
                self.spec_b() as int,
                self.spec_a() as int,
            ),
    {
        Color::from_values(r, self.g(), self.b(), self.a())
    }

    /// This colour with its green channel replaced.
    pub fn with_g(self, g: u8) -> (c: Color)
        requires
            g <= 0xF,
        ensures
            c == Color::spec_from_values(
                self.spec_r() as int,
                g as int,
                self.spec_b() as int,
                self.spec_a() as int,
            ),
    {
        Color::from_values(self.r(), g, self.b(), self.a())
    }

    /// This colour with its blue channel replaced.
    pub fn with_b(self, b: u8) -> (c: Color)
        requires
            b <= 0xF,
        ensures
            c == Color::spec_from_values(
                self.spec_r() as int,
                self.spec_g() as int,
                b as int,
                self.spec_a() as int,
            ),
    {
        Color::from_values(self.r(), self.g(), b, self.a())
    }

    /// This colour with its alpha channel replaced.
    pub fn with_a(self, a: u8) -> (c: Color)
        requires
            a <= 0xF,
        ensures
            c == Color::spec_from_values(
                self.spec_r() as int,
                self.spec_g() as int,
                self.spec_b() as int,
                a as int,
            ),
    {
        Color::from_values(self.r(), self.g(), self.b(), a)
    }

    /// The bits in the channel order red, green, blue, alpha.
    pub fn as_rgba4444(&self) -> (bits: u16)
        ensures
            bits == self.spec_as_rgba4444(),
    {
        self.into_bits()
    }

    /// The bits in the channel order alpha, blue, green, red.
    pub fn as_abgr4444(&self) -> (bits: u16)
        ensures
            bits == self.spec_as_abgr4444(),
    {
        Color::from_values(self.a(), self.b(), self.g(), self.r()).into_bits()
    }

    /// Blends one channel: `left` at weight `255 - alpha`, `right` at weight
    /// `alpha`.
    pub fn blend_channel(left: u8, right: u8, alpha: u8) -> (v: u8)
        requires
            alpha <= 0xF,
        ensures
            v == spec_blend_channel(left, right, alpha),
            left <= 0xF && right <= 0xF ==> v <= 0xF,
    {
        proof {
            lemma_blend_channel_between(left, right, alpha);
        }
        let one_minus_alpha: u8 = 0xFF - alpha;
        let sum: u32 = promoting_mul(right, alpha) as u32 + promoting_mul(
            left,
            one_minus_alpha,
        ) as u32;
        (sum / 0xFF) as u8
    }

    /// Composites `other` over this colour.
    pub fn blend_with(&mut self, other: Color, blend_alpha: bool)
        ensures
            *final(self) == old(self).spec_blend_with(other, blend_alpha),
    {
        let alpha: u8 = self.a();
        let r: u8 = Color::blend_channel(self.r(), other.r(), alpha);
        let g: u8 = Color::blend_channel(self.g(), other.g(), alpha);
        let b: u8 = Color::blend_channel(self.b(), other.b(), alpha);
        let a: u8 = if blend_alpha {
            let sum: u8 = alpha + other.a();
            if sum > CHANNEL_MAX {
                CHANNEL_MAX
            } else {
                sum
            }
        } else {
            alpha
        };
        *self = Color::from_values(r, g, b, a);
    }

    /// The default background of the overlay.
    pub fn background() -> (c: Color)
        ensures
            c.bits == BACKGROUND_BITS,
    {
        Color::from_values(0x0, 0x0, 0x0, 0xD)
    }

    /// A layer that shows nothing.
    pub fn transparent() -> (c: Color)
        ensures
            c.bits == 0x0000,
    {
        Color::from_values(0x0, 0x0, 0x0, 0x0)
    }

    /// The greenish colour of the focus highlight.
    pub fn highlight() -> (c: Color)
        ensures
            c.bits == HIGHLIGHT_BITS,
    {
        Color::from_values(0x0, 0xF, 0xD, 0xF)
    }

    /// The colour of borders.
    pub fn frame() -> (c: Color)
        ensures
            c.bits == 0x777F,
    {
        Color::from_values(0x7, 0x7, 0x7, 0xF)
    }

    /// The colour of a slider's handle.
    pub fn handle() -> (c: Color)
        ensures
            c.bits == 0x555F,
    {
        Color::from_values(0x5, 0x5, 0x5, 0xF)
    }

    /// The colour of text.
    pub fn text() -> (c: Color)
        ensures
            c.bits == 0xFFFF,
    {
        Color::from_values(0xF, 0xF, 0xF, 0xF)
    }

    /// The colour of descriptions.
    pub fn description() -> (c: Color)
        ensures
            c.bits == 0xAAAF,
    {
        Color::from_values(0xA, 0xA, 0xA, 0xF)
    }

    /// The colour of the header bar.
    pub fn header_bar() -> (c: Color)
        ensures
            c.bits == 0xCCCF,
    {
        Color::from_values(0xC, 0xC, 0xC, 0xF)
    }

    /// The colour of the click animation.
    pub fn click_animation() -> (c: Color)
        ensures
            c.bits == 0x022F,
    {
        Color::from_values(0x0, 0x2, 0x2, 0xF)
    }
}

/// The channels of a blended colour: each colour channel is the blend of the
/// two colours' channels at the weight of the destination's alpha, and the
/// alpha is the held sum or that of the destination.
pub proof fn lemma_blend_with_channels(dest: Color, src: Color, blend_alpha: bool)
    ensures
        dest.spec_blend_with(src, blend_alpha).spec_r() == spec_blend_channel(
            dest.spec_r(),
            src.spec_r(),
            dest.spec_a(),
        ),
        dest.spec_blend_with(src, blend_alpha).spec_g() == spec_blend_channel(
            dest.spec_g(),
            src.spec_g(),
            dest.spec_a(),
        ),
        dest.spec_blend_with(src, blend_alpha).spec_b() == spec_blend_channel(
            dest.spec_b(),
            src.spec_b(),
            dest.spec_a(),
        ),
        blend_alpha ==> dest.spec_blend_with(src, blend_alpha).spec_a() == spec_alpha_sum(
            dest.spec_a(),
            src.spec_a(),
        ),
        !blend_alpha ==> dest.spec_blend_with(src, blend_alpha).spec_a() == dest.spec_a(),
{
    lemma_blend_channel_between(dest.spec_r(), src.spec_r(), dest.spec_a());
    lemma_blend_channel_between(dest.spec_g(), src.spec_g(), dest.spec_a());
    lemma_blend_channel_between(dest.spec_b(), src.spec_b(), dest.spec_a());
    let r = spec_blend_channel(dest.spec_r(), src.spec_r(), dest.spec_a());
    let g = spec_blend_channel(dest.spec_g(), src.spec_g(), dest.spec_a());
    let b = spec_blend_channel(dest.spec_b(), src.spec_b(), dest.spec_a());
    let a = if blend_alpha {
        spec_alpha_sum(dest.spec_a(), src.spec_a())
    } else {
        dest.spec_a() as int
    };
    lemma_channel_bounds(dest);
    lemma_channel_bounds(src);
    lemma_pack_channels(r as u8, g as u8, b as u8, a as u8);
}

/// Onto a destination whose alpha is zero nothing is blended: its colour
/// channels stay as they are, and without alpha blending the whole colour
/// does.
pub proof fn lemma_blend_at_zero_alpha(dest: Color, src: Color, blend_alpha: bool)
    requires
        dest.spec_a() == 0,
    ensures
        dest.spec_blend_with(src, blend_alpha).spec_r() == dest.spec_r(),
        dest.spec_blend_with(src, blend_alpha).spec_g() == dest.spec_g(),
        dest.spec_blend_with(src, blend_alpha).spec_b() == dest.spec_b(),
        blend_alpha ==> dest.spec_blend_with(src, blend_alpha).spec_a() == src.spec_a(),
        !blend_alpha ==> dest.spec_blend_with(src, blend_alpha) == dest,
{
    lemma_blend_with_channels(dest, src, blend_alpha);
    lemma_from_own_channels(dest);
    assert(spec_blend_channel(dest.spec_r(), src.spec_r(), 0) == dest.spec_r());
    assert(spec_blend_channel(dest.spec_g(), src.spec_g(), 0) == dest.spec_g());
    assert(spec_blend_channel(dest.spec_b(), src.spec_b(), 0) == dest.spec_b());
}

/// Onto a destination whose alpha is 15 each colour channel moves towards the
/// source by the formula's full weight, `(15 * src + 240 * dest) / 255`, and
/// the alpha stays 15.
pub proof fn lemma_blend_at_full_alpha(dest: Color, src: Color, blend_alpha: bool)
    requires
        dest.spec_a() == 0xF,
    ensures
        dest.spec_blend_with(src, blend_alpha).spec_r() == (15 * src.spec_r() + 240
            * dest.spec_r()) / 255,
        dest.spec_blend_with(src, blend_alpha).spec_g() == (15 * src.spec_g() + 240
            * dest.spec_g()) / 255,
        dest.spec_blend_with(src, blend_alpha).spec_b() == (15 * src.spec_b() + 240
            * dest.spec_b()) / 255,
        dest.spec_blend_with(src, blend_alpha).spec_a() == 0xF,
{
    lemma_blend_with_channels(dest, src, blend_alpha);
}

/// Both channel orders hold the same colour: decoding the bits of either
/// order by that order gives the colour back, channel for channel.
pub proof fn lemma_channel_orders_round_trip(c: Color)
    ensures
        Color::spec_from_rgba4444(c.spec_as_rgba4444()) == c,
        Color::spec_from_abgr4444(c.spec_as_abgr4444()) == c,
        c.spec_as_abgr4444() / 0x1000 == c.spec_a(),
        (c.spec_as_abgr4444() / 0x100) % 0x10 == c.spec_b(),
        (c.spec_as_abgr4444() / 0x10) % 0x10 == c.spec_g(),
        c.spec_as_abgr4444() % 0x10 == c.spec_r(),
{
    lemma_channel_bounds(c);
    lemma_from_own_channels(c);
    lemma_pack_channels(c.spec_a(), c.spec_b(), c.spec_g(), c.spec_r());
}

} // verus!
