//! The image compositor: one immutable pixel buffer built from the
//! source image, the target dimensions, the invert flag and the
//! opacity, reused for every show event.
//!
//! Decoding and smooth resampling are the image codec's work and stand
//! behind trusted declarations; every per-pixel step — inverting the
//! colour channels, scaling the alpha channel, packing into the
//! surface's pixel layout — is verified here.

use vstd::arithmetic::div_mod::{lemma_div_is_ordered, lemma_div_multiples_vanish};
use vstd::arithmetic::mul::lemma_mul_inequality;
use vstd::prelude::*;

verus! {

/// The configured opacity as an exact fraction `num / den` in
/// `[0, 1]`. The caller that reads the configuration turns its value
/// into this form once.
#[derive(Debug, Clone, Copy, PartialEq, Eq, Structural)]
pub struct Opacity {
    pub num: u32,
    pub den: u32,
}

impl Opacity {
    /// A fraction in `[0, 1]`: positive denominator, numerator no
    /// larger.
    pub open spec fn wf(self) -> bool {
        0 < self.den && self.num <= self.den
    }

    /// The fraction `num / den`.
    pub fn new(num: u32, den: u32) -> (r: Opacity)
        requires
            0 < den,
            num <= den,
        ensures
            r.num == num,
            r.den == den,
            r.wf(),
    {
        Opacity { num, den }
    }

    /// Full opacity.
    pub fn opaque() -> (r: Opacity)
        ensures
            r.num == 1 && r.den == 1,
            r.wf(),
    {
        Opacity { num: 1, den: 1 }
    }

    /// Full transparency.
    pub fn transparent() -> (r: Opacity)
        ensures
            r.num == 0 && r.den == 1,
            r.wf(),
    {
        Opacity { num: 0, den: 1 }
    }
}

/// A colour channel, inverted if asked: inversion complements the
/// channel; the alpha channel never goes through this.
pub open spec fn inv_channel(c: u8, invert: bool) -> u8 {
    if invert {
        (255 - c) as u8
    } else {
        c
    }
}

/// The alpha channel after opacity is applied: the exact floor of
/// `a * opacity`.
pub open spec fn scaled_alpha(a: u8, op: Opacity) -> u8 {
    (((a as int) * (op.num as int)) / (op.den as int)) as u8
}

/// The surface's pixel layout: one `u32` per pixel, alpha in the top
/// byte, then red, green, blue.
pub open spec fn pack_argb(a: u8, r: u8, g: u8, b: u8) -> u32 {
    ((a as u32) << 24) | ((r as u32) << 16) | ((g as u32) << 8) | (b as u32)
}

/// The alpha byte of a packed pixel.
pub open spec fn alpha_of(p: u32) -> u32 {
    p >> 24
}

/// The red byte of a packed pixel.
pub open spec fn red_of(p: u32) -> u32 {
    (p >> 16) & 0xff
}

/// The green byte of a packed pixel.
pub open spec fn green_of(p: u32) -> u32 {
    (p >> 8) & 0xff
}

/// The blue byte of a packed pixel.
pub open spec fn blue_of(p: u32) -> u32 {
    p & 0xff
}

/// One composed pixel: colour channels inverted on request, alpha
/// scaled by the opacity, packed for the surface.
pub open spec fn composed_pixel(r: u8, g: u8, b: u8, a: u8, invert: bool, op: Opacity) -> u32 {
    pack_argb(
        scaled_alpha(a, op),
        inv_channel(r, invert),
        inv_channel(g, invert),
        inv_channel(b, invert),
    )
}

/// The whole composed buffer: each group of four source bytes, in
/// red, green, blue, alpha order, becomes one packed pixel.
pub open spec fn composed_seq(src: Seq<u8>, invert: bool, op: Opacity) -> Seq<u32> {
    Seq::new(
        src.len() / 4,
        |i: int| composed_pixel(src[4 * i], src[4 * i + 1], src[4 * i + 2], src[4 * i + 3], invert, op),
    )
}

/// Scaling never raises alpha: the scaled value stays at or below the
/// source alpha.
pub proof fn lemma_scaled_alpha_le(a: u8, op: Opacity)
    requires
        op.wf(),
    ensures
        scaled_alpha(a, op) <= a,
        ((a as int) * (op.num as int)) / (op.den as int) <= a,
{
    lemma_mul_inequality(op.num as int, op.den as int, a as int);
    lemma_div_is_ordered(a as int * op.num as int, a as int * op.den as int, op.den as int);
    lemma_div_multiples_vanish(a as int, op.den as int);
}

fn scale_alpha(a: u8, op: Opacity) -> (r: u8)
    requires
        op.wf(),
    ensures
        r == scaled_alpha(a, op),
{
    proof {
        lemma_scaled_alpha_le(a, op);
        assert((a as int) * (op.num as int) <= 255 * 0xffff_ffff) by (nonlinear_arith)
            requires
                a as int <= 255,
                0 <= op.num as int <= 0xffff_ffff,
        ;
    }
    (((a as u64) * (op.num as u64)) / (op.den as u64)) as u8
}

fn invert_channel(c: u8, invert: bool) -> (r: u8)
    ensures
        r == inv_channel(c, invert),
{
    if invert {
        255 - c
    } else {
        c
    }
}

/// Compose raw pixel bytes into the packed buffer.
fn compose_pixels(src: &Vec<u8>, invert: bool, op: Opacity) -> (out: Vec<u32>)
    requires
        src@.len() % 4 == 0,
        op.wf(),
    ensures
        out@ == composed_seq(src@, invert, op),
{
    let n = src.len() / 4;
    let mut out: Vec<u32> = Vec::new();
    let mut i: usize = 0;
    while i < n
        invariant
            src@.len() % 4 == 0,
            src@.len() <= usize::MAX,
            n == src@.len() / 4,
            op.wf(),
            i <= n,
            out@.len() == i,
            forall|j: int|
                0 <= j < i ==> out@[j] == composed_pixel(
                    src@[4 * j],
                    src@[4 * j + 1],
                    src@[4 * j + 2],
                    src@[4 * j + 3],
                    invert,
                    op,
                ),
        decreases n - i,
    {
        let r = invert_channel(src[4 * i], invert);
        let g = invert_channel(src[4 * i + 1], invert);
        let b = invert_channel(src[4 * i + 2], invert);
        let a = scale_alpha(src[4 * i + 3], op);
        let px: u32 = ((a as u32) << 24) | ((r as u32) << 16) | ((g as u32) << 8) | (b as u32);
        out.push(px);
        i = i + 1;
    }
    proof {
        assert(out@ =~= composed_seq(src@, invert, op));
    }
    out
}

/// The overlay's pixel buffer: immutable once built, shared by the
/// compositor and the window controller.
#[derive(Debug, PartialEq, Eq)]
pub struct OverlayFrame {
    pub width: u32,
    pub height: u32,
    pub pixels: Vec<u32>,
}

impl OverlayFrame {
    /// The buffer holds exactly one packed pixel per coordinate.
    pub open spec fn wf(self) -> bool {
        self.pixels@.len() == self.width * self.height
    }
}

/// What the image codec makes of a byte buffer: the width, height and
/// raw pixel bytes, four per pixel, of the decoded image, or nothing
/// where the bytes decode as no supported image. The result depends
/// on the bytes alone.
pub uninterp spec fn decoded_rgba_of(bytes: Seq<u8>) -> Option<(nat, nat, Seq<u8>)>;

/// Relies on image::load_from_memory and DynamicImage::to_rgba8: the
/// decoded image is a function of the byte buffer alone; the raw
/// buffer of a decoded image holds four bytes per pixel, and a
/// decodable image has positive dimensions.
#[verifier::external_body]
fn decode_rgba(bytes: &Vec<u8>) -> (r: Option<(u32, u32, Vec<u8>)>)
    ensures
        r is Some <==> decoded_rgba_of(bytes@) is Some,
        r matches Some(d) ==> {
            &&& decoded_rgba_of(bytes@) == Some((d.0 as nat, d.1 as nat, d.2@))
            &&& d.2@.len() == 4 * d.0 * d.1
            &&& d.0 >= 1
            &&& d.1 >= 1
        },
{
    match image::load_from_memory(bytes) {
        Ok(img) => {
            let rgba = img.to_rgba8();
            let (w, h) = rgba.dimensions();
            Some((w, h, rgba.into_raw()))
        },
        Err(_) => None,
    }
}

/// What the image codec's smooth resampling (the triangle filter)
/// makes of raw pixel bytes: a function of the source pixels and the
/// two dimension pairs alone.
pub uninterp spec fn resized_rgba_of(pixels: Seq<u8>, w0: nat, h0: nat, w: nat, h: nat) -> Seq<u8>;

/// Relies on image::imageops::resize with FilterType::Triangle, via
/// RgbaImage::from_raw: resampling is a function of its arguments
/// alone, and the output buffer holds four bytes per target pixel.
/// The bounds keep the resampler's intermediate buffer, sixteen bytes
/// per source-width times target-height pixel, within what a vector
/// can hold.
#[verifier::external_body]
fn resize_rgba(pixels: &Vec<u8>, w0: u32, h0: u32, w: u32, h: u32) -> (r: Vec<u8>)
    requires
        pixels@.len() == 4 * w0 * h0,
        w0 >= 1,
        h0 >= 1,
        w >= 1,
        h >= 1,
        4 * w * h <= usize::MAX,
        32 * w0 * h <= usize::MAX,
    ensures
        r@ == resized_rgba_of(pixels@, w0 as nat, h0 as nat, w as nat, h as nat),
        r@.len() == 4 * w * h,
{
    let img = image::RgbaImage::from_raw(w0, h0, pixels.clone()).unwrap();
    image::imageops::resize(&img, w, h, image::imageops::FilterType::Triangle).into_raw()
}

/// The raw bytes the composition starts from: the decoded image as it
/// is where it already has the target dimensions, its smooth resample
/// otherwise.
pub open spec fn frame_source(dec: (nat, nat, Seq<u8>), w: nat, h: nat) -> Seq<u8> {
    if dec.0 == w && dec.1 == h {
        dec.2
    } else {
        resized_rgba_of(dec.2, dec.0, dec.1, w, h)
    }
}

/// Whether a decoded source can be resampled to the target
/// dimensions on this machine: either no resampling is needed, or the
/// resampler's working memory fits. A source that fails this is
/// passed over like one that does not decode.
pub open spec fn resample_fits(dec: (nat, nat, Seq<u8>), w: nat, h: nat) -> bool {
    (dec.0 == w && dec.1 == h) || 32 * dec.0 * h <= usize::MAX
}

/// Whether a candidate byte buffer can serve as the frame's source:
/// it decodes, and its resample fits.
pub open spec fn candidate_usable(bytes: Seq<u8>, w: nat, h: nat) -> bool {
    match decoded_rgba_of(bytes) {
        Some(dec) => resample_fits(dec, w, h),
        None => false,
    }
}

/// What a built frame must hold, given the bytes it was decoded from.
pub open spec fn frame_matches(
    f: OverlayFrame,
    bytes: Seq<u8>,
    w: nat,
    h: nat,
    invert: bool,
    op: Opacity,
) -> bool {
    &&& f.width == w
    &&& f.height == h
    &&& decoded_rgba_of(bytes) is Some
    &&& f.pixels@ == composed_seq(frame_source(decoded_rgba_of(bytes).unwrap(), w, h), invert, op)
}

/// The whole outcome of a build over a list of candidate byte
/// buffers: either no candidate is usable, or the frame was composed
/// from the first one that is.
pub open spec fn build_outcome(
    r: Option<(OverlayFrame, usize)>,
    cands: Seq<Seq<u8>>,
    w: nat,
    h: nat,
    invert: bool,
    op: Opacity,
) -> bool {
    match r {
        None => forall|i: int| 0 <= i < cands.len() ==> !candidate_usable(cands[i], w, h),
        Some(p) => {
            &&& p.1 < cands.len()
            &&& (forall|j: int| 0 <= j < p.1 ==> !candidate_usable(cands[j], w, h))
            &&& candidate_usable(cands[p.1 as int], w, h)
            &&& frame_matches(p.0, cands[p.1 as int], w, h, invert, op)
            &&& p.0.wf()
        },
    }
}

/// Build the overlay frame from the first usable candidate byte
/// buffer: resample to the target dimensions where they differ,
/// invert the colour channels on request, scale alpha by the opacity,
/// and pack for the surface. The returned index says which candidate
/// was used, so the caller can warn about a fallback.
pub fn build_frame(
    candidates: &Vec<Vec<u8>>,
    width: u32,
    height: u32,
    invert: bool,
    opacity: Opacity,
) -> (r: Option<(OverlayFrame, usize)>)
    requires
        width >= 1,
        height >= 1,
        4 * width * height <= usize::MAX,
        opacity.wf(),
    ensures
        build_outcome(r, candidates.deep_view(), width as nat, height as nat, invert, opacity),
{
    let ghost cands = candidates.deep_view();
    let mut i: usize = 0;
    while i < candidates.len()
        invariant
            cands == candidates.deep_view(),
            cands.len() == candidates@.len(),
            forall|j: int| 0 <= j < cands.len() ==> cands[j] == candidates@[j]@,
            width >= 1,
            height >= 1,
            4 * width * height <= usize::MAX,
            opacity.wf(),
            i <= cands.len(),
            forall|j: int| 0 <= j < i ==> !candidate_usable(cands[j], width as nat, height as nat),
        decreases cands.len() - i,
    {
        match decode_rgba(&candidates[i]) {
            Some((w0, h0, raw)) => {
                let source = if w0 != width || h0 != height {
                    proof {
                        assert((32 * (w0 as int)) * (height as int) <= 0x20_0000_0000
                            * 0x1_0000_0000) by (nonlinear_arith)
                            requires
                                0 <= w0 as int <= 0xffff_ffff,
                                0 <= height as int <= 0xffff_ffff,
                        ;
                    }
                    let fits = 32 * (w0 as u128) * (height as u128) <= usize::MAX as u128;
                    if !fits {
                        proof {
                            assert(!candidate_usable(cands[i as int], width as nat, height as nat));
                        }
                        i = i + 1;
                        continue ;
                    }
                    resize_rgba(&raw, w0, h0, width, height)
                } else {
                    raw
                };
                proof {
                    let w = width as int;
                    let h = height as int;
                    assert((4 * w) * h == (w * h) * 4) by (nonlinear_arith);
                    vstd::arithmetic::div_mod::lemma_mod_multiples_basic(w * h, 4);
                    vstd::arithmetic::div_mod::lemma_div_multiples_vanish(w * h, 4);
                    assert(source@ == frame_source(
                        decoded_rgba_of(cands[i as int]).unwrap(),
                        width as nat,
                        height as nat,
                    ));
                    assert(source@.len() == (w * h) * 4);
                    assert(source@.len() % 4 == 0);
                }
                let pixels = compose_pixels(&source, invert, opacity);
                let frame = OverlayFrame { width, height, pixels };
                assert(frame.pixels@.len() == width * height);
                return Some((frame, i));
            },
            None => {},
        }
        i = i + 1;
    }
    None
}

/// With full opacity and no inversion the composed pixel carries the
/// source channels unchanged, packed for the surface.
pub proof fn lemma_identity_compose(r: u8, g: u8, b: u8, a: u8, op: Opacity)
    requires
        op.wf(),
        op.num == op.den,
    ensures
        scaled_alpha(a, op) == a,
        composed_pixel(r, g, b, a, false, op) == pack_argb(a, r, g, b),
{
    lemma_div_multiples_vanish(a as int, op.den as int);
    assert(a as int * op.num as int == op.den as int * a as int);
}

/// Inverting a channel twice restores it.
pub proof fn lemma_invert_self_inverse(c: u8)
    ensures
        inv_channel(inv_channel(c, true), true) == c,
{
}

/// The packed layout is lossless: each byte comes back out of the
/// packed pixel.
pub proof fn lemma_pack_fields(a: u8, r: u8, g: u8, b: u8)
    ensures
        alpha_of(pack_argb(a, r, g, b)) == a,
        red_of(pack_argb(a, r, g, b)) == r,
        green_of(pack_argb(a, r, g, b)) == g,
        blue_of(pack_argb(a, r, g, b)) == b,
{
    let au = a as u32;
    let ru = r as u32;
    let gu = g as u32;
    let bu = b as u32;
    assert(((au << 24) | (ru << 16) | (gu << 8) | bu) >> 24 == au
        && (((au << 24) | (ru << 16) | (gu << 8) | bu) >> 16) & 0xff == ru
        && (((au << 24) | (ru << 16) | (gu << 8) | bu) >> 8) & 0xff == gu
        && ((au << 24) | (ru << 16) | (gu << 8) | bu) & 0xff == bu) by (bit_vector)
        requires
            au < 256,
            ru < 256,
            gu < 256,
            bu < 256,
    ;
}

/// Inversion never touches the alpha channel: the composed pixel's
/// alpha byte is the scaled source alpha, whether or not the colour
/// channels are inverted.
pub proof fn lemma_invert_leaves_alpha(r: u8, g: u8, b: u8, a: u8, invert: bool, op: Opacity)
    requires
        op.wf(),
    ensures
        alpha_of(composed_pixel(r, g, b, a, invert, op)) == scaled_alpha(a, op),
{
    lemma_pack_fields(
        scaled_alpha(a, op),
        inv_channel(r, invert),
        inv_channel(g, invert),
        inv_channel(b, invert),
    );
}

/// Opacity zero yields a fully transparent pixel; with opacity one
/// the alpha channel passes unchanged.
pub proof fn lemma_opacity_bounds(a: u8, op: Opacity)
    requires
        op.wf(),
    ensures
        op.num == 0 ==> scaled_alpha(a, op) == 0,
        op.num == op.den ==> scaled_alpha(a, op) == a,
{
    if op.num == 0 {
        lemma_div_multiples_vanish(0, op.den as int);
    } else if op.num == op.den {
        lemma_div_multiples_vanish(a as int, op.den as int);
        assert(a as int * op.num as int == op.den as int * a as int);
    }
}

/// Composition is deterministic: two builds over the same candidates
/// and settings agree — same chosen source, same dimensions, and
/// byte-identical pixels.
pub proof fn lemma_build_deterministic(
    r1: Option<(OverlayFrame, usize)>,
    r2: Option<(OverlayFrame, usize)>,
    cands: Seq<Seq<u8>>,
    w: nat,
    h: nat,
    invert: bool,
    op: Opacity,
)
    requires
        build_outcome(r1, cands, w, h, invert, op),
        build_outcome(r2, cands, w, h, invert, op),
    ensures
        r1 is Some <==> r2 is Some,
        (r1 is Some && r2 is Some) ==> {
            let p1 = r1.unwrap();
            let p2 = r2.unwrap();
            p1.1 == p2.1 && p1.0.width == p2.0.width && p1.0.height == p2.0.height && p1.0.pixels@
                == p2.0.pixels@
        },
{
    if r1 is Some && r2 is Some {
        let p1 = r1.unwrap();
        let p2 = r2.unwrap();
        if p1.1 < p2.1 {
            assert(!candidate_usable(cands[p1.1 as int], w, h));
            assert(false);
        }
        if p2.1 < p1.1 {
            assert(!candidate_usable(cands[p2.1 as int], w, h));
            assert(false);
        }
    } else if r1 is Some && r2 is None {
        let p1 = r1.unwrap();
        assert(!candidate_usable(cands[p1.1 as int], w, h));
        assert(false);
    } else if r1 is None && r2 is Some {
        let p2 = r2.unwrap();
        assert(!candidate_usable(cands[p2.1 as int], w, h));
        assert(false);
    }
}

} // verus!
