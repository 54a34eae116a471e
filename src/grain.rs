//! Filling an RGBA buffer with seeded grayscale noise.
use vstd::prelude::*;

use crate::lcg::{lcg_byte, lcg_state, Lcg};

verus! {

/// Byte `i` of the noise texture for `seed`: pixel `i / 4` draws one byte,
/// which fills its red, green and blue channels; alpha is always 255.
pub open spec fn grain_byte(seed: u32, i: int) -> u8 {
    if i % 4 == 3 {
        255u8
    } else {
        lcg_byte(seed, (i / 4) as nat)
    }
}

/// The RGBA noise texture of `pixels` pixels, in row-major order, four bytes per pixel.
pub open spec fn grain_texture(pixels: nat, seed: u32) -> Seq<u8> {
    Seq::new(pixels * 4, |i: int| grain_byte(seed, i))
}

/// The noise texture for a `width` x `height` image.
pub open spec fn grain_image(width: u32, height: u32, seed: u32) -> Seq<u8> {
    grain_texture(width as nat * height as nat, seed)
}

/// Whether a `width` x `height` RGBA buffer fits in the address space.
pub open spec fn grain_fits(width: u32, height: u32) -> bool {
    width as nat * height as nat * 4 <= usize::MAX
}

/// Draws one byte per pixel from a generator seeded with `seed` and lays the pixels out as RGBA.
fn fill_grain(pixels: usize, seed: u32) -> (r: Vec<u8>)
    requires
        pixels * 4 <= usize::MAX,
    ensures
        r@ == grain_texture(pixels as nat, seed),
{
    let mut buffer: Vec<u8> = Vec::with_capacity(pixels * 4);
    let mut rng = Lcg::new(seed);
    let mut p: usize = 0;
    while p < pixels
        invariant
            p <= pixels,
            buffer@.len() == 4 * p,
            rng.state() == lcg_state(seed, p as nat),
            forall|i: int| 0 <= i < 4 * p ==> #[trigger] buffer@[i] == grain_byte(seed, i),
        decreases pixels - p,
    {
        let noise = rng.next_u8();
        buffer.push(noise);
        buffer.push(noise);
        buffer.push(noise);
        buffer.push(255u8);
        proof {
            let b = 4 * p as int;
            assert(b / 4 == p && b % 4 == 0);
            assert((b + 1) / 4 == p && (b + 1) % 4 == 1);
            assert((b + 2) / 4 == p && (b + 2) % 4 == 2);
            assert((b + 3) / 4 == p && (b + 3) % 4 == 3);
        }
        p = p + 1;
    }
    assert(buffer@ =~= grain_texture(pixels as nat, seed));
    buffer
}

/// Generates a `width` x `height` RGBA noise texture from `seed`.
///
/// Each pixel draws one byte from a generator seeded with `seed`, in row-major
/// order, and holds `[n, n, n, 255]`. The intensity is left for the renderer to
/// apply and does not change the result.
pub fn generate_grain(width: u32, height: u32, _intensity: u8, seed: u32) -> (r: Vec<u8>)
    requires
        grain_fits(width, height),
    ensures
        r@ == grain_image(width, height, seed),
        r@.len() == width * height * 4,
{
    assert(width as nat * height as nat <= usize::MAX) by (nonlinear_arith)
        requires
            width as nat * height as nat * 4 <= usize::MAX,
    ;
    let pixels = width as usize * height as usize;
    fill_grain(pixels, seed)
}

/// Like [`generate_grain`], but reports `None` where the buffer would not fit in
/// the address space instead of requiring that it does.
pub fn try_generate_grain(width: u32, height: u32, intensity: u8, seed: u32) -> (r: Option<Vec<u8>>)
    ensures
        r is None <==> !grain_fits(width, height),
        r matches Some(v) ==> v@ == grain_image(width, height, seed),
{
    match (width as usize).checked_mul(height as usize) {
        None => {
            assert(!grain_fits(width, height)) by (nonlinear_arith)
                requires
                    width as nat * height as nat > usize::MAX,
            ;
            None
        },
        Some(pixels) => match pixels.checked_mul(4) {
            None => None,
            Some(_) => Some(generate_grain(width, height, intensity, seed)),
        },
    }
}


/// Two generations with the same width, height, intensity and seed return the
/// same bytes.
pub proof fn lemma_grain_deterministic(
    width: u32,
    height: u32,
    intensity: u8,
    seed: u32,
    first: Seq<u8>,
    second: Seq<u8>,
)
    requires
        first == grain_image(width, height, seed),
        second == grain_image(width, height, seed),
    ensures
        first == second,
{
}

/// Every pixel of a texture is gray and opaque: its red, green and blue bytes
/// are equal, and its alpha byte is 255.
pub proof fn lemma_grain_channels(pixels: nat, seed: u32)
    ensures
        forall|p: int|
            0 <= p < pixels ==> {
                let t = #[trigger] grain_texture(pixels, seed).subrange(4 * p, 4 * p + 4);
                t[0] == t[1] && t[1] == t[2] && t[3] == 255
            },
{
    assert forall|p: int| 0 <= p < pixels implies {
        let t = #[trigger] grain_texture(pixels, seed).subrange(4 * p, 4 * p + 4);
        t[0] == t[1] && t[1] == t[2] && t[3] == 255
    } by {
        let b = 4 * p;
        assert(b / 4 == p && b % 4 == 0);
        assert((b + 1) / 4 == p && (b + 1) % 4 == 1);
        assert((b + 2) / 4 == p && (b + 2) % 4 == 2);
        assert((b + 3) / 4 == p && (b + 3) % 4 == 3);
    }
}

} // verus!
