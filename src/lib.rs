//! Seeded grayscale noise textures for film-grain and dither overlays.
use vstd::prelude::*;

pub mod grain;
pub mod lcg;

pub use grain::{generate_grain, try_generate_grain};
pub use lcg::Lcg;

verus! {

/// A fixed greeting that callers use to check that the library is loaded.
pub fn greet() -> (r: String)
    ensures
        r@ == "Hello from Wasm Core!"@,
{
    "Hello from Wasm Core!".to_string()
}

} // verus!
