use wasm_core::{generate_grain, greet, try_generate_grain, Lcg};

#[test]
fn lcg_first_word_from_zero_seed() {
    let mut rng = Lcg::new(0);
    assert_eq!(rng.next(), 1013904223);
}

#[test]
fn lcg_first_byte_from_zero_seed() {
    let mut rng = Lcg::new(0);
    assert_eq!(rng.next_u8(), 60);
}

#[test]
fn lcg_second_word_from_zero_seed() {
    let mut rng = Lcg::new(0);
    rng.next();
    assert_eq!(rng.next(), 1196435762);
}

#[test]
fn lcg_wraps_from_largest_seed() {
    let mut rng = Lcg::new(u32::MAX);
    // (2^32 - 1) * 1664525 + 1013904223 mod 2^32
    assert_eq!(rng.next(), 1012239698);
}

#[test]
fn two_by_one_golden() {
    let buffer = generate_grain(2, 1, 128, 0);
    assert_eq!(buffer, vec![60, 60, 60, 255, 71, 71, 71, 255]);
}

#[test]
fn zero_size_is_empty() {
    assert!(generate_grain(0, 0, 0, 0).is_empty());
    assert!(generate_grain(0, 0, 255, 12345).is_empty());
    assert!(generate_grain(0, 7, 1, 3).is_empty());
    assert!(generate_grain(7, 0, 1, 3).is_empty());
}

#[test]
fn length_is_four_bytes_per_pixel() {
    assert_eq!(generate_grain(3, 5, 0, 9).len(), 60);
    assert_eq!(generate_grain(1, 1, 0, 9).len(), 4);
    assert_eq!(generate_grain(64, 64, 200, 1).len(), 16384);
}

#[test]
fn pixels_are_gray_and_opaque() {
    let buffer = generate_grain(16, 16, 77, 42);
    for px in buffer.chunks(4) {
        assert_eq!(px[0], px[1]);
        assert_eq!(px[1], px[2]);
        assert_eq!(px[3], 255);
    }
}

#[test]
fn same_arguments_give_same_bytes() {
    let a = generate_grain(31, 17, 90, 2024);
    let b = generate_grain(31, 17, 90, 2024);
    assert_eq!(a, b);
}

#[test]
fn intensity_does_not_change_bytes() {
    let a = generate_grain(8, 8, 0, 5);
    let b = generate_grain(8, 8, 255, 5);
    assert_eq!(a, b);
}

#[test]
fn pixels_follow_generator_in_row_major_order() {
    let buffer = generate_grain(5, 3, 10, 99);
    let mut rng = Lcg::new(99);
    for p in 0..15 {
        let n = rng.next_u8();
        assert_eq!(&buffer[4 * p..4 * p + 4], &[n, n, n, 255]);
    }
    assert_eq!(buffer, generate_grain(15, 1, 10, 99));
    assert_eq!(buffer, generate_grain(1, 15, 10, 99));
}

#[test]
fn distinct_seeds_give_distinct_textures() {
    let mut seeds: Vec<u32> = (0..40).collect();
    seeds.extend([1 << 24, 1 << 31, 0xdead_beef, u32::MAX - 1, u32::MAX]);
    let textures: Vec<Vec<u8>> = seeds.iter().map(|&s| generate_grain(64, 64, 0, s)).collect();
    for i in 0..textures.len() {
        for j in i + 1..textures.len() {
            assert_ne!(textures[i], textures[j], "seeds {} and {}", seeds[i], seeds[j]);
        }
    }
}

#[test]
fn checked_generation_matches_unchecked() {
    assert_eq!(try_generate_grain(2, 1, 128, 0), Some(vec![60, 60, 60, 255, 71, 71, 71, 255]));
    assert_eq!(try_generate_grain(0, 0, 0, 0), Some(Vec::new()));
    assert_eq!(try_generate_grain(9, 4, 3, 8), Some(generate_grain(9, 4, 3, 8)));
}

#[test]
fn checked_generation_reports_oversized_buffer() {
    assert_eq!(try_generate_grain(u32::MAX, u32::MAX, 0, 0), None);
}

#[test]
fn greet_returns_fixed_text() {
    assert_eq!(greet(), "Hello from Wasm Core!");
}
