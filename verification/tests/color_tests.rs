use brushkit::color::{
    decode_channel, decode_pixels, encode_channel, encode_pixels, fifth_root, linear_to_srgb,
    quantize_channel, srgb_to_linear, LINEAR_ONE, SRGB_ONE,
};

#[test]
fn fifth_root_exact_values() {
    assert_eq!(fifth_root(0), 0);
    assert_eq!(fifth_root(1), 1);
    assert_eq!(fifth_root(31), 1);
    assert_eq!(fifth_root(32), 2);
    assert_eq!(fifth_root(3125), 5);
    assert_eq!(fifth_root(3124), 4);
    let top: u128 = 8192u128 * 8192 * 8192 * 8192 * 8192;
    assert_eq!(fifth_root(top), 8192);
    assert_eq!(fifth_root(top - 1), 8191);
}

#[test]
fn decode_endpoints_exact() {
    assert_eq!(srgb_to_linear(0), 0);
    assert_eq!(srgb_to_linear(SRGB_ONE), LINEAR_ONE);
}

#[test]
fn decode_tracks_power_curve() {
    // The fixed-point decode follows (s / SRGB_ONE)^2.2 closely.
    let mut s: u64 = 0;
    while s <= SRGB_ONE {
        let l = srgb_to_linear(s);
        let expect = (s as f64 / SRGB_ONE as f64).powf(2.2) * LINEAR_ONE as f64;
        let diff = (l as f64 - expect).abs();
        assert!(diff <= 130.0, "s={} l={} expect={}", s, l, expect);
        s += 37;
    }
}

#[test]
fn decode_monotone_sampled() {
    let mut prev = 0u64;
    let mut s: u64 = 0;
    while s <= SRGB_ONE {
        let l = srgb_to_linear(s);
        assert!(l >= prev);
        prev = l;
        s += 13;
    }
}

#[test]
fn encode_endpoints() {
    assert_eq!(linear_to_srgb(LINEAR_ONE), SRGB_ONE);
    // Encoding zero gives the largest sRGB value that still decodes to zero.
    let s0 = linear_to_srgb(0);
    assert_eq!(srgb_to_linear(s0), 0);
    assert!(srgb_to_linear(s0 + 1) > 0);
}

#[test]
fn gamma_round_trip_within_tolerance() {
    // decode(encode(l)) returns l within one part in a thousand of full
    // scale, for a sweep of the whole linear range.
    let mut l: u64 = 0;
    while l <= LINEAR_ONE {
        let s = linear_to_srgb(l);
        let l2 = srgb_to_linear(s);
        assert!(l2 <= l);
        assert!(l - l2 < 600, "l={} s={} l2={}", l, s, l2);
        assert!(1000 * (l - l2) < LINEAR_ONE);
        l += 101;
    }
    let s = linear_to_srgb(LINEAR_ONE);
    assert_eq!(srgb_to_linear(s), LINEAR_ONE);
}

#[test]
fn quantize_endpoints() {
    assert_eq!(quantize_channel(0), 0);
    assert_eq!(quantize_channel(LINEAR_ONE), 255);
    assert_eq!(quantize_channel(LINEAR_ONE / 2), 127);
}

#[test]
fn channel_decode_matches_float_model() {
    assert_eq!(decode_channel(0), 0);
    assert_eq!(decode_channel(255), 255);
    for v in [1u8, 32, 64, 128, 200, 254] {
        let got = decode_channel(v) as f64;
        let expect = (v as f64 / 255.0).powf(2.2) * 255.0;
        assert!((got - expect).abs() <= 2.0, "v={} got={} expect={}", v, got, expect);
    }
}

#[test]
fn channel_encode_matches_float_model() {
    assert_eq!(encode_channel(0), 0);
    assert_eq!(encode_channel(255), 255);
    for v in [1u8, 32, 64, 128, 200, 254] {
        let got = encode_channel(v) as f64;
        let expect = (v as f64 / 255.0).powf(1.0 / 2.2) * 255.0;
        assert!((got - expect).abs() <= 2.0, "v={} got={} expect={}", v, got, expect);
    }
}

#[test]
fn pixel_buffers_map_every_byte() {
    let src = vec![0u8, 255, 128, 64, 10, 200, 3, 90];
    let dec = decode_pixels(&src);
    assert_eq!(dec.len(), src.len());
    for (i, &v) in src.iter().enumerate() {
        assert_eq!(dec[i], decode_channel(v));
    }
    let enc = encode_pixels(&dec);
    assert_eq!(enc.len(), dec.len());
    for (i, &v) in dec.iter().enumerate() {
        assert_eq!(enc[i], encode_channel(v));
    }
}

#[test]
fn load_export_round_trip_is_stable_at_extremes() {
    // Black and white survive a load/export cycle byte-identically under
    // the one gamma model used at both ends.
    let src = vec![0u8, 0, 0, 255, 255, 255];
    let there = decode_pixels(&src);
    let back = encode_pixels(&there);
    assert_eq!(back, src);
}
