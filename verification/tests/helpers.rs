use system_benchmark::helpers::bytes_to_megabytes;

fn by_floating_point(bytes: u64) -> u64 {
    (bytes as f64 / 1_048_576.0).round() as u64
}

#[test]
fn whole_megabytes_convert_exactly() {
    assert_eq!(bytes_to_megabytes(0), 0);
    assert_eq!(bytes_to_megabytes(1_048_576), 1);
    assert_eq!(bytes_to_megabytes(16 * 1_073_741_824), 16_384);
}

#[test]
fn halves_round_up() {
    assert_eq!(bytes_to_megabytes(524_287), 0);
    assert_eq!(bytes_to_megabytes(524_288), 1);
    assert_eq!(bytes_to_megabytes(1_572_863), 1);
    assert_eq!(bytes_to_megabytes(1_572_864), 2);
}

#[test]
fn agrees_with_floating_point_conversion() {
    let mut samples: Vec<u64> = vec![
        0,
        1,
        524_287,
        524_288,
        1_048_575,
        1_048_577,
        (1 << 53) - 1,
        1 << 53,
        (1 << 53) + 1,
        (1 << 53) + 524_287,
        (1 << 60) + 524_287,
        (1 << 60) + 524_289,
        (1 << 63) + 523_776,
        (1 << 63) + 524_287,
        u64::MAX - 1,
        u64::MAX,
    ];
    let mut state: u64 = 0x9E37_79B9_7F4A_7C15;
    for _ in 0..20_000 {
        state ^= state << 13;
        state ^= state >> 7;
        state ^= state << 17;
        samples.push(state);
        samples.push(state >> 9);
        samples.push((state & !0xF_FFFF) | 0x7_FFFF);
        samples.push((state & !0xF_FFFF) | 0x8_0000);
        samples.push((state & !0xF_FFFF) | 0x7_FC00);
    }
    for bytes in samples {
        assert_eq!(bytes_to_megabytes(bytes), by_floating_point(bytes), "bytes = {}", bytes);
    }
}
