use system_benchmark::decimal::Decimal;
use system_benchmark::decimal::Figure;

fn number(negative: bool, digits: u128, scale: u8) -> Figure {
    Figure::Number(Decimal { negative, digits, scale })
}

#[test]
fn whole_numbers_are_read() {
    assert_eq!(Figure::parse("0"), Some(number(false, 0, 0)));
    assert_eq!(Figure::parse("7"), Some(number(false, 7, 0)));
    assert_eq!(Figure::parse("50"), Some(number(false, 50, 0)));
    assert_eq!(Figure::parse("1234567890"), Some(number(false, 1_234_567_890, 0)));
}

#[test]
fn digits_behind_the_point_are_counted() {
    assert_eq!(Figure::parse("87.5"), Some(number(false, 875, 1)));
    assert_eq!(Figure::parse("57.25"), Some(number(false, 5_725, 2)));
    assert_eq!(Figure::parse("0.05"), Some(number(false, 5, 2)));
    assert_eq!(Figure::parse("0.000001"), Some(number(false, 1, 6)));
    assert_eq!(Figure::parse("1.50"), Some(number(false, 150, 2)));
    assert_eq!(Figure::parse("10.0"), Some(number(false, 100, 1)));
}

#[test]
fn a_minus_sign_makes_the_figure_negative() {
    assert_eq!(Figure::parse("-1.5"), Some(number(true, 15, 1)));
    assert_eq!(Figure::parse("-0"), Some(number(true, 0, 0)));
    assert_eq!(Figure::parse("-12"), Some(number(true, 12, 0)));
}

#[test]
fn what_is_no_number_is_read_by_its_name() {
    assert_eq!(Figure::parse("NaN"), Some(Figure::NotANumber));
    assert_eq!(Figure::parse("inf"), Some(Figure::Infinite { negative: false }));
    assert_eq!(Figure::parse("-inf"), Some(Figure::Infinite { negative: true }));
}

#[test]
fn what_is_no_figure_is_not_read() {
    for text in [
        "", "-", ".", "1.", ".5", "-.5", "1..2", "1.2.3", "+1", "1e5", "1,5", " 1", "1 ", "007",
        "00", "01.5", "--1", "-inf ", "nan", "Inf", "infinity", "1.5x", "x", "٣", "1.٣",
    ] {
        assert_eq!(Figure::parse(text), None, "{:?}", text);
    }
}

#[test]
fn numbers_beyond_128_bits_are_not_read() {
    let largest = u128::MAX.to_string();
    assert_eq!(Figure::parse(&largest), Some(number(false, u128::MAX, 0)));
    assert_eq!(Figure::parse("340282366920938463463374607431768211456"), None);
    assert_eq!(Figure::parse("3402823669209384634633746074317682114550"), None);
    assert_eq!(Figure::parse("34028236692093846346337460743176821145.60"), None);
    assert_eq!(
        Figure::parse("3402823669209384634633746074317682114.55"),
        Some(number(false, u128::MAX, 2))
    );
}

#[test]
fn more_digits_behind_the_point_than_a_scale_counts_are_not_read() {
    let fits = format!("0.{}1", "0".repeat(254));
    assert_eq!(Figure::parse(&fits), Some(number(false, 1, 255)));
    let too_long = format!("0.{}1", "0".repeat(255));
    assert_eq!(Figure::parse(&too_long), None);
}

#[test]
fn figures_are_written_with_their_point() {
    let text = |negative, digits, scale| Decimal { negative, digits, scale }.to_text();
    assert_eq!(text(false, 50, 0), "50");
    assert_eq!(text(false, 875, 1), "87.5");
    assert_eq!(text(false, 5, 2), "0.05");
    assert_eq!(text(false, 0, 0), "0");
    assert_eq!(text(false, 0, 3), "0.000");
    assert_eq!(text(true, 15, 1), "-1.5");
    assert_eq!(text(true, 0, 0), "-0");
    assert_eq!(text(false, 150, 2), "1.50");
    assert_eq!(text(false, 1, 45), format!("0.{}1", "0".repeat(44)));
    assert_eq!(text(false, u128::MAX, 0), u128::MAX.to_string());
    assert_eq!(Figure::NotANumber.to_text(), "NaN");
    assert_eq!(Figure::Infinite { negative: false }.to_text(), "inf");
    assert_eq!(Figure::Infinite { negative: true }.to_text(), "-inf");
    assert_eq!(number(false, 6_025, 2).to_text(), "60.25");
}

#[test]
fn every_float_is_read_and_written_back_as_it_shows_itself() {
    let mut samples: Vec<f32> = vec![
        0.0,
        -0.0,
        1.0,
        50.0,
        60.0,
        87.5,
        57.25,
        0.1,
        99.99,
        f32::MAX,
        f32::MIN,
        f32::MIN_POSITIVE,
        f32::EPSILON,
        f32::from_bits(1),
        f32::from_bits(0x007F_FFFF),
        f32::NAN,
        f32::INFINITY,
        f32::NEG_INFINITY,
        1e-10,
        123456.79,
        16_777_216.0,
    ];
    let mut state: u32 = 0x9E37_79B9;
    for _ in 0..20_000 {
        state ^= state << 13;
        state ^= state >> 17;
        state ^= state << 5;
        samples.push(f32::from_bits(state));
    }
    for value in samples {
        let shown = value.to_string();
        let figure = Figure::parse(&shown).expect("every float shows itself as a figure");
        assert_eq!(figure.to_text(), shown);
        if figure.to_text() != "NaN" {
            let back: f32 = figure.to_text().parse().unwrap();
            assert_eq!(back.to_bits(), value.to_bits());
        }
    }
}
