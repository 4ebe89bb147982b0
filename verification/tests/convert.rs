use music_player::frame::convert_sample;
use music_player::frame::FIXED_LIMIT;
use music_player::frame::ROUNDING_BIAS;
use music_player::frame::SCALE_SHIFT;
use music_player::frame::SCALE_STEP;

#[test]
fn silence_converts_to_zero() {
    assert_eq!(convert_sample(0), 0);
}

#[test]
fn bias_is_half_of_the_smallest_step() {
    assert_eq!(SCALE_STEP, 1 << SCALE_SHIFT);
    assert_eq!(ROUNDING_BIAS * 2, SCALE_STEP);
}

#[test]
fn conversion_rounds_to_nearest_step() {
    // Half a step below one step rounds up, one unit less rounds down.
    assert_eq!(convert_sample(4096), 1);
    assert_eq!(convert_sample(4095), 0);
    assert_eq!(convert_sample(-4096), 0);
    assert_eq!(convert_sample(-4097), -1);
    assert_eq!(convert_sample(8192), 1);
    assert_eq!(convert_sample(12288), 2);
    assert_eq!(convert_sample(12287), 1);
}

#[test]
fn conversion_follows_the_formula() {
    // (raw + 4096) / 8192, rounded toward minus infinity.
    assert_eq!(convert_sample(0x0800_0000), 16384);
    assert_eq!(convert_sample(-0x0800_0000), -16384);
    assert_eq!(convert_sample(123_456_789), 15070);
    assert_eq!(convert_sample(-123_456_789), -15070);
    assert_eq!(convert_sample(81_920_000), 10000);
}

#[test]
fn full_scale_clips_to_the_ends_of_the_range() {
    assert_eq!(convert_sample(FIXED_LIMIT), i16::MAX);
    assert_eq!(convert_sample(-FIXED_LIMIT), i16::MIN);
    assert_eq!(convert_sample(0x1000_0000), i16::MAX);
    assert_eq!(convert_sample(-0x1000_0000), i16::MIN);
    assert_eq!(convert_sample(i32::MAX), i16::MAX);
    assert_eq!(convert_sample(i32::MIN), i16::MIN);
}

#[test]
fn values_just_inside_full_scale_are_not_clipped_early() {
    // The largest input that still rounds to 32766.
    assert_eq!(convert_sample(32766 * 8192 + 4095), 32766);
    assert_eq!(convert_sample(32766 * 8192 + 4096), 32767);
    assert_eq!(convert_sample(-32767 * 8192 - 4096), -32767);
    assert_eq!(convert_sample(-32767 * 8192 - 4097), -32768);
}

#[test]
fn conversion_never_decreases() {
    let mut previous = convert_sample(-0x1100_0000);
    let mut raw: i32 = -0x1100_0000;
    while raw < 0x1100_0000 {
        let converted = convert_sample(raw);
        assert!(previous <= converted);
        previous = converted;
        raw += 65_537;
    }
}
