use storify::size::format_size;

#[test]
fn format_size_small_values_are_bytes() {
    assert_eq!(format_size(0), "0B");
    assert_eq!(format_size(1), "1B");
    assert_eq!(format_size(1023), "1023B");
}

#[test]
fn format_size_scaled_values_have_one_decimal() {
    assert_eq!(format_size(1024), "1.0K");
    assert_eq!(format_size(1536), "1.5K");
    assert_eq!(format_size(1048576), "1.0M");
    assert_eq!(format_size(1073741824), "1.0G");
    assert_eq!(format_size(1099511627776), "1.0T");
    assert_eq!(format_size(3051), "3.0K");
    assert_eq!(format_size(10 * 1024 * 1024), "10.0M");
}

#[test]
fn format_size_rounds_to_nearest_tenth() {
    assert_eq!(format_size(1075), "1.0K");
    assert_eq!(format_size(1076), "1.1K");
    assert_eq!(format_size(1048575), "1024.0K");
    assert_eq!(format_size(1280), "1.2K");
    assert_eq!(format_size(1792), "1.8K");
}

#[test]
fn format_size_stays_in_the_last_unit() {
    assert_eq!(format_size(1125899906842624), "1024.0T");
    assert_eq!(format_size(u64::MAX), "16777216.0T");
}
