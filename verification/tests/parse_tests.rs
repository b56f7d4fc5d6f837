use teledash::panels::Fan;
use teledash::parse::{
    find_first, find_last, parse_centi, parse_mem_pair, parse_millidegrees, parse_u64,
    sensor_dir_of_name_line,
};

#[test]
fn parses_plain_decimals() {
    assert_eq!(parse_u64(b"0"), Some(0));
    assert_eq!(parse_u64(b"1234"), Some(1234));
    assert_eq!(parse_u64(b"007"), Some(7));
}

#[test]
fn rejects_empty_and_non_digits() {
    assert_eq!(parse_u64(b""), None);
    assert_eq!(parse_u64(b"12a"), None);
    assert_eq!(parse_u64(b" 12"), None);
    assert_eq!(parse_u64(b"-5"), None);
}

#[test]
fn accepts_u64_max_and_rejects_one_more() {
    assert_eq!(parse_u64(b"18446744073709551615"), Some(u64::MAX));
    assert_eq!(parse_u64(b"18446744073709551616"), None);
    assert_eq!(parse_u64(b"99999999999999999999999"), None);
}

#[test]
fn parses_fixed_point_frequencies() {
    assert_eq!(parse_centi(b"3.20"), Some(320));
    assert_eq!(parse_centi(b"0.99"), Some(99));
    assert_eq!(parse_centi(b"12.05"), Some(1205));
}

#[test]
fn rejects_malformed_fixed_point() {
    assert_eq!(parse_centi(b"3.2"), None);
    assert_eq!(parse_centi(b"3.201"), None);
    assert_eq!(parse_centi(b".20"), None);
    assert_eq!(parse_centi(b"3"), None);
    assert_eq!(parse_centi(b"3..0"), None);
    assert_eq!(parse_centi(b"a.bc"), None);
}

#[test]
fn parses_memory_line() {
    assert_eq!(parse_mem_pair(b"15876 8123"), Some((15876, 8123)));
    assert_eq!(parse_mem_pair(b"1 2"), Some((1, 2)));
}

#[test]
fn rejects_malformed_memory_line() {
    assert_eq!(parse_mem_pair(b"15876"), None);
    assert_eq!(parse_mem_pair(b" 8123"), None);
    assert_eq!(parse_mem_pair(b"15876 "), None);
    assert_eq!(parse_mem_pair(b"a b"), None);
}

#[test]
fn scales_millidegrees_to_degrees() {
    assert_eq!(parse_millidegrees(b"45123"), Some(45));
    assert_eq!(parse_millidegrees(b"999"), Some(0));
    assert_eq!(parse_millidegrees(b"x"), None);
}

#[test]
fn finds_first_occurrence_only() {
    assert_eq!(find_first(b"a.b.c", b'.'), Some(1));
    assert_eq!(find_first(b"abc", b'.'), None);
}

#[test]
fn finds_last_occurrence_only() {
    assert_eq!(find_last(b"a.b.c", b'.'), Some(3));
    assert_eq!(find_last(b"abc", b'.'), None);
}

#[test]
fn extracts_sensor_directory_from_name_line() {
    assert_eq!(
        sensor_dir_of_name_line(b"/sys/class/hwmon/hwmon5/name:k10temp"),
        Some(b"/sys/class/hwmon/hwmon5".to_vec())
    );
    assert_eq!(sensor_dir_of_name_line(b"no colon here"), None);
    assert_eq!(sensor_dir_of_name_line(b"name:k10temp"), None);
    assert_eq!(sensor_dir_of_name_line(b""), None);
}

#[test]
fn fan_target_is_clamped_to_hardware_maximum() {
    assert_eq!(Fan::clamp_target(5000, 4000), 4000);
    assert_eq!(Fan::clamp_target(3000, 4000), 3000);
    assert_eq!(Fan::clamp_target(4000, 4000), 4000);
}
