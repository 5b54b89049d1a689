use orx_criterion::estimate::{get_slope_point_estimate, Estimate};
use orx_criterion::search::find;

fn parsed(contents: &str) -> Option<f64> {
    let text = get_slope_point_estimate(contents.as_bytes())?;
    std::str::from_utf8(text).ok()?.parse().ok()
}

const WITH_SLOPE: &str = "{\"mean\":{\"confidence_interval\":{\"confidence_level\":0.95,\"lower_bound\":16.9,\"upper_bound\":18.4},\"point_estimate\":17.9,\"standard_error\":0.3},\"median\":{\"confidence_interval\":{\"confidence_level\":0.95,\"lower_bound\":17.1,\"upper_bound\":17.7},\"point_estimate\":17.3,\"standard_error\":0.1},\"slope\":{\"confidence_interval\":{\"confidence_level\":0.95,\"lower_bound\":17.2,\"upper_bound\":17.9},\"point_estimate\":17.5,\"standard_error\":0.2},\"std_dev\":{\"point_estimate\":1.5,\"standard_error\":0.4}}";

const WITHOUT_SLOPE: &str = "{\"mean\":{\"confidence_interval\":{\"confidence_level\":0.95,\"lower_bound\":41.0,\"upper_bound\":43.0},\"point_estimate\":42.0,\"standard_error\":0.5},\"median\":{\"confidence_interval\":{\"confidence_level\":0.95,\"lower_bound\":40.0,\"upper_bound\":41.5},\"point_estimate\":40.7,\"standard_error\":0.4},\"slope\":null,\"std_dev\":{\"point_estimate\":2.5,\"standard_error\":0.4}}";

#[test]
fn estimate_is_taken_from_the_slope() {
    assert_eq!(parsed(WITH_SLOPE), Some(17.5));
    assert_eq!(
        get_slope_point_estimate(WITH_SLOPE.as_bytes()),
        Some("17.5".as_bytes())
    );
}

#[test]
fn estimate_falls_back_to_the_mean_where_the_slope_is_null() {
    assert_eq!(parsed(WITHOUT_SLOPE), Some(42.0));
    assert_eq!(
        get_slope_point_estimate(WITHOUT_SLOPE.as_bytes()),
        Some("42.0".as_bytes())
    );
}

#[test]
fn short_statistics_of_either_kind() {
    assert_eq!(
        parsed("\"slope\":null,\"mean\":{\"point_estimate\":42.0,\"standard_error\":1.0}"),
        Some(42.0)
    );
    assert_eq!(
        parsed("\"slope\":{\"point_estimate\":17.5,\"standard_error\":1.0}"),
        Some(17.5)
    );
}

#[test]
fn statistics_without_the_fields_give_nothing() {
    assert_eq!(get_slope_point_estimate(b""), None);
    assert_eq!(get_slope_point_estimate(b"{}"), None);
    assert_eq!(get_slope_point_estimate(b"\"mean\":{\"point_estimate\":42.0,}"), None);
    assert_eq!(get_slope_point_estimate(b"\"slope\":{\"standard_error\":1.0,}"), None);
    assert_eq!(get_slope_point_estimate(b"\"slope\":null"), None);
    assert_eq!(get_slope_point_estimate(b"\"slope\":null,\"median\":{\"point_estimate\":1.0,}"), None);
}

#[test]
fn estimate_without_a_comma_behind_it_gives_nothing() {
    assert_eq!(get_slope_point_estimate(b"\"slope\":{\"point_estimate\":17.5}"), None);
}

#[test]
fn text_that_is_no_number_is_handed_out_as_it_stands() {
    let contents = "\"slope\":{\"point_estimate\":fast,\"standard_error\":1.0}";
    assert_eq!(
        get_slope_point_estimate(contents.as_bytes()),
        Some("fast".as_bytes())
    );
    assert_eq!(parsed(contents), None);
    let contents = "\"slope\":{\"point_estimate\":17.5},\"x\":1";
    assert_eq!(
        get_slope_point_estimate(contents.as_bytes()),
        Some("17.5}".as_bytes())
    );
    assert_eq!(parsed(contents), None);
}

#[test]
fn empty_estimate_is_empty_text() {
    assert_eq!(
        get_slope_point_estimate(b"\"slope\":{\"point_estimate\":,"),
        Some("".as_bytes())
    );
}

#[test]
fn the_point_estimate_is_looked_for_behind_the_field() {
    let contents = "\"point_estimate\":1.0,\"slope\":{\"point_estimate\":2.0,}";
    assert_eq!(parsed(contents), Some(2.0));
}

#[test]
fn find_gives_the_first_match() {
    assert_eq!(find(b"abcabc", b"bc"), Some(1));
    assert_eq!(find(b"abcabc", b"abc"), Some(0));
    assert_eq!(find(b"abcabc", b"cab"), Some(2));
    assert_eq!(find(b"aaab", b"aab"), Some(1));
    assert_eq!(find(b"abc", b"abc"), Some(0));
}

#[test]
fn find_without_a_match() {
    assert_eq!(find(b"abcabc", b"cb"), None);
    assert_eq!(find(b"abc", b"abcd"), None);
    assert_eq!(find(b"", b"a"), None);
}

#[test]
fn find_of_the_empty_pattern() {
    assert_eq!(find(b"abc", b""), Some(0));
    assert_eq!(find(b"", b""), Some(0));
}

#[test]
fn estimates_are_shown_in_whole_nanoseconds() {
    assert_eq!(Estimate { femtos: 0 }.nanos_text(), "0");
    assert_eq!(Estimate { femtos: 95_000_000 }.nanos_text(), "95");
    assert_eq!(Estimate { femtos: 95_499_999 }.nanos_text(), "95");
    assert_eq!(Estimate { femtos: 95_500_001 }.nanos_text(), "96");
    assert_eq!(Estimate { femtos: 499_999 }.nanos_text(), "0");
    assert_eq!(Estimate { femtos: 17_500_000_000 }.nanos_text(), "17500");
}

#[test]
fn estimates_halfway_go_to_the_even_nanosecond() {
    assert_eq!(Estimate { femtos: 500_000 }.nanos_text(), "0");
    assert_eq!(Estimate { femtos: 1_500_000 }.nanos_text(), "2");
    assert_eq!(Estimate { femtos: 2_500_000 }.nanos_text(), "2");
    assert_eq!(Estimate { femtos: 95_500_000 }.nanos_text(), "96");
    assert_eq!(Estimate { femtos: 94_500_000 }.nanos_text(), "94");
}

#[test]
fn largest_estimate_is_shown() {
    assert_eq!(Estimate { femtos: u64::MAX }.nanos_text(), "18446744073710");
}

#[test]
fn rounding_agrees_with_the_formatting_of_floats() {
    for femtos in [0u64, 499_999, 500_000, 1_500_000, 2_500_000, 94_500_000, 95_500_000] {
        let nanos = femtos as f64 / 1e6;
        assert_eq!(Estimate { femtos }.nanos_text(), format!("{nanos:.0}"));
    }
}
