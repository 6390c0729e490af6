use microlane::config::{decimal_string, parse_buffer_size, parse_usize};

#[test]
fn buffer_sizes_of_at_least_512_are_accepted() {
    assert_eq!(parse_buffer_size("2048"), Ok(2048));
    assert_eq!(parse_buffer_size("512"), Ok(512));
    assert_eq!(parse_buffer_size("+4096"), Ok(4096));
    assert_eq!(parse_buffer_size("0000600"), Ok(600));
}

#[test]
fn buffer_sizes_under_512_are_refused_with_the_size() {
    assert_eq!(
        parse_buffer_size("511"),
        Err("recv-buffer-size must be at least 512 bytes (got 511)".to_string())
    );
    assert_eq!(
        parse_buffer_size("0"),
        Err("recv-buffer-size must be at least 512 bytes (got 0)".to_string())
    );
}

#[test]
fn text_that_is_not_a_number_is_refused() {
    assert_eq!(parse_buffer_size("abc"), Err("'abc' is not a valid number".to_string()));
    assert_eq!(parse_buffer_size(""), Err("'' is not a valid number".to_string()));
    assert_eq!(parse_buffer_size("-512"), Err("'-512' is not a valid number".to_string()));
    assert_eq!(parse_buffer_size(" 512"), Err("' 512' is not a valid number".to_string()));
    assert_eq!(parse_buffer_size("+"), Err("'+' is not a valid number".to_string()));
    assert_eq!(parse_buffer_size("1_024"), Err("'1_024' is not a valid number".to_string()));
}

#[test]
fn numbers_too_large_for_usize_are_refused() {
    let too_big = "99999999999999999999999999";
    assert_eq!(parse_buffer_size(too_big), Err(format!("'{}' is not a valid number", too_big)));
}

#[test]
fn parse_usize_agrees_with_std() {
    for s in ["0", "7", "+7", "-7", "", "+", "12a", "18446744073709551615", "18446744073709551616", "٣", "00"] {
        assert_eq!(parse_usize(s), s.parse::<usize>().ok(), "text {:?}", s);
    }
}

#[test]
fn decimal_string_agrees_with_display() {
    for n in [0usize, 9, 10, 511, 1000, usize::MAX] {
        assert_eq!(decimal_string(n), n.to_string());
    }
}
