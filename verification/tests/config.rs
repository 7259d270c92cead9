use japanese_address_parser_api::config::{
    deadline_ms, listen_address, listen_port, max_request_size, parse_bounded,
    request_timeout_secs, DEFAULT_MAX_REQUEST_SIZE, DEFAULT_PORT, DEFAULT_REQUEST_TIMEOUT_SECS,
};

#[test]
fn defaults() {
    assert_eq!(DEFAULT_REQUEST_TIMEOUT_SECS, 30);
    assert_eq!(DEFAULT_MAX_REQUEST_SIZE, 1024 * 1024);
    assert_eq!(DEFAULT_PORT, 3000);
    assert_eq!(request_timeout_secs(None), 30);
    assert_eq!(max_request_size(None), 1_048_576);
    assert_eq!(listen_port(None), Some(3000));
    assert_eq!(listen_address(None, 3000), "0.0.0.0:3000");
}

#[test]
fn numbers_parse_as_std_parses_them() {
    let samples = [
        "", "+", "-", "0", "+0", "-0", "7", "007", "+42", "++42", "4 2", " 42", "42 ", "4_2",
        "0x10", "٣", "１２", "18446744073709551615", "18446744073709551616",
        "99999999999999999999999", "+18446744073709551615", "1e3", "12a", "a12",
    ];
    for sample in samples {
        assert_eq!(parse_bounded(sample, u64::MAX), sample.parse::<u64>().ok(), "{:?}", sample);
        assert_eq!(
            parse_bounded(sample, u16::MAX as u64),
            sample.parse::<u16>().ok().map(u64::from),
            "{:?}",
            sample
        );
    }
    assert_eq!(parse_bounded("65535", 65535), Some(65535));
    assert_eq!(parse_bounded("65536", 65535), None);
    assert_eq!(parse_bounded("0", 0), Some(0));
    assert_eq!(parse_bounded("1", 0), None);
    assert_eq!(parse_bounded("10", 9), None);
    assert_eq!(parse_bounded("9", 9), Some(9));
}

#[test]
fn settings_fall_back_to_the_default() {
    assert_eq!(request_timeout_secs(Some("5")), 5);
    assert_eq!(request_timeout_secs(Some("0")), 0);
    assert_eq!(request_timeout_secs(Some("five")), 30);
    assert_eq!(request_timeout_secs(Some("")), 30);
    assert_eq!(request_timeout_secs(Some("-1")), 30);
    assert_eq!(request_timeout_secs(Some("18446744073709551616")), 30);
    assert_eq!(max_request_size(Some("2048")), 2048);
    assert_eq!(max_request_size(Some("2k")), 1_048_576);
}

#[test]
fn port_must_be_a_number_of_16_bits() {
    assert_eq!(listen_port(Some("8080")), Some(8080));
    assert_eq!(listen_port(Some("65535")), Some(65535));
    assert_eq!(listen_port(Some("65536")), None);
    assert_eq!(listen_port(Some("http")), None);
    assert_eq!(listen_port(Some("")), None);
}

#[test]
fn listen_address_joins_host_and_port() {
    assert_eq!(listen_address(Some("127.0.0.1"), 8080), "127.0.0.1:8080");
    assert_eq!(listen_address(Some("localhost"), 0), "localhost:0");
    assert_eq!(listen_address(None, 65535), "0.0.0.0:65535");
}

#[test]
fn deadline_in_milliseconds() {
    assert_eq!(deadline_ms(30), 30_000);
    assert_eq!(deadline_ms(0), 0);
    assert_eq!(deadline_ms(u64::MAX / 1000), u64::MAX / 1000 * 1000);
    assert_eq!(deadline_ms(u64::MAX / 1000 + 1), u64::MAX);
    assert_eq!(deadline_ms(u64::MAX), u64::MAX);
}
