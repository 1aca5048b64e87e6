use wait_for::target::{
    looks_like_url, parse_port, parse_target, target_from, Target, TargetError,
};

fn host_port(host: &str, port: u16) -> Target {
    Target::HostPort(host.to_string(), port)
}

#[test]
fn host_and_port_are_split_at_the_colon() {
    assert_eq!(parse_target("localhost:8080"), Ok(host_port("localhost", 8080)));
    assert_eq!(parse_target("127.0.0.1:65432"), Ok(host_port("127.0.0.1", 65432)));
    assert_eq!(parse_target("db.internal:5432"), Ok(host_port("db.internal", 5432)));
}

#[test]
fn the_last_colon_is_the_one_that_splits() {
    assert_eq!(parse_target("::1:80"), Ok(host_port("::1", 80)));
    assert_eq!(parse_target("a:b:c:443"), Ok(host_port("a:b:c", 443)));
    assert_eq!(parse_target("[::1]:8080"), Ok(host_port("[::1]", 8080)));
}

#[test]
fn port_bounds() {
    assert_eq!(parse_target("h:0"), Ok(host_port("h", 0)));
    assert_eq!(parse_target("h:65535"), Ok(host_port("h", 65535)));
    assert_eq!(parse_target("h:65536"), Err(TargetError::InvalidPort("65536".to_string())));
    assert_eq!(
        parse_target("h:99999999999999999999999"),
        Err(TargetError::InvalidPort("99999999999999999999999".to_string()))
    );
}

#[test]
fn port_may_have_a_plus_sign_and_leading_zeros() {
    assert_eq!(parse_target("h:+80"), Ok(host_port("h", 80)));
    assert_eq!(parse_target("h:00080"), Ok(host_port("h", 80)));
    assert_eq!(parse_target("h:+"), Err(TargetError::InvalidPort("+".to_string())));
    assert_eq!(parse_target("h:++1"), Err(TargetError::InvalidPort("++1".to_string())));
}

#[test]
fn port_must_be_a_number() {
    assert_eq!(parse_target("host:abc"), Err(TargetError::InvalidPort("abc".to_string())));
    assert_eq!(parse_target("host:"), Err(TargetError::InvalidPort(String::new())));
    assert_eq!(parse_target("host:-1"), Err(TargetError::InvalidPort("-1".to_string())));
    assert_eq!(parse_target("host: 80"), Err(TargetError::InvalidPort(" 80".to_string())));
    assert_eq!(parse_target("host:80 "), Err(TargetError::InvalidPort("80 ".to_string())));
    assert_eq!(parse_target("host:8_0"), Err(TargetError::InvalidPort("8_0".to_string())));
    assert_eq!(parse_target("host:٣"), Err(TargetError::InvalidPort("٣".to_string())));
}

#[test]
fn host_must_not_be_empty() {
    assert_eq!(parse_target(":80"), Err(TargetError::EmptyHost));
    assert_eq!(parse_target(":+0"), Err(TargetError::EmptyHost));
}

#[test]
fn the_port_is_looked_at_before_the_host() {
    assert_eq!(parse_target(":abc"), Err(TargetError::InvalidPort("abc".to_string())));
    assert_eq!(parse_target(":"), Err(TargetError::InvalidPort(String::new())));
}

#[test]
fn no_colon_is_a_format_error() {
    assert_eq!(parse_target("invalid-target"), Err(TargetError::InvalidFormat));
    assert_eq!(parse_target("localhost"), Err(TargetError::InvalidFormat));
    assert_eq!(parse_target(""), Err(TargetError::InvalidFormat));
    assert_eq!(parse_target("8080"), Err(TargetError::InvalidFormat));
}

#[test]
fn urls_are_kept_as_written() {
    assert_eq!(
        parse_target("http://example.com"),
        Ok(Target::Url("http://example.com".to_string()))
    );
    assert_eq!(
        parse_target("https://example.com:8443/health?full=1#top"),
        Ok(Target::Url("https://example.com:8443/health?full=1#top".to_string()))
    );
    assert_eq!(
        parse_target("http://LOCALHOST:3000/Ready"),
        Ok(Target::Url("http://LOCALHOST:3000/Ready".to_string()))
    );
    assert_eq!(
        parse_target("http://127.0.0.1:8080/"),
        Ok(Target::Url("http://127.0.0.1:8080/".to_string()))
    );
}

#[test]
fn malformed_urls_are_rejected_as_urls() {
    assert_eq!(parse_target("http://"), Err(TargetError::InvalidUrl("http://".to_string())));
    assert_eq!(parse_target("https://"), Err(TargetError::InvalidUrl("https://".to_string())));
    assert_eq!(
        parse_target("http://host:notaport/"),
        Err(TargetError::InvalidUrl("http://host:notaport/".to_string()))
    );
    assert_eq!(
        parse_target("https://[::1"),
        Err(TargetError::InvalidUrl("https://[::1".to_string()))
    );
    assert_eq!(
        parse_target("http://exa mple.com"),
        Err(TargetError::InvalidUrl("http://exa mple.com".to_string()))
    );
}

#[test]
fn a_url_that_ends_in_a_port_is_still_a_url() {
    assert_eq!(
        parse_target("http://example.com:80"),
        Ok(Target::Url("http://example.com:80".to_string()))
    );
}

#[test]
fn the_scheme_is_matched_exactly() {
    assert!(looks_like_url("http://x"));
    assert!(looks_like_url("https://x"));
    assert!(looks_like_url("http://"));
    assert!(!looks_like_url("http:/x"));
    assert!(!looks_like_url("http:"));
    assert!(!looks_like_url("HTTP://x"));
    assert!(!looks_like_url(" http://x"));
    assert!(!looks_like_url("ftp://x"));
    assert!(!looks_like_url(""));
    assert_eq!(parse_target("http:80"), Ok(host_port("http", 80)));
    assert_eq!(parse_target("https:443"), Ok(host_port("https", 443)));
    assert_eq!(
        parse_target("HTTP://example.com"),
        Err(TargetError::InvalidPort("//example.com".to_string()))
    );
    assert_eq!(
        parse_target("ftp://example.com:21"),
        Ok(host_port("ftp://example.com", 21))
    );
}

#[test]
fn the_url_verdict_only_counts_for_urls() {
    assert_eq!(target_from("http://x", true), Ok(Target::Url("http://x".to_string())));
    assert_eq!(
        target_from("http://x", false),
        Err(TargetError::InvalidUrl("http://x".to_string()))
    );
    assert_eq!(target_from("x:1", true), Ok(host_port("x", 1)));
    assert_eq!(target_from("x:1", false), Ok(host_port("x", 1)));
    assert_eq!(target_from("x", true), Err(TargetError::InvalidFormat));
}

#[test]
fn hosts_may_hold_any_characters() {
    assert_eq!(parse_target("bücher.example:80"), Ok(host_port("bücher.example", 80)));
    assert_eq!(parse_target("日本語:1"), Ok(host_port("日本語", 1)));
    assert_eq!(parse_target("日本:語"), Err(TargetError::InvalidPort("語".to_string())));
}

#[test]
fn parse_port_reads_what_the_standard_library_reads() {
    let samples = [
        "", "0", "1", "80", "443", "8080", "65535", "65536", "65537", "99999", "100000",
        "000", "0000000000000000000001", "+", "+0", "+80", "+65535", "+65536", "++80", "+-80",
        "-", "-0", "-1", "80+", " 80", "80 ", "8 0", "8_0", "0x50", "80.0", "1e3", "abc", "١٢٣",
        "６５", "80\n", "\t80", "18446744073709551616", "4294967296", "655350", "06553",
    ];
    for sample in samples {
        assert_eq!(parse_port(sample), sample.parse::<u16>().ok(), "for {sample:?}");
    }
}

#[test]
fn parse_port_agrees_with_the_standard_library_on_every_port() {
    let mut port: u32 = 0;
    while port <= 70000 {
        let text = port.to_string();
        assert_eq!(parse_port(&text), text.parse::<u16>().ok());
        port += 1;
    }
}

#[test]
fn labels() {
    assert_eq!(host_port("localhost", 8080).label(), "localhost:8080");
    assert_eq!(host_port("::1", 0).label(), "::1:0");
    assert_eq!(host_port("h", 65535).label(), "h:65535");
    assert_eq!(Target::Url("https://example.com/x".to_string()).label(), "https://example.com/x");
}

#[test]
fn reading_a_label_gives_the_target_back() {
    let targets = [
        host_port("localhost", 8080),
        host_port("127.0.0.1", 1),
        host_port("a:b", 65535),
        host_port("http", 0),
        Target::Url("http://example.com".to_string()),
        Target::Url("https://example.com:8443/path".to_string()),
    ];
    for target in targets {
        assert_eq!(parse_target(&target.label()), Ok(target));
    }
}

#[test]
fn rejections_in_words() {
    assert_eq!(
        TargetError::InvalidFormat.message(),
        "Target must be in format 'host:port' or 'http(s)://...'"
    );
    assert_eq!(
        TargetError::InvalidUrl("http://".to_string()).message(),
        "Invalid URL format: http://"
    );
    assert_eq!(
        TargetError::InvalidPort("abc".to_string()).message(),
        "Invalid port number: abc"
    );
    assert_eq!(TargetError::EmptyHost.message(), "Host cannot be empty");
}
