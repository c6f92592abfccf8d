use rusty_php::builder::{builder, parse_isize, Builder, Version};

#[test]
fn version_renders_dotted_decimal() {
    assert_eq!(Version::new(8, 2, 4).to_string(), "8.2.4");
    assert_eq!(Version::new(0, 0, 0).to_string(), "0.0.0");
    assert_eq!(Version::new(10, 123, 4567).to_string(), "10.123.4567");
    assert_eq!(Version::new(-1, 0, 3).to_string(), "-1.0.3");
}

#[test]
fn version_tag_prefixes_the_tree_name() {
    assert_eq!(Version::new(8, 2, 4).tag(), "php-8.2.4");
    assert_eq!(Version::new(7, 4, 33).tag(), "php-7.4.33");
}

#[test]
fn version_parse_reads_three_parts() {
    let v = Version::parse(b"8.2.4").unwrap();
    assert_eq!(v, Version::new(8, 2, 4));
    assert_eq!(Version::parse(b"0.10.0").unwrap(), Version::new(0, 10, 0));
    assert_eq!(Version::parse(b"-1.-2.-3").unwrap(), Version::new(-1, -2, -3));
}

#[test]
fn version_parse_round_trips_the_rendering() {
    let v = Version::new(8, 2, 4);
    assert_eq!(Version::parse(v.to_string().as_bytes()).unwrap(), v);
}

#[test]
fn version_parse_rejects_wrong_shapes() {
    assert!(Version::parse(b"").is_none());
    assert!(Version::parse(b"8").is_none());
    assert!(Version::parse(b"8.2").is_none());
    assert!(Version::parse(b"8.2.4.1").is_none());
    assert!(Version::parse(b"a.b.c").is_none());
    assert!(Version::parse(b"8..4").is_none());
    assert!(Version::parse(b"8.2.").is_none());
    assert!(Version::parse(b".2.4").is_none());
}

#[test]
fn parse_isize_reads_signed_decimals() {
    assert_eq!(parse_isize(b"0"), Some(0));
    assert_eq!(parse_isize(b"123"), Some(123));
    assert_eq!(parse_isize(b"-123"), Some(-123));
    assert_eq!(parse_isize(b"007"), Some(7));
    assert_eq!(parse_isize(b"9223372036854775807"), Some(isize::MAX));
    assert_eq!(parse_isize(b"-9223372036854775808"), Some(isize::MIN));
}

#[test]
fn parse_isize_rejects_malformed_and_overflowing_input() {
    assert!(parse_isize(b"").is_none());
    assert!(parse_isize(b"-").is_none());
    assert!(parse_isize(b"12a").is_none());
    assert!(parse_isize(b" 12").is_none());
    assert!(parse_isize(b"9223372036854775808").is_none());
    assert!(parse_isize(b"-9223372036854775809").is_none());
}

#[test]
fn builder_defaults() {
    let b = Builder::new();
    assert_eq!(b.version, Version::new(8, 2, 4));
    assert_eq!(b.arguments, vec!["--disable-all".to_string(), "--disable-cgi".to_string()]);
    let f = builder();
    assert_eq!(f.version, b.version);
    assert_eq!(f.arguments, b.arguments);
}

#[test]
fn builder_adjustments() {
    let b = Builder::new().with_version(Version::new(8, 3, 0));
    assert_eq!(b.version, Version::new(8, 3, 0));
    assert_eq!(b.arguments.len(), 2);

    let b = b.without_default_arguments();
    assert!(b.arguments.is_empty());

    let b = b.with_argument("--enable-debug".to_string());
    assert_eq!(b.arguments, vec!["--enable-debug".to_string()]);

    let b = b.with_arguments(vec!["--with-zlib".to_string(), "--with-ssl".to_string()]);
    assert_eq!(
        b.arguments,
        vec![
            "--enable-debug".to_string(),
            "--with-zlib".to_string(),
            "--with-ssl".to_string(),
        ]
    );
}

#[test]
fn cache_key_renders_version_and_arguments() {
    assert_eq!(
        Builder::new().cache_key(),
        "version=8.2.4;arguments=--disable-all,--disable-cgi"
    );
    assert_eq!(
        Builder::new().without_default_arguments().cache_key(),
        "version=8.2.4;arguments="
    );
    assert_eq!(
        Builder::new()
            .with_version(Version::new(8, 3, 1))
            .without_default_arguments()
            .with_argument("--enable-debug".to_string())
            .cache_key(),
        "version=8.3.1;arguments=--enable-debug"
    );
}
