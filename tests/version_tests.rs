use gldevice::version::Version;

fn parts(r: Result<Version, String>) -> Result<(usize, usize, Option<usize>, String), String> {
    r.map(|v| (v.major, v.minor, v.revision, v.vendor_info))
}

fn ok(major: usize, minor: usize, revision: Option<usize>, vendor: &str)
    -> Result<(usize, usize, Option<usize>, String), String> {
    Ok((major, minor, revision, vendor.to_string()))
}

fn err(s: &str) -> Result<(usize, usize, Option<usize>, String), String> {
    Err(s.to_string())
}

#[test]
fn test_version_parse() {
    assert_eq!(parts(Version::parse("1")), err("1"));
    assert_eq!(parts(Version::parse("1.")), err("1."));
    assert_eq!(parts(Version::parse("1 h3l1o. W0rld")), err("1 h3l1o. W0rld"));
    assert_eq!(parts(Version::parse("1. h3l1o. W0rld")), err("1. h3l1o. W0rld"));
    assert_eq!(parts(Version::parse("1.2.3")), ok(1, 2, Some(3), ""));
    assert_eq!(parts(Version::parse("1.2")), ok(1, 2, None, ""));
    assert_eq!(parts(Version::parse("1.2 h3l1o. W0rld")), ok(1, 2, None, "h3l1o. W0rld"));
    assert_eq!(parts(Version::parse("1.2.h3l1o. W0rld")), ok(1, 2, None, "W0rld"));
    assert_eq!(parts(Version::parse("1.2. h3l1o. W0rld")), ok(1, 2, None, "h3l1o. W0rld"));
    assert_eq!(parts(Version::parse("1.2.3.h3l1o. W0rld")), ok(1, 2, Some(3), "W0rld"));
    assert_eq!(parts(Version::parse("1.2.3 h3l1o. W0rld")), ok(1, 2, Some(3), "h3l1o. W0rld"));
}

#[test]
fn parse_rejects_missing_or_malformed_numbers() {
    assert_eq!(parts(Version::parse("")), err(""));
    assert_eq!(parts(Version::parse(" ")), err(" "));
    assert_eq!(parts(Version::parse(".2")), err(".2"));
    assert_eq!(parts(Version::parse("a.2")), err("a.2"));
    assert_eq!(parts(Version::parse("1.b")), err("1.b"));
    assert_eq!(parts(Version::parse("+1.2")), err("+1.2"));
    assert_eq!(parts(Version::parse("1 .2")), err("1 .2"));
    assert_eq!(
        parts(Version::parse("99999999999999999999999.1")),
        err("99999999999999999999999.1")
    );
}

#[test]
fn parse_reads_driver_strings() {
    assert_eq!(
        parts(Version::parse("4.6.0 NVIDIA 535.54.03")),
        ok(4, 6, Some(0), "NVIDIA 535.54.03")
    );
    assert_eq!(parts(Version::parse("4.60 NVIDIA")), ok(4, 60, None, "NVIDIA"));
    assert_eq!(parts(Version::parse("10.20.30.40")), ok(10, 20, Some(30), ""));
    assert_eq!(parts(Version::parse("3.3.x")), ok(3, 3, None, "x"));
    assert_eq!(parts(Version::parse("1.2.x.y")), ok(1, 2, None, "x.y"));
    assert_eq!(parts(Version::parse("1.2.")), ok(1, 2, None, ""));
    assert_eq!(parts(Version::parse("1.2.3.x")), ok(1, 2, Some(3), ""));
    assert_eq!(parts(Version::parse("3.3 ")), ok(3, 3, None, ""));
}

#[test]
fn order_follows_numbers() {
    let a = Version::new(1, 2, None, "");
    let b = Version::new(1, 2, Some(0), "other");
    let c = Version::new(1, 2, Some(1), "");
    let d = Version::new(1, 10, None, "");
    let e = Version::new(2, 0, None, "");
    assert!(a == b);
    assert!(a <= b && a >= b);
    assert!(b < c);
    assert!(c < d);
    assert!(d < e);
    assert!(a < e);
    assert!(e > a);
    assert_eq!(a.partial_cmp(&c), Some(std::cmp::Ordering::Less));
    assert_eq!(e.compare(&d), std::cmp::Ordering::Greater);
}

#[test]
fn order_ignores_vendor_text() {
    let a = Version::new(3, 1, Some(4), "Mesa");
    let b = Version::new(3, 1, Some(4), "NVIDIA");
    assert!(a == b);
    assert_eq!(a.partial_cmp(&b), Some(std::cmp::Ordering::Equal));
}

#[test]
fn at_least_compares_major_then_minor() {
    let v = Version::new(3, 2, Some(9), "");
    assert!(v.at_least(3, 2));
    assert!(v.at_least(3, 0));
    assert!(v.at_least(2, 99));
    assert!(!v.at_least(3, 3));
    assert!(!v.at_least(4, 0));
}
