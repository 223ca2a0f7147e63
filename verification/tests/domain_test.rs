fn v(d: &str) {
    assert!(sidedns_core::validate_domain(d), "'{d}' should be valid");
}
fn i(d: &str) {
    assert!(!sidedns_core::validate_domain(d), "'{d}' should be invalid");
}

#[test]
fn localhost() {
    v("localhost");
}
#[test]
fn single_label() {
    i("api");
}
#[test]
fn two_labels() {
    v("api.local");
}
#[test]
fn three_labels() {
    v("a.b.local");
}
#[test]
fn digits() {
    v("api2.local");
}
#[test]
fn hyphen() {
    v("my-api.local");
}
#[test]
fn uppercase() {
    v("API.LOCAL");
}
#[test]
fn mixed_case() {
    v("Api.Local");
}
#[test]
fn wildcard_one() {
    i("*.local");
}
#[test]
fn wildcard_two() {
    v("*.api.local");
}
#[test]
fn wildcard_tld() {
    v("*.example.com");
}

#[test]
fn empty() {
    i("");
}
#[test]
fn only_dot() {
    i(".");
}
#[test]
fn leading_dot() {
    i(".api.local");
}
#[test]
fn trailing_dot() {
    i("api.local.");
}
#[test]
fn double_dot() {
    i("api..local");
}
#[test]
fn leading_hyphen() {
    i("-api.local");
}
#[test]
fn trailing_hyphen() {
    i("api-.local");
}
#[test]
fn space() {
    i("api local");
}
#[test]
fn at_sign() {
    i("user@host.local");
}
#[test]
fn slash() {
    i("api/local");
}
#[test]
fn backslash() {
    i("api\\local");
}
#[test]
fn colon() {
    i("api:local");
}
#[test]
fn underscore() {
    i("my_api.local");
}
#[test]
fn bare_star() {
    i("*");
}
#[test]
fn star_no_dot() {
    i("*local");
}
#[test]
fn double_star() {
    i("**.local");
}
#[test]
fn star_middle() {
    i("api.*.local");
}
#[test]
fn star_dot_star() {
    i("*.*.local");
}
#[test]
fn exclamation() {
    i("api!.local");
}

// Agreement with the original regular expression on a range of inputs.
fn pattern() -> regex::Regex {
    regex::Regex::new(
        r"(?i)^(?:localhost|(?:\*\.)?(?:[a-z0-9](?:[a-z0-9-]{0,61}[a-z0-9])?\.)+[a-z]{2,63})$",
    )
    .unwrap()
}

fn agrees(d: &str) {
    let expected = d.len() < 253 && pattern().is_match(d);
    assert_eq!(sidedns_core::validate_domain(d), expected, "disagreement on {d:?}");
}

#[test]
fn agrees_with_regex_on_samples() {
    for d in [
        "localhost", "LOCALHOST", "LocalHost", "localhost.", "localhos", "localhostt",
        "loca\u{17f}host", "a.bc", "a.b", "a.b1", "1.ab", "-a.ab", "a-.ab", "a--b.ab",
        "*.a.bc", "*.a.b", "*a.bc", "a*.bc", "*.*.bc", "\u{212a}.bc", "k.\u{212a}\u{212a}",
        "x.\u{17f}\u{17f}", "\u{e9}.bc", "a..bc", ".a.bc", "a.bc.", "", ".", "*.", "*",
        "a_b.cd", "a.b-c", "a.b.c.d.ef", "0.00", "0.0a", "aa", "a b.cd", "a.BC", "A.bc",
    ] {
        agrees(d);
    }
}

#[test]
fn agrees_with_regex_on_lengths() {
    let l63 = "a".repeat(63);
    let l64 = "a".repeat(64);
    for d in [
        format!("{l63}.com"),
        format!("{l64}.com"),
        format!("a.{}", "b".repeat(63)),
        format!("a.{}", "b".repeat(64)),
        format!("{l63}.{l63}.{l63}.abc"),
        format!("{l63}.{l63}.{l63}.{}", "b".repeat(60)),
        format!("{l63}.{l63}.{l63}.{}", "b".repeat(61)),
        format!("{l63}.{l63}.{}.ab", "\u{17f}".repeat(10)),
    ] {
        agrees(&d);
    }
}

#[test]
fn length_limit_counts_bytes() {
    // 252 bytes is accepted, 253 is not.
    let ok = format!("{}.{}.{}.{}", "a".repeat(63), "a".repeat(63), "a".repeat(63), "b".repeat(60));
    assert_eq!(ok.len(), 252);
    assert!(sidedns_core::validate_domain(&ok));
    let long = format!("{}.{}.{}.{}", "a".repeat(63), "a".repeat(63), "a".repeat(63), "b".repeat(61));
    assert_eq!(long.len(), 253);
    assert!(!sidedns_core::validate_domain(&long));
}
