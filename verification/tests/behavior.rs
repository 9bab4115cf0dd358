use semver_lite::parse;
use semver_lite::satisfies;
use semver_lite::Error;
use semver_lite::ParseError;
use semver_lite::Version;

#[test]
fn parse_round_trips_components() {
    assert_eq!(
        parse("11.22.33"),
        Ok(Version { major: 11, minor: 22, patch: 33 })
    );
    assert_eq!(
        parse("0.0.0"),
        Ok(Version { major: 0, minor: 0, patch: 0 })
    );
    assert_eq!(
        parse("10.200.3000"),
        Ok(Version { major: 10, minor: 200, patch: 3000 })
    );
}

#[test]
fn parse_is_deterministic() {
    assert_eq!(parse("1.2.3-alpha.1"), parse("1.2.3-alpha.1"));
    assert_eq!(parse("01.2.3"), parse("01.2.3"));
    assert_eq!(parse(""), parse(""));
}

#[test]
fn parse_largest_components() {
    let v = parse("18446744073709551615.18446744073709551615.18446744073709551615").unwrap();
    assert_eq!(v.major, u64::MAX);
    assert_eq!(v.minor, u64::MAX);
    assert_eq!(v.patch, u64::MAX);
}

#[test]
fn parse_component_overflow() {
    assert_eq!(
        parse("18446744073709551616.0.0"),
        Err(ParseError::NotAVersion)
    );
    assert_eq!(
        parse("0.99999999999999999999.0"),
        Err(ParseError::NotAVersion)
    );
}

#[test]
fn parse_expects_dots() {
    assert_eq!(parse("1"), Err(ParseError::ExpectedDot));
    assert_eq!(parse("1.2"), Err(ParseError::ExpectedDot));
    assert_eq!(parse("1x2.3"), Err(ParseError::ExpectedDot));
}

#[test]
fn prerelease_exact_errors() {
    assert_eq!(parse("1.2.3-foo.."), Err(ParseError::InvalidPrerelease));
    assert_eq!(parse("1.2.3-"), Err(ParseError::InvalidPrerelease));
    assert_eq!(parse("1.2.3-foo."), Err(ParseError::InvalidPrerelease));
    assert_eq!(parse("1.2.3-a b"), Err(ParseError::InvalidPrerelease));
}

#[test]
fn prerelease_numeric_leading_zero() {
    assert_eq!(parse("1.2.3-00"), Err(ParseError::InvalidPrerelease));
    assert_eq!(parse("1.2.3-x.01"), Err(ParseError::InvalidPrerelease));
    assert!(parse("1.2.3-0").is_ok());
    assert!(parse("1.2.3-0a.10").is_ok());
}

#[test]
fn basic_gte() {
    assert!(satisfies("1.2.3", ">=1.2.3").unwrap());
    assert!(satisfies("1.2.4", ">=1.2.3").unwrap());
    assert!(satisfies("2.0.0", ">=1.9.9").unwrap());

    assert!(!satisfies("1.2.2", ">=1.2.3").unwrap());
    assert!(!satisfies("0.9.9", ">=1.0.0").unwrap());
}

#[test]
fn basic_lte() {
    assert!(satisfies("1.2.3", "<=1.2.3").unwrap());
    assert!(satisfies("1.2.2", "<=1.2.3").unwrap());
    assert!(satisfies("0.9.9", "<=1.0.0").unwrap());

    assert!(!satisfies("1.2.4", "<=1.2.3").unwrap());
    assert!(!satisfies("2.0.0", "<=1.9.9").unwrap());
}

#[test]
fn missing_operator_falls_back_to_caret() {
    assert!(satisfies("1.2.3", "1.2.3").unwrap());
    assert!(satisfies("1.2.5", "1.2.3").unwrap());
    assert!(!satisfies("2.2.3", "1.2.3").unwrap());
}

#[test]
fn wildcard_position_matters() {
    // The wildcard decides only at the component where the range stops being
    // numeric; earlier components are compared under the operator as usual.
    assert!(!satisfies("1.2.3", "=2.*").unwrap());
    assert!(satisfies("1.2.3", "=1.*").unwrap());
    assert!(satisfies("9.9.9", ">2.*").unwrap());
}

#[test]
fn satisfies_rejects_malformed_version() {
    assert_eq!(
        satisfies("x.2.3", "=1.2.3"),
        Err(Error::ParseError(ParseError::NotAVersion))
    );
    assert_eq!(
        satisfies("01.2.3", "=1.2.3"),
        Err(Error::ParseError(ParseError::LeadingZero))
    );
    assert_eq!(
        satisfies("1.2", "=1.2.3"),
        Err(Error::ParseError(ParseError::ExpectedDot))
    );
}

#[test]
fn satisfies_rejects_malformed_range() {
    assert_eq!(
        satisfies("1.2.3", "=1.x.3"),
        Err(Error::ParseError(ParseError::NotAVersion))
    );
    assert_eq!(
        satisfies("1.2.3", "=01.2.3"),
        Err(Error::ParseError(ParseError::LeadingZero))
    );
    assert_eq!(
        satisfies("1.2.3", "^1"),
        Err(Error::ParseError(ParseError::ExpectedDot))
    );
    assert_eq!(
        satisfies("1.2.3", ""),
        Err(Error::ParseError(ParseError::NotAVersion))
    );
}

#[test]
fn satisfies_ignores_text_after_patch() {
    assert!(satisfies("1.2.3-alpha", "=1.2.3").unwrap());
    assert!(satisfies("1.2.3", "=1.2.3-alpha").unwrap());
}
