use buildout_releaser::constraint::{
    constraint_matches, normalize_constraint_part, parse_version_constraint,
};
use buildout_releaser::error::ReleaserError;
use buildout_releaser::version::Version;

#[test]
fn version_parses_wildcard_constraints() {
    let (req, exclusions) =
        parse_version_constraint("==3.8.*").expect("should parse wildcard equality");
    let matches = req.matches(&Version::parse("3.8.5").unwrap());
    assert!(matches, "should accept version within wildcard range");
    assert!(exclusions.is_empty());

    let (req, exclusions) =
        parse_version_constraint("!=2.*").expect("should parse wildcard inequality");
    assert!(req.matches(&Version::parse("1.9.9").unwrap()));
    assert_eq!(exclusions.len(), 1);
    let (lower, upper) = &exclusions[0];
    assert_eq!(lower, &Version::new(2, 0, 0));
    assert_eq!(upper, &Version::new(3, 0, 0));
}

#[test]
fn version_parses_partial_comparators() {
    let (req, exclusions) =
        parse_version_constraint(">=3.8").expect("should parse partial comparator");
    assert!(req.matches(&Version::parse("3.8.1").unwrap()));
    assert!(exclusions.is_empty());

    let (req, exclusions) =
        parse_version_constraint("~=3.8").expect("should parse compatible release");
    assert!(req.matches(&Version::parse("3.8.9").unwrap()));
    assert!(!req.matches(&Version::parse("4.0.0").unwrap()));
    assert!(exclusions.is_empty());
}

#[test]
fn version_normalizes_constraint_parts() {
    let (normalized, exclusions) = normalize_constraint_part("==1.2").unwrap();
    assert_eq!(normalized, "=1.2.0");
    assert!(exclusions.is_empty());

    let (normalized, exclusions) = normalize_constraint_part("< 1").unwrap();
    assert_eq!(normalized, "<1.0.0");
    assert!(exclusions.is_empty());
}

#[test]
fn compatible_release_with_three_components_stays_in_the_minor_line() {
    let (req, exclusions) = parse_version_constraint("~=3.8.1").unwrap();
    assert!(req.matches(&Version::parse("3.8.9").unwrap()));
    assert!(!req.matches(&Version::parse("3.9.0").unwrap()));
    assert!(!req.matches(&Version::parse("3.8.0").unwrap()));
    assert!(exclusions.is_empty());
    assert_eq!(req.to_string(), ">=3.8.1, <3.9.0");
}

#[test]
fn negated_wildcard_excludes_the_whole_major_line() {
    let (req, exclusions) = parse_version_constraint("!=2.*").unwrap();
    assert_eq!(req.to_string(), "*");
    assert!(constraint_matches(&req, &exclusions, &Version::parse("1.9.9").unwrap()));
    assert!(constraint_matches(&req, &exclusions, &Version::parse("3.0.0").unwrap()));
    for text in ["2.0.0", "2.0.1", "2.5", "2.99.99", "2.3.4.5", "2.0.0+local"] {
        let v = Version::parse(text).unwrap();
        assert!(!constraint_matches(&req, &exclusions, &v), "{} is excluded", text);
    }
}

#[test]
fn or_constraints_are_rejected() {
    match parse_version_constraint("1.0 || 2.0") {
        Err(ReleaserError::ConstraintError(text)) => assert_eq!(text, "1.0 || 2.0"),
        other => panic!("expected a version error, got {:?}", other.map(|p| p.0.to_string())),
    }
}

#[test]
fn empty_constraints_and_segments_are_rejected() {
    assert!(matches!(parse_version_constraint("   "), Err(ReleaserError::ConstraintError(_))));
    assert!(matches!(parse_version_constraint(">=1.0,,<2.0"), Err(ReleaserError::ConstraintError(_))));
    assert!(matches!(parse_version_constraint(">=1.0, "), Err(ReleaserError::ConstraintError(_))));
    match parse_version_constraint(">=1.0, <nonsense") {
        Err(ReleaserError::ConstraintError(text)) => assert_eq!(text, "<nonsense"),
        _ => panic!("expected a version error"),
    }
}

#[test]
fn comma_joined_parts_all_have_to_hold() {
    let (req, exclusions) = parse_version_constraint(">=1.2, <2.0, !=1.5.*").unwrap();
    assert_eq!(req.to_string(), ">=1.2.0, <2.0.0");
    assert_eq!(exclusions.len(), 1);
    assert!(constraint_matches(&req, &exclusions, &Version::parse("1.4.9").unwrap()));
    assert!(!constraint_matches(&req, &exclusions, &Version::parse("1.5.0").unwrap()));
    assert!(!constraint_matches(&req, &exclusions, &Version::parse("1.5.7").unwrap()));
    assert!(constraint_matches(&req, &exclusions, &Version::parse("1.6.0").unwrap()));
    assert!(!constraint_matches(&req, &exclusions, &Version::parse("2.0.0").unwrap()));
    assert!(!constraint_matches(&req, &exclusions, &Version::parse("1.1.9").unwrap()));
}

#[test]
fn every_operator_is_read() {
    let v = |t: &str| Version::parse(t).unwrap();
    let m = |c: &str, t: &str| parse_version_constraint(c).unwrap().0.matches(&v(t));
    assert!(m("==1.2.3", "1.2.3"));
    assert!(m("===1.2.3", "1.2.3"));
    assert!(m("=1.2.3", "1.2.3"));
    assert!(m("1.2.3", "1.2.3"));
    assert!(!m("1.2.3", "1.2.4"));
    assert!(m("!=1.2.3", "1.2.4"));
    assert!(!m("!=1.2.3", "1.2.3"));
    assert!(m(">1.2.3", "1.2.4"));
    assert!(!m(">1.2.3", "1.2.3"));
    assert!(m(">=1.2.3", "1.2.3"));
    assert!(m("<1.2.3", "1.2.2"));
    assert!(!m("<1.2.3", "1.2.3"));
    assert!(m("<=1.2.3", "1.2.3"));
    assert!(m("==1.*", "1.99.0"));
    assert!(!m("==1.*", "2.0.0"));
}

#[test]
fn compatible_release_counts_the_components_as_written() {
    let text = |c: &str| parse_version_constraint(c).unwrap().0.to_string();
    assert_eq!(text("~=3"), ">=3.0.0, <4.0.0");
    assert_eq!(text("~=3.8"), ">=3.8.0, <4.0.0");
    assert_eq!(text("~= 3.8.1"), ">=3.8.1, <3.9.0");
    assert_eq!(text("~=1.2.3.4"), ">=1.2.3+4, <1.3.0");
    assert_eq!(text("~=1.2.3rc1"), ">=1.2.3-rc.1, <1.3.0");
    assert_eq!(text("~=v3.8.1"), ">=3.8.1, <4.0.0");
    assert!(matches!(parse_version_constraint("~=x"), Err(ReleaserError::ConstraintError(_))));
    assert!(matches!(
        parse_version_constraint("~=18446744073709551615.1"),
        Err(ReleaserError::ConstraintError(_))
    ));
}

#[test]
fn wildcards_of_a_minor_line() {
    let (req, exclusions) = parse_version_constraint("!= 1.2.*").unwrap();
    assert_eq!(req.to_string(), "*");
    assert_eq!(exclusions.len(), 1);
    assert_eq!(exclusions[0].0.to_string(), "1.2.0");
    assert_eq!(exclusions[0].1.to_string(), "1.3.0");
    let (normalized, exclusions) = normalize_constraint_part(" ==1.2.* ").unwrap();
    assert_eq!(normalized, ">=1.2.0, <1.3.0");
    assert!(exclusions.is_empty());
    assert!(normalize_constraint_part("==1.*.*").is_err());
    assert!(normalize_constraint_part("==18446744073709551615.*").is_err());
    assert!(normalize_constraint_part(">=1.*").is_err());
}
