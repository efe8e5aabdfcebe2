use authn_context::AuthnContextComparison;
use authn_context::UnknownComparisonValue;

#[test]
fn canonical_string_forms() {
    assert_eq!(AuthnContextComparison::Exact.to_string(), "exact");
    assert_eq!(AuthnContextComparison::Minimum.to_string(), "minimum");
    assert_eq!(AuthnContextComparison::Maximum.to_string(), "maximum");
    assert_eq!(AuthnContextComparison::Better.to_string(), "better");
}

#[test]
fn every_variant_round_trips_through_its_string_form() {
    let variants = [
        AuthnContextComparison::Exact,
        AuthnContextComparison::Minimum,
        AuthnContextComparison::Maximum,
        AuthnContextComparison::Better,
    ];
    for v in variants {
        assert_eq!(AuthnContextComparison::parse(&v.to_string()), Ok(v));
    }
}

#[test]
fn parsing_is_case_insensitive() {
    assert_eq!(
        AuthnContextComparison::parse("EXACT"),
        Ok(AuthnContextComparison::Exact)
    );
    assert_eq!(
        AuthnContextComparison::parse("Minimum"),
        Ok(AuthnContextComparison::Minimum)
    );
    assert_eq!(
        AuthnContextComparison::parse("mAxImUm"),
        Ok(AuthnContextComparison::Maximum)
    );
    assert_eq!(
        AuthnContextComparison::parse("betteR"),
        Ok(AuthnContextComparison::Better)
    );
}

#[test]
fn unrecognized_text_is_rejected() {
    assert_eq!(
        AuthnContextComparison::parse("strongest"),
        Err(UnknownComparisonValue)
    );
    assert_eq!(AuthnContextComparison::parse(""), Err(UnknownComparisonValue));
    assert_eq!(
        AuthnContextComparison::parse("exact "),
        Err(UnknownComparisonValue)
    );
    assert_eq!(
        AuthnContextComparison::parse("exacts"),
        Err(UnknownComparisonValue)
    );
}
