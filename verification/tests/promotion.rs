use relflow::promote::{next, parse_request, PromotionError, Request};
use relflow::version::{Channel, SemVer};

fn v(major: u64, minor: u64, patch: u64, channel: Channel) -> SemVer {
    SemVer { major, minor, patch, channel }
}

#[test]
fn parse_request_keywords() {
    assert_eq!(parse_request("major"), Ok(Request::Major));
    assert_eq!(parse_request("minor"), Ok(Request::Minor));
    assert_eq!(parse_request("patch"), Ok(Request::Patch));
    assert_eq!(parse_request("alpha"), Ok(Request::Alpha));
    assert_eq!(parse_request("alpha-major"), Ok(Request::AlphaMajor));
    assert_eq!(parse_request("beta"), Ok(Request::Beta));
    assert_eq!(parse_request("beta-major"), Ok(Request::BetaMajor));
    assert_eq!(parse_request("rc"), Ok(Request::Rc));
    assert_eq!(parse_request("rc-major"), Ok(Request::RcMajor));
    assert_eq!(
        parse_request("bogus"),
        Err(PromotionError::InvalidPromotionType)
    );
    assert_eq!(parse_request(""), Err(PromotionError::InvalidPromotionType));
    assert_eq!(
        parse_request("Alpha"),
        Err(PromotionError::InvalidPromotionType)
    );
}

#[test]
fn stable_component_bumps() {
    let cur = v(1, 2, 3, Channel::Stable);
    assert_eq!(next(&cur, Request::Major), Ok(v(2, 0, 0, Channel::Stable)));
    assert_eq!(next(&cur, Request::Minor), Ok(v(1, 3, 0, Channel::Stable)));
    assert_eq!(next(&cur, Request::Patch), Ok(v(1, 2, 4, Channel::Stable)));
}

#[test]
fn component_bumps_force_stable_from_prerelease() {
    let cur = v(1, 2, 3, Channel::Candidate(2));
    assert_eq!(next(&cur, Request::Major), Ok(v(2, 0, 0, Channel::Stable)));
    assert_eq!(next(&cur, Request::Minor), Ok(v(1, 3, 0, Channel::Stable)));
    assert_eq!(next(&cur, Request::Patch), Ok(v(1, 2, 4, Channel::Stable)));
}

#[test]
fn prerelease_from_stable_starts_new_minor() {
    let cur = v(1, 2, 3, Channel::Stable);
    assert_eq!(next(&cur, Request::Alpha), Ok(v(1, 3, 0, Channel::Alpha(1))));
    assert_eq!(next(&cur, Request::Beta), Ok(v(1, 3, 0, Channel::Beta(1))));
    assert_eq!(
        next(&cur, Request::Rc),
        Ok(v(1, 3, 0, Channel::Candidate(1)))
    );
}

#[test]
fn same_severity_increments_sequence() {
    assert_eq!(
        next(&v(1, 3, 0, Channel::Alpha(1)), Request::Alpha),
        Ok(v(1, 3, 0, Channel::Alpha(2)))
    );
    assert_eq!(
        next(&v(1, 3, 0, Channel::Beta(4)), Request::Beta),
        Ok(v(1, 3, 0, Channel::Beta(5)))
    );
    assert_eq!(
        next(&v(1, 3, 0, Channel::Candidate(1)), Request::Rc),
        Ok(v(1, 3, 0, Channel::Candidate(2)))
    );
}

#[test]
fn cross_severity_upgrade_collapses_sequence() {
    assert_eq!(
        next(&v(1, 3, 0, Channel::Alpha(3)), Request::Beta),
        Ok(v(1, 3, 0, Channel::Beta(1)))
    );
    assert_eq!(
        next(&v(1, 3, 0, Channel::Alpha(7)), Request::Rc),
        Ok(v(1, 3, 0, Channel::Candidate(1)))
    );
    assert_eq!(
        next(&v(1, 3, 0, Channel::Beta(2)), Request::Rc),
        Ok(v(1, 3, 0, Channel::Candidate(1)))
    );
}

#[test]
fn downgrades_are_rejected() {
    assert_eq!(
        next(&v(1, 3, 0, Channel::Beta(1)), Request::Alpha),
        Err(PromotionError::DowngradeRejected)
    );
    assert_eq!(
        next(&v(1, 3, 0, Channel::Candidate(2)), Request::Alpha),
        Err(PromotionError::DowngradeRejected)
    );
    assert_eq!(
        next(&v(1, 3, 0, Channel::Candidate(1)), Request::Beta),
        Err(PromotionError::DowngradeRejected)
    );
}

#[test]
fn major_channel_bump_only_from_stable() {
    let stable = v(1, 2, 3, Channel::Stable);
    assert_eq!(
        next(&stable, Request::AlphaMajor),
        Ok(v(2, 0, 0, Channel::Alpha(1)))
    );
    assert_eq!(
        next(&stable, Request::BetaMajor),
        Ok(v(2, 0, 0, Channel::Beta(1)))
    );
    assert_eq!(
        next(&stable, Request::RcMajor),
        Ok(v(2, 0, 0, Channel::Candidate(1)))
    );
    assert_eq!(
        next(&v(1, 2, 3, Channel::Alpha(1)), Request::AlphaMajor),
        Err(PromotionError::IllegalPromotion)
    );
    assert_eq!(
        next(&v(1, 2, 3, Channel::Beta(2)), Request::BetaMajor),
        Err(PromotionError::IllegalPromotion)
    );
    assert_eq!(
        next(&v(1, 2, 3, Channel::Candidate(1)), Request::RcMajor),
        Err(PromotionError::IllegalPromotion)
    );
}
