use relflow::cascade::cascade_plan;
use relflow::plan::{plan_release, ReleaseDecision};
use relflow::promote::PromotionError;
use relflow::version::{Channel, SemVer};

fn v(major: u64, minor: u64, patch: u64, channel: Channel) -> SemVer {
    SemVer { major, minor, patch, channel }
}

fn stages(plan: &[relflow::cascade::CascadeStage]) -> Vec<(String, String)> {
    plan.iter()
        .map(|s| (s.source.clone(), s.target.clone()))
        .collect()
}

#[test]
fn cascade_depth_matches_severity() {
    let alpha = cascade_plan("main", "main", &Channel::Alpha(1));
    assert_eq!(
        stages(&alpha),
        vec![("main".to_string(), "alpha".to_string())]
    );

    let beta = cascade_plan("main", "main", &Channel::Beta(2));
    assert_eq!(
        stages(&beta),
        vec![
            ("main".to_string(), "alpha".to_string()),
            ("alpha".to_string(), "beta".to_string()),
        ]
    );

    let rc = cascade_plan("main", "main", &Channel::Candidate(1));
    assert_eq!(
        stages(&rc),
        vec![
            ("main".to_string(), "alpha".to_string()),
            ("alpha".to_string(), "beta".to_string()),
            ("beta".to_string(), "rc".to_string()),
        ]
    );
    // Promotion to a release candidate leaves the trunk untouched.
    assert!(stages(&rc).iter().all(|(_, target)| target != "main"));

    let stable = cascade_plan("main", "main", &Channel::Stable);
    assert_eq!(
        stages(&stable),
        vec![
            ("main".to_string(), "alpha".to_string()),
            ("alpha".to_string(), "beta".to_string()),
            ("beta".to_string(), "rc".to_string()),
            ("rc".to_string(), "main".to_string()),
        ]
    );
}

#[test]
fn plan_prerelease_from_stable() {
    let cur = v(1, 2, 3, Channel::Stable);
    match plan_release(&cur, "alpha", "main", "main") {
        ReleaseDecision::Proceed(p) => {
            assert_eq!(p.version, v(1, 3, 0, Channel::Alpha(1)));
            assert_eq!(p.version_string, "1.3.0-alpha");
            assert_eq!(p.commit_message, "release: v1.3.0-alpha");
            assert_eq!(
                stages(&p.cascade),
                vec![("main".to_string(), "alpha".to_string())]
            );
        }
        _ => panic!("expected a plan"),
    }
}

#[test]
fn plan_stable_release_runs_full_cascade() {
    let cur = v(1, 3, 0, Channel::Candidate(2));
    match plan_release(&cur, "major", "master", "master") {
        ReleaseDecision::Proceed(p) => {
            assert_eq!(p.version, v(2, 0, 0, Channel::Stable));
            assert_eq!(p.version_string, "2.0.0");
            assert_eq!(p.commit_message, "release: v2.0.0");
            let s = stages(&p.cascade);
            assert_eq!(s.len(), 4);
            assert_eq!(s[0], ("master".to_string(), "alpha".to_string()));
            assert_eq!(s[3], ("rc".to_string(), "master".to_string()));
        }
        _ => panic!("expected a plan"),
    }
}

#[test]
fn plan_downgrade_is_rejected_without_changes() {
    let cur = v(1, 3, 0, Channel::Beta(1));
    assert!(matches!(
        plan_release(&cur, "alpha", "main", "main"),
        ReleaseDecision::Rejected
    ));
}

#[test]
fn plan_major_mid_prerelease_is_fatal() {
    let cur = v(1, 3, 0, Channel::Alpha(2));
    assert!(matches!(
        plan_release(&cur, "alpha-major", "main", "main"),
        ReleaseDecision::Fatal(PromotionError::IllegalPromotion)
    ));
    assert!(matches!(
        plan_release(&cur, "rc-major", "main", "main"),
        ReleaseDecision::Fatal(PromotionError::IllegalPromotion)
    ));
}

#[test]
fn plan_unknown_keyword_is_fatal() {
    let cur = v(1, 3, 0, Channel::Stable);
    assert!(matches!(
        plan_release(&cur, "hotfix", "main", "main"),
        ReleaseDecision::Fatal(PromotionError::InvalidPromotionType)
    ));
}

#[test]
fn plan_same_severity_increments() {
    let cur = v(1, 3, 0, Channel::Alpha(1));
    match plan_release(&cur, "alpha", "main", "main") {
        ReleaseDecision::Proceed(p) => {
            assert_eq!(p.version, v(1, 3, 0, Channel::Alpha(2)));
            assert_eq!(p.version_string, "1.3.0-alpha.2");
        }
        _ => panic!("expected a plan"),
    }
}
