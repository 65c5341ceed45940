use relflow::extract::{updated_manifest, version_from_str, version_info, ManifestError};
use relflow::text::parse_u64;
use relflow::version::{render, Channel, SemVer};

fn v(major: u64, minor: u64, patch: u64, channel: Channel) -> SemVer {
    SemVer { major, minor, patch, channel }
}

#[test]
fn render_each_channel() {
    assert_eq!(render(&v(1, 2, 3, Channel::Stable)), "1.2.3");
    assert_eq!(render(&v(1, 3, 0, Channel::Alpha(1))), "1.3.0-alpha");
    assert_eq!(render(&v(1, 3, 0, Channel::Alpha(2))), "1.3.0-alpha.2");
    assert_eq!(render(&v(1, 3, 0, Channel::Beta(1))), "1.3.0-beta");
    assert_eq!(render(&v(1, 3, 0, Channel::Beta(11))), "1.3.0-beta.11");
    assert_eq!(render(&v(1, 3, 0, Channel::Candidate(1))), "1.3.0-rc");
    assert_eq!(render(&v(1, 3, 0, Channel::Candidate(7))), "1.3.0-rc.7");
    assert_eq!(render(&v(10, 0, 300, Channel::Stable)), "10.0.300");
    assert_eq!(render(&v(0, 0, 0, Channel::Stable)), "0.0.0");
}

#[test]
fn channel_names() {
    assert_eq!(Channel::Stable.name(), "stable");
    assert_eq!(Channel::Alpha(1).name(), "alpha");
    assert_eq!(Channel::Beta(3).name(), "beta");
    assert_eq!(Channel::Candidate(2).name(), "rc");
}

#[test]
fn parse_version_components() {
    assert_eq!(
        version_from_str("1.2.3"),
        Ok(v(1, 2, 3, Channel::Stable))
    );
    assert_eq!(
        version_from_str("1.3.0-alpha.2"),
        Ok(v(1, 3, 0, Channel::Alpha(2)))
    );
    assert_eq!(
        version_from_str("0.9.17-rc"),
        Ok(v(0, 9, 17, Channel::Candidate(1)))
    );
    assert_eq!(
        version_from_str("2.0.0-beta.3"),
        Ok(v(2, 0, 0, Channel::Beta(3)))
    );
    assert_eq!(
        version_from_str("nonsense"),
        Err(ManifestError::InvalidVersion)
    );
    assert_eq!(
        version_from_str("1.2"),
        Err(ManifestError::InvalidVersion)
    );
}

#[test]
fn parse_version_odd_labels() {
    // A label with no separator after the channel name falls back to 1.
    assert_eq!(
        version_from_str("1.0.0-alpha0"),
        Ok(v(1, 0, 0, Channel::Alpha(1)))
    );
    // An unparsable trailing sequence falls back to 1.
    assert_eq!(
        version_from_str("1.0.0-beta.x"),
        Ok(v(1, 0, 0, Channel::Beta(1)))
    );
    // An unrelated label means stable.
    assert_eq!(
        version_from_str("1.0.0-nightly.3"),
        Ok(v(1, 0, 0, Channel::Stable))
    );
}

#[test]
fn round_trip_all_channels() {
    let channels = [
        Channel::Stable,
        Channel::Alpha(1),
        Channel::Alpha(2),
        Channel::Alpha(100),
        Channel::Beta(1),
        Channel::Beta(9),
        Channel::Candidate(1),
        Channel::Candidate(12),
    ];
    for channel in channels {
        let version = v(4, 17, 2, channel);
        let rendered = render(&version);
        assert_eq!(version_from_str(&rendered), Ok(version));
    }
}

#[test]
fn largest_components_round_trip() {
    let version = v(u64::MAX, 0, u64::MAX, Channel::Candidate(u64::MAX));
    let rendered = render(&version);
    assert_eq!(
        rendered,
        "18446744073709551615.0.18446744073709551615-rc.18446744073709551615"
    );
    assert_eq!(version_from_str(&rendered), Ok(version));
}

#[test]
fn channel_sequence_numbers() {
    assert_eq!(Channel::Stable.sequence(), 0);
    assert_eq!(Channel::Alpha(3).sequence(), 3);
    assert_eq!(Channel::Beta(1).sequence(), 1);
    assert_eq!(Channel::Candidate(9).sequence(), 9);
}

#[test]
fn digit_parsing() {
    assert_eq!(parse_u64("0"), Some(0));
    assert_eq!(parse_u64("007"), Some(7));
    assert_eq!(parse_u64("18446744073709551615"), Some(u64::MAX));
    assert_eq!(parse_u64("18446744073709551616"), None);
    assert_eq!(parse_u64(""), None);
    assert_eq!(parse_u64("+2"), None);
    assert_eq!(parse_u64("12a"), None);
}

#[test]
fn manifest_version_extraction() {
    let manifest = "[package]\nname = \"demo\"\nversion = \"1.2.3-rc.2\"\nedition = \"2021\"\n";
    assert_eq!(version_info(manifest), Ok(v(1, 2, 3, Channel::Candidate(2))));
}

#[test]
fn manifest_errors() {
    assert_eq!(
        version_info("this is :: not toml"),
        Err(ManifestError::Unreadable)
    );
    assert_eq!(
        version_info("[package]\nname = \"demo\"\n"),
        Err(ManifestError::Unreadable)
    );
    assert_eq!(
        version_info("[package]\nversion = \"not-a-version\"\n"),
        Err(ManifestError::InvalidVersion)
    );
}

#[test]
fn manifest_rewrite_preserves_content() {
    let manifest = "# release tool demo\n[package]\nname = \"demo\"\nversion = \"1.2.3\"\n\n[dependencies]\nserde = \"1\"\n";
    let updated = updated_manifest(manifest, "1.3.0-alpha").expect("manifest should parse");
    assert!(updated.contains("# release tool demo"));
    assert!(updated.contains("name = \"demo\""));
    assert!(updated.contains("serde = \"1\""));
    assert!(updated.contains("1.3.0-alpha"));
    assert!(!updated.contains("1.2.3"));
    assert_eq!(
        version_info(&updated),
        Ok(v(1, 3, 0, Channel::Alpha(1)))
    );
}

#[test]
fn manifest_rewrite_rejects_bad_text() {
    assert_eq!(updated_manifest("not [ toml", "1.0.0"), None);
}

#[test]
fn manifest_rewrite_rejects_non_table_package() {
    assert_eq!(updated_manifest("package = 1\n", "1.0.0"), None);
    assert_eq!(updated_manifest("package = \"x\"\n", "1.0.0"), None);
    assert_eq!(
        updated_manifest("[[package]]\nname = \"demo\"\n", "1.0.0"),
        None
    );
    assert_eq!(updated_manifest("unrelated = true\n", "1.0.0"), None);
}
