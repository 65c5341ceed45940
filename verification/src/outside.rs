use vstd::prelude::*;
use crate::version::{SemVer, channel_label, spec_render};

verus! {

/// What `semver::Version::parse` yields on a string: the major, minor
/// and patch numbers and the pre-release label, or nothing where the
/// string is not a semantic version.  The result depends on the
/// characters alone.
pub uninterp spec fn semver_parts(s: Seq<char>) -> Option<(u64, u64, u64, Seq<char>)>;

/// What toml's parser finds as the `package.version` string of a
/// manifest, or nothing where the text is not a TOML table holding one.
/// The result depends on the characters alone.
pub uninterp spec fn toml_package_version(t: Seq<char>) -> Option<Seq<char>>;

/// What toml_edit produces as the manifest text with its
/// `package.version` replaced by the given string, or nothing where the
/// text does not parse.  The result depends on the characters alone.
pub uninterp spec fn toml_with_version(t: Seq<char>, v: Seq<char>) -> Option<Seq<char>>;

/// A parse result as plain values.
pub open spec fn parts_view(r: Option<(u64, u64, u64, String)>) -> Option<
    (u64, u64, u64, Seq<char>),
> {
    match r {
        Some(p) => Some((p.0, p.1, p.2, p.3@)),
        None => None,
    }
}

/// An optional string as its characters.
pub open spec fn opt_str_view(r: Option<String>) -> Option<Seq<char>> {
    match r {
        Some(s) => Some(s@),
        None => None,
    }
}

/// Relies on semver::Version::parse for the components of a version
/// string.  A string this library renders from a well-formed version is
/// in the grammar semver documents — three dot-separated canonical
/// decimal numbers, then an optional `-` and a pre-release label made of
/// a word and an optional `.`-separated canonical number — so on such a
/// string the parse succeeds and returns exactly the rendered
/// components.
#[verifier::external_body]
pub(crate) fn semver_parse(text: &str) -> (r: Option<(u64, u64, u64, String)>)
    ensures
        parts_view(r) == semver_parts(text@),
        forall|v: SemVer|
            (v.wf() && text@ == #[trigger] spec_render(v)) ==> parts_view(r) == Some(
                (v.major, v.minor, v.patch, channel_label(v.channel)),
            ),
{
    match semver::Version::parse(text) {
        Ok(ver) => Some((ver.major, ver.minor, ver.patch, ver.pre.as_str().to_string())),
        Err(_) => None,
    }
}

/// Relies on toml's parser for the `package.version` field of a
/// manifest.
#[verifier::external_body]
pub(crate) fn manifest_version(text: &str) -> (r: Option<String>)
    ensures
        opt_str_view(r) == toml_package_version(text@),
{
    let table: toml::Table = match toml::from_str(text) {
        Ok(t) => t,
        Err(_) => return None,
    };
    match table.get("package").and_then(|p| p.get("version")).and_then(|v| v.as_str()) {
        Some(s) => Some(s.to_string()),
        None => None,
    }
}

/// Relies on toml_edit to rewrite the `package.version` field in place,
/// preserving the manifest's other content and formatting.  `None` where
/// the text does not parse as TOML or its `package` item is not a
/// table.
#[verifier::external_body]
pub(crate) fn manifest_with_version(text: &str, version: &str) -> (r: Option<String>)
    ensures
        opt_str_view(r) == toml_with_version(text@, version@),
{
    let mut doc: toml_edit::DocumentMut = match text.parse() {
        Ok(d) => d,
        Err(_) => return None,
    };
    let package = match doc.get_mut("package").and_then(|p| p.as_table_like_mut()) {
        Some(t) => t,
        None => return None,
    };
    package.insert("version", toml_edit::value(version));
    Some(doc.to_string())
}

} // verus!
