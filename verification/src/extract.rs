use vstd::prelude::*;
use vstd::string::StrSliceExecFns;
use crate::outside::{
    manifest_version, manifest_with_version, opt_str_view, semver_parse, semver_parts,
    toml_package_version, toml_with_version,
};
use crate::text::{parse_u64, spec_parse_u64, starts, starts_with};
use crate::version::{Channel, SemVer, channel_label, channel_name, spec_render};

verus! {

/// Why the current version could not be read.
#[derive(Clone, Copy, Debug, PartialEq, Eq, Structural)]
pub enum ManifestError {
    /// The manifest is not a TOML table holding a `package.version`
    /// string.
    Unreadable,
    /// The version field is not valid semantic-version syntax.
    InvalidVersion,
}

/// The sequence number encoded in a pre-release label whose channel name
/// takes `name_len` characters: the digits after the name and one
/// separator, defaulting to 1 where absent or unparsable.
pub open spec fn label_sequence(s: Seq<char>, name_len: int) -> u64 {
    if s.len() > name_len + 1 {
        match spec_parse_u64(s.subrange(name_len + 1, s.len() as int)) {
            Some(n) => n,
            None => 1,
        }
    } else {
        1
    }
}

/// The channel denoted by a pre-release label: a label beginning with a
/// channel's name selects that channel, anything else is `Stable`.
pub open spec fn spec_channel_of_label(s: Seq<char>) -> Channel {
    if starts(s, channel_name(Channel::Alpha(1))) {
        Channel::Alpha(label_sequence(s, 5))
    } else if starts(s, channel_name(Channel::Beta(1))) {
        Channel::Beta(label_sequence(s, 4))
    } else if starts(s, channel_name(Channel::Candidate(1))) {
        Channel::Candidate(label_sequence(s, 2))
    } else {
        Channel::Stable
    }
}

/// Parses the trailing sequence number of a pre-release label.
fn label_sequence_exec(s: &str, name_len: usize) -> (n: u64)
    requires
        name_len <= 8,
    ensures
        n == label_sequence(s@, name_len as int),
{
    let len = s.unicode_len();
    if len > name_len + 1 {
        match parse_u64(s.substring_char(name_len + 1, len)) {
            Some(n) => n,
            None => 1,
        }
    } else {
        1
    }
}

/// Decomposes a pre-release label into its channel.
pub fn channel_of_label(s: &str) -> (c: Channel)
    ensures
        c == spec_channel_of_label(s@),
{
    proof {
        reveal_strlit("alpha");
        reveal_strlit("beta");
        reveal_strlit("rc");
        assert("alpha"@ =~= channel_name(Channel::Alpha(1)));
        assert("beta"@ =~= channel_name(Channel::Beta(1)));
        assert("rc"@ =~= channel_name(Channel::Candidate(1)));
    }
    if starts_with(s, "alpha") {
        Channel::Alpha(label_sequence_exec(s, 5))
    } else if starts_with(s, "beta") {
        Channel::Beta(label_sequence_exec(s, 4))
    } else if starts_with(s, "rc") {
        Channel::Candidate(label_sequence_exec(s, 2))
    } else {
        Channel::Stable
    }
}

/// The version denoted by the components of a version string.
pub open spec fn spec_version_of(parts: Option<(u64, u64, u64, Seq<char>)>) -> Result<
    SemVer,
    ManifestError,
> {
    match parts {
        None => Err(ManifestError::InvalidVersion),
        Some(p) => Ok(
            SemVer { major: p.0, minor: p.1, patch: p.2, channel: spec_channel_of_label(p.3) },
        ),
    }
}

/// Decomposing the label a channel renders to gives the channel back.
pub proof fn lemma_label_round_trip(c: Channel)
    requires
        c.wf(),
    ensures
        spec_channel_of_label(channel_label(c)) == c,
{
    let alpha = channel_name(Channel::Alpha(1));
    let beta = channel_name(Channel::Beta(1));
    let rc = channel_name(Channel::Candidate(1));
    let s = channel_label(c);
    match c {
        Channel::Stable => {
            assert(!starts(s, alpha));
            assert(!starts(s, beta));
            assert(!starts(s, rc));
        },
        Channel::Alpha(n) => {
            lemma_name_label_round_trip(s, alpha, n);
            assert(starts(s, alpha));
        },
        Channel::Beta(n) => {
            lemma_name_label_round_trip(s, beta, n);
            assert(s[0] == 'b');
            assert(!starts(s, alpha));
            assert(starts(s, beta));
        },
        Channel::Candidate(n) => {
            lemma_name_label_round_trip(s, rc, n);
            assert(s[0] == 'r');
            assert(!starts(s, alpha));
            assert(!starts(s, beta));
            assert(starts(s, rc));
        },
    }
}

/// A label built from a channel name and a sequence number starts with
/// the name and encodes the number.
proof fn lemma_name_label_round_trip(s: Seq<char>, name: Seq<char>, n: u64)
    requires
        n >= 1,
        1 <= name.len(),
        s == if n == 1 {
            name
        } else {
            name + seq!['.'] + crate::version::spec_dec(n as nat)
        },
    ensures
        starts(s, name),
        label_sequence(s, name.len() as int) == n,
{
    if n == 1 {
        assert(starts(s, name));
        assert(s.len() == name.len());
    } else {
        let digits = crate::version::spec_dec(n as nat);
        crate::text::lemma_parse_spec_dec(n);
        assert(forall|i: int| 0 <= i < name.len() ==> s[i] == #[trigger] name[i]);
        assert(starts(s, name));
        assert(s.len() == name.len() + 1 + digits.len());
        assert(digits.len() >= 1) by {
            crate::text::lemma_spec_dec_digits(n as nat);
        }
        assert(s.subrange(name.len() as int + 1, s.len() as int) =~= digits);
    }
}

/// Reads a version string into its version.
///
/// Rendering any well-formed version and reading the string back yields
/// that same version: the round trip is stated by the final clause.
pub fn version_from_str(s: &str) -> (r: Result<SemVer, ManifestError>)
    ensures
        r == spec_version_of(semver_parts(s@)),
        forall|v: SemVer| (v.wf() && s@ == #[trigger] spec_render(v)) ==> r == Ok::<SemVer, ManifestError>(v),
{
    let parts = semver_parse(s);
    match parts {
        None => Err(ManifestError::InvalidVersion),
        Some(p) => {
            let c = channel_of_label(p.3.as_str());
            proof {
                assert forall|v: SemVer| v.wf() && s@ == #[trigger] spec_render(v) implies c
                    == v.channel && p.0 == v.major && p.1 == v.minor && p.2 == v.patch by {
                    lemma_label_round_trip(v.channel);
                }
            }
            Ok(SemVer { major: p.0, minor: p.1, patch: p.2, channel: c })
        },
    }
}

/// Reads the current version out of the manifest text: the
/// `package.version` field parsed as a semantic version, its pre-release
/// label decomposed into the channel.
pub fn version_info(manifest_text: &str) -> (r: Result<SemVer, ManifestError>)
    ensures
        r == match toml_package_version(manifest_text@) {
            None => Err(ManifestError::Unreadable),
            Some(vs) => spec_version_of(semver_parts(vs)),
        },
{
    match manifest_version(manifest_text) {
        None => Err(ManifestError::Unreadable),
        Some(vs) => {
            let r = version_from_str(vs.as_str());
            match r {
                Ok(v) => Ok(v),
                Err(_) => Err(ManifestError::InvalidVersion),
            }
        },
    }
}

/// Rewrites the manifest's version field in place, preserving all other
/// manifest content and formatting; `None` where the text does not
/// parse as TOML or its `package` item is not a table.
pub fn updated_manifest(manifest_text: &str, version: &str) -> (r: Option<String>)
    ensures
        opt_str_view(r) == toml_with_version(manifest_text@, version@),
{
    manifest_with_version(manifest_text, version)
}

} // verus!
