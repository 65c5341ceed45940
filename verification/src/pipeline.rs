use vstd::prelude::*;
use vstd::string::StrSliceExecFns;
use vstd::string::StringExecFns;
use crate::extract::ManifestError;
use crate::outside::{semver_parse, semver_parts};
use crate::text::{first_segment, spec_first_segment, str_eq};
use crate::version::{spec_dec, u64_to_string};

verus! {

/// One configured build target, read from the release configuration.
pub struct PlatformSpec {
    pub target: String,
    pub platform: String,
    pub arch: String,
}

impl View for PlatformSpec {
    type V = (Seq<char>, Seq<char>, Seq<char>);

    open spec fn view(&self) -> (Seq<char>, Seq<char>, Seq<char>) {
        (self.target@, self.platform@, self.arch@)
    }
}

/// The platforms of a configuration, as character sequences.
pub open spec fn platform_views(v: Seq<PlatformSpec>) -> Seq<(Seq<char>, Seq<char>, Seq<char>)> {
    v.map_values(|p: PlatformSpec| p@)
}

/// The platform name that earns artifacts an `.exe` suffix.
pub open spec fn windows_name() -> Seq<char> {
    seq!['w', 'i', 'n', 'd', 'o', 'w', 's']
}

/// The executable suffix for a platform: `.exe` on windows, nothing
/// elsewhere.
pub open spec fn exe_suffix(platform: Seq<char>) -> Seq<char> {
    if platform == windows_name() {
        seq!['.', 'e', 'x', 'e']
    } else {
        seq![]
    }
}

/// The artifact name's shared prefix: project and tag.
pub open spec fn name_prefix(project: Seq<char>, tag: Seq<char>) -> Seq<char> {
    project + seq!['-'] + tag + seq!['-']
}

/// The platform-dependent part of an artifact name.
pub open spec fn platform_part(platform: Seq<char>, arch: Seq<char>) -> Seq<char> {
    platform + seq!['-'] + arch + exe_suffix(platform)
}

/// The canonical artifact name:
/// `{project}-{tag}-{platform}-{arch}`, with `.exe` appended on
/// windows.
pub open spec fn spec_artifact_name(
    project: Seq<char>,
    tag: Seq<char>,
    platform: Seq<char>,
    arch: Seq<char>,
) -> Seq<char> {
    name_prefix(project, tag) + platform_part(platform, arch)
}

/// Whether the sequence is free of `-`, the separator of artifact
/// names.
pub open spec fn dash_free(s: Seq<char>) -> bool {
    forall|i: int| 0 <= i < s.len() ==> s[i] != '-'
}

/// Computes the canonical artifact name for one platform.
pub fn artifact_name(project: &str, tag: &str, platform: &str, arch: &str) -> (r: String)
    ensures
        r@ == spec_artifact_name(project@, tag@, platform@, arch@),
{
    let mut s = project.to_owned();
    s.append("-");
    s.append(tag);
    s.append("-");
    s.append(platform);
    s.append("-");
    s.append(arch);
    proof {
        reveal_strlit("-");
        reveal_strlit("windows");
        reveal_strlit(".exe");
        assert("-"@ =~= seq!['-']);
        assert("windows"@ =~= windows_name());
        assert(".exe"@ =~= seq!['.', 'e', 'x', 'e']);
    }
    if str_eq(platform, "windows") {
        s.append(".exe");
    }
    proof {
        assert(s@ =~= spec_artifact_name(project@, tag@, platform@, arch@));
    }
    s
}

/// Dropping an equal prefix of equal sequences leaves equal sequences.
proof fn lemma_cancel_prefix(x: Seq<char>, y: Seq<char>, z: Seq<char>)
    requires
        x + y == x + z,
    ensures
        y == z,
{
    assert(y =~= (x + y).subrange(x.len() as int, (x + y).len() as int));
    assert(z =~= (x + z).subrange(x.len() as int, (x + z).len() as int));
}

/// Dropping an equal suffix of equal sequences leaves equal sequences.
proof fn lemma_cancel_suffix(y: Seq<char>, z: Seq<char>, s: Seq<char>)
    requires
        y + s == z + s,
    ensures
        y == z,
{
    assert((y + s).len() == y.len() + s.len());
    assert((z + s).len() == z.len() + s.len());
    assert(y.len() == z.len());
    assert(forall|i: int| 0 <= i < y.len() ==> y[i] == (y + s)[i] && z[i] == (z + s)[i]);
    assert(y =~= z);
}

/// Equal sequences that each open with a dash-free part up to the first
/// dash have equal parts on both sides of it.
proof fn lemma_dash_framing(p1: Seq<char>, r1: Seq<char>, p2: Seq<char>, r2: Seq<char>)
    requires
        dash_free(p1),
        dash_free(p2),
        p1 + seq!['-'] + r1 == p2 + seq!['-'] + r2,
    ensures
        p1 == p2,
        r1 == r2,
{
    let n1 = p1 + seq!['-'] + r1;
    let n2 = p2 + seq!['-'] + r2;
    assert(n1[p1.len() as int] == '-');
    assert(n2[p2.len() as int] == '-');
    if p1.len() < p2.len() {
        assert(n2[p1.len() as int] == p2[p1.len() as int]);
        assert(false);
    }
    if p2.len() < p1.len() {
        assert(n1[p2.len() as int] == p1[p2.len() as int]);
        assert(false);
    }
    assert(forall|i: int| 0 <= i < p1.len() ==> n1[i] == p1[i] && n2[i] == p2[i]);
    assert(p1 =~= p2);
    lemma_cancel_prefix(p1 + seq!['-'], r1, r2);
}

/// Artifact names never collide within one run: distinct platform/arch
/// pairs with dash-free platform names always yield distinct names,
/// whatever the project and tag.
pub proof fn lemma_artifact_names_distinct(
    project: Seq<char>,
    tag: Seq<char>,
    p1: Seq<char>,
    a1: Seq<char>,
    p2: Seq<char>,
    a2: Seq<char>,
)
    requires
        dash_free(p1),
        dash_free(p2),
        p1 != p2 || a1 != a2,
    ensures
        spec_artifact_name(project, tag, p1, a1) != spec_artifact_name(project, tag, p2, a2),
{
    if spec_artifact_name(project, tag, p1, a1) == spec_artifact_name(project, tag, p2, a2) {
        assert(name_prefix(project, tag) + platform_part(p1, a1) == name_prefix(project, tag)
            + platform_part(p2, a2));
        lemma_cancel_prefix(name_prefix(project, tag), platform_part(p1, a1), platform_part(p2, a2));
        assert(p1 + seq!['-'] + (a1 + exe_suffix(p1)) =~= platform_part(p1, a1));
        assert(p2 + seq!['-'] + (a2 + exe_suffix(p2)) =~= platform_part(p2, a2));
        lemma_dash_framing(p1, a1 + exe_suffix(p1), p2, a2 + exe_suffix(p2));
        assert(exe_suffix(p1) == exe_suffix(p2));
        lemma_cancel_suffix(a1, a2, exe_suffix(p1));
        assert(false);
    }
}

/// One step of the build-and-publish sequence, to be performed in
/// order.  Every run ends by restoring the branch it started on.
pub enum BuildAction {
    /// Fetch all tags from the remote.
    FetchTags,
    /// Force-checkout the tag under build.
    CheckoutTag,
    /// Create the output directory if it is not there yet.
    EnsureOutputDir,
    /// Build the project for the target triple in release mode, with
    /// the tag exposed to the build.
    Compile { target: String },
    /// Move the toolchain's output binary to its canonical name.
    MoveArtifact { from: String, to: String },
    /// Upload the artifact to the release matching the tag, overwriting
    /// any asset of the same name, with the version metadata attached.
    Upload { path: String, channel: String, major: String, minor: String, patch: String },
    /// Delete the local copy of the artifact.
    RemoveArtifact { path: String },
    /// Check out the branch the run started on and point HEAD back at
    /// it.
    RestoreBranch { branch: String },
}

/// A build step as plain character sequences.
pub enum ActionV {
    FetchTags,
    CheckoutTag,
    EnsureOutputDir,
    Compile { target: Seq<char> },
    MoveArtifact { from: Seq<char>, to: Seq<char> },
    Upload {
        path: Seq<char>,
        channel: Seq<char>,
        major: Seq<char>,
        minor: Seq<char>,
        patch: Seq<char>,
    },
    RemoveArtifact { path: Seq<char> },
    RestoreBranch { branch: Seq<char> },
}

impl View for BuildAction {
    type V = ActionV;

    open spec fn view(&self) -> ActionV {
        match self {
            BuildAction::FetchTags => ActionV::FetchTags,
            BuildAction::CheckoutTag => ActionV::CheckoutTag,
            BuildAction::EnsureOutputDir => ActionV::EnsureOutputDir,
            BuildAction::Compile { target } => ActionV::Compile { target: target@ },
            BuildAction::MoveArtifact { from, to } => ActionV::MoveArtifact {
                from: from@,
                to: to@,
            },
            BuildAction::Upload { path, channel, major, minor, patch } => ActionV::Upload {
                path: path@,
                channel: channel@,
                major: major@,
                minor: minor@,
                patch: patch@,
            },
            BuildAction::RemoveArtifact { path } => ActionV::RemoveArtifact { path: path@ },
            BuildAction::RestoreBranch { branch } => ActionV::RestoreBranch { branch: branch@ },
        }
    }
}

/// The actions of a plan, as plain values.
pub open spec fn actions_view(v: Seq<BuildAction>) -> Seq<ActionV> {
    v.map_values(|a: BuildAction| a@)
}

/// The output directory prefix of artifact paths.
pub open spec fn out_dir_prefix() -> Seq<char> {
    seq!['b', 'u', 'i', 'l', 'd', '/']
}

/// The toolchain's conventional output path for a target:
/// `target/{triple}/release/{project}`, with `.exe` on windows.
pub open spec fn toolchain_output(project: Seq<char>, target: Seq<char>, platform: Seq<char>) -> Seq<
    char,
> {
    seq!['t', 'a', 'r', 'g', 'e', 't', '/'] + target + seq![
        '/',
        'r',
        'e',
        'l',
        'e',
        'a',
        's',
        'e',
        '/',
    ] + project + exe_suffix(platform)
}

/// The four steps run for one platform: compile, move the binary to its
/// canonical name, upload it with the tag's version metadata, delete
/// the local copy.
pub open spec fn one_platform(
    tag: Seq<char>,
    project: Seq<char>,
    p: (Seq<char>, Seq<char>, Seq<char>),
    parts: (u64, u64, u64, Seq<char>),
) -> Seq<ActionV> {
    let out = out_dir_prefix() + spec_artifact_name(project, tag, p.1, p.2);
    seq![
        (ActionV::Compile { target: p.0 }),
        (ActionV::MoveArtifact { from: toolchain_output(project, p.0, p.1), to: out }),
        (ActionV::Upload {
            path: out,
            channel: spec_first_segment(parts.3),
            major: spec_dec(parts.0 as nat),
            minor: spec_dec(parts.1 as nat),
            patch: spec_dec(parts.2 as nat),
        }),
        (ActionV::RemoveArtifact { path: out }),
    ]
}

/// The per-platform steps for a list of platforms, in configuration
/// order.
pub open spec fn platform_actions(
    tag: Seq<char>,
    project: Seq<char>,
    platforms: Seq<(Seq<char>, Seq<char>, Seq<char>)>,
    parts: (u64, u64, u64, Seq<char>),
) -> Seq<ActionV>
    decreases platforms.len(),
{
    if platforms.len() == 0 {
        seq![]
    } else {
        platform_actions(tag, project, platforms.drop_last(), parts) + one_platform(
            tag,
            project,
            platforms.last(),
            parts,
        )
    }
}

/// The whole build sequence for a tag: fetch tags, check the tag out,
/// make the output directory, run every platform's steps, and restore
/// the original branch.
pub open spec fn spec_build_actions(
    tag: Seq<char>,
    project: Seq<char>,
    branch: Seq<char>,
    platforms: Seq<(Seq<char>, Seq<char>, Seq<char>)>,
    parts: (u64, u64, u64, Seq<char>),
) -> Seq<ActionV> {
    seq![ActionV::FetchTags, ActionV::CheckoutTag, ActionV::EnsureOutputDir] + platform_actions(
        tag,
        project,
        platforms,
        parts,
    ) + seq![(ActionV::RestoreBranch { branch })]
}

/// Every platform contributes exactly four steps.
pub proof fn lemma_platform_actions_len(
    tag: Seq<char>,
    project: Seq<char>,
    platforms: Seq<(Seq<char>, Seq<char>, Seq<char>)>,
    parts: (u64, u64, u64, Seq<char>),
)
    ensures
        platform_actions(tag, project, platforms, parts).len() == 4 * platforms.len(),
    decreases platforms.len(),
{
    if platforms.len() > 0 {
        lemma_platform_actions_len(tag, project, platforms.drop_last(), parts);
    }
}

/// However many platforms are configured — none, one or many — the
/// build sequence ends by restoring the branch the run started on.
pub proof fn lemma_build_restores_branch(
    tag: Seq<char>,
    project: Seq<char>,
    branch: Seq<char>,
    platforms: Seq<(Seq<char>, Seq<char>, Seq<char>)>,
    parts: (u64, u64, u64, Seq<char>),
)
    ensures
        spec_build_actions(tag, project, branch, platforms, parts).len() == 4 + 4
            * platforms.len(),
        spec_build_actions(tag, project, branch, platforms, parts).last() == (
        ActionV::RestoreBranch { branch }),
{
    lemma_platform_actions_len(tag, project, platforms, parts);
}

/// Appending one platform appends its four steps.
proof fn lemma_platform_actions_snoc(
    tag: Seq<char>,
    project: Seq<char>,
    platforms: Seq<(Seq<char>, Seq<char>, Seq<char>)>,
    i: int,
    parts: (u64, u64, u64, Seq<char>),
)
    requires
        0 <= i < platforms.len(),
    ensures
        platform_actions(tag, project, platforms.take(i + 1), parts) == platform_actions(
            tag,
            project,
            platforms.take(i),
            parts,
        ) + one_platform(tag, project, platforms[i], parts),
{
    assert(platforms.take(i + 1).drop_last() =~= platforms.take(i));
    assert(platforms.take(i + 1).last() == platforms[i]);
}

/// Plans the build-and-publish run for a tag: the tag, stripped of its
/// leading marker character, must parse as a semantic version, whose
/// components become the upload metadata.  Succeeds exactly when it
/// does.
pub fn plan_build(tag: &str, project: &str, original_branch: &str, platforms: &Vec<PlatformSpec>) -> (r:
    Result<Vec<BuildAction>, ManifestError>)
    requires
        tag@.len() >= 1,
    ensures
        (r is Ok) == (semver_parts(tag@.subrange(1, tag@.len() as int)) is Some),
        r matches Ok(acts) ==> actions_view(acts@) == spec_build_actions(
            tag@,
            project@,
            original_branch@,
            platform_views(platforms@),
            semver_parts(tag@.subrange(1, tag@.len() as int))->0,
        ),
{
    let stripped = tag.substring_char(1, tag.unicode_len());
    let parts = match semver_parse(stripped) {
        None => { return Err(ManifestError::InvalidVersion) },
        Some(p) => p,
    };
    let ghost gparts = (parts.0, parts.1, parts.2, parts.3@);
    let channel = first_segment(parts.3.as_str());
    let major = u64_to_string(parts.0);
    let minor = u64_to_string(parts.1);
    let patch = u64_to_string(parts.2);
    let ghost pviews = platform_views(platforms@);
    let mut acts: Vec<BuildAction> = Vec::new();
    acts.push(BuildAction::FetchTags);
    acts.push(BuildAction::CheckoutTag);
    acts.push(BuildAction::EnsureOutputDir);
    proof {
        assert(actions_view(acts@) =~= seq![
            ActionV::FetchTags,
            ActionV::CheckoutTag,
            ActionV::EnsureOutputDir,
        ] + platform_actions(tag@, project@, pviews.take(0), gparts));
    }
    let mut i: usize = 0;
    while i < platforms.len()
        invariant
            0 <= i <= platforms.len(),
            pviews == platform_views(platforms@),
            gparts == (parts.0, parts.1, parts.2, parts.3@),
            channel@ == spec_first_segment(parts.3@),
            major@ == spec_dec(parts.0 as nat),
            minor@ == spec_dec(parts.1 as nat),
            patch@ == spec_dec(parts.2 as nat),
            actions_view(acts@) == seq![
                ActionV::FetchTags,
                ActionV::CheckoutTag,
                ActionV::EnsureOutputDir,
            ] + platform_actions(tag@, project@, pviews.take(i as int), gparts),
        decreases platforms.len() - i,
    {
        let p = &platforms[i];
        let name = artifact_name(project, tag, p.platform.as_str(), p.arch.as_str());
        let mut out = String::from_str("build/");
        out.append(name.as_str());
        let mut from = String::from_str("target/");
        from.append(p.target.as_str());
        from.append("/release/");
        from.append(project);
        proof {
            reveal_strlit("build/");
            reveal_strlit("target/");
            reveal_strlit("/release/");
            reveal_strlit("windows");
            reveal_strlit(".exe");
            assert("build/"@ =~= out_dir_prefix());
            assert("target/"@ =~= seq!['t', 'a', 'r', 'g', 'e', 't', '/']);
            assert("/release/"@ =~= seq!['/', 'r', 'e', 'l', 'e', 'a', 's', 'e', '/']);
            assert("windows"@ =~= windows_name());
            assert(".exe"@ =~= seq!['.', 'e', 'x', 'e']);
        }
        if str_eq(p.platform.as_str(), "windows") {
            from.append(".exe");
        }
        proof {
            assert(out@ =~= out_dir_prefix() + spec_artifact_name(project@, tag@, p@.1, p@.2));
            assert(from@ =~= toolchain_output(project@, p@.0, p@.1));
        }
        let ghost acts_before = actions_view(acts@);
        acts.push(BuildAction::Compile { target: p.target.clone() });
        acts.push(BuildAction::MoveArtifact { from, to: out.clone() });
        acts.push(
            BuildAction::Upload {
                path: out.clone(),
                channel: channel.clone(),
                major: major.clone(),
                minor: minor.clone(),
                patch: patch.clone(),
            },
        );
        acts.push(BuildAction::RemoveArtifact { path: out });
        proof {
            assert(pviews[i as int] == p@);
            lemma_platform_actions_snoc(tag@, project@, pviews, i as int, gparts);
            assert(actions_view(acts@) =~= acts_before + one_platform(
                tag@,
                project@,
                pviews[i as int],
                gparts,
            ));
            assert(actions_view(acts@) =~= seq![
                ActionV::FetchTags,
                ActionV::CheckoutTag,
                ActionV::EnsureOutputDir,
            ] + platform_actions(tag@, project@, pviews.take(i as int + 1), gparts));
        }
        i = i + 1;
    }
    acts.push(BuildAction::RestoreBranch { branch: original_branch.to_owned() });
    proof {
        assert(pviews.take(platforms@.len() as int) =~= pviews);
        assert(actions_view(acts@) =~= spec_build_actions(
            tag@,
            project@,
            original_branch@,
            pviews,
            gparts,
        ));
    }
    Ok(acts)
}

} // verus!
