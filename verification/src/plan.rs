use vstd::prelude::*;
use vstd::string::StringExecFns;
use crate::cascade::{CascadeStage, cascade_plan, spec_cascade, stages_view};
use crate::promote::{PromotionError, next, next_fits, parse_request, request_of_str, spec_next};
use crate::version::{SemVer, render, spec_render};

verus! {

/// Everything the release sequence needs once a promotion is decided:
/// the new version, its rendered string, the commit message for the
/// version bump, and the branch cascade to run afterwards.
pub struct ReleasePlan {
    pub version: SemVer,
    pub version_string: String,
    pub commit_message: String,
    pub cascade: Vec<CascadeStage>,
}

/// The outcome of deciding a release.
///
/// Only `Proceed` changes anything: a fatal outcome ends the run with a
/// nonzero status, and a rejected downgrade is reported and skipped, in
/// both cases with the manifest, the repository and the remote left
/// untouched.
pub enum ReleaseDecision {
    Fatal(PromotionError),
    Rejected,
    Proceed(ReleasePlan),
}

/// The commit message prefix for a version bump; the rendered version
/// follows it.
pub open spec fn release_msg_prefix() -> Seq<char> {
    seq!['r', 'e', 'l', 'e', 'a', 's', 'e', ':', ' ', 'v']
}

/// The state machine's one input restriction, lifted to the request
/// keyword: an unrecognized keyword restricts nothing.
pub open spec fn request_fits(v: SemVer, s: Seq<char>) -> bool {
    match request_of_str(s) {
        Some(r) => next_fits(v, r),
        None => true,
    }
}

/// Decides a release: parses the promotion keyword, runs the channel
/// state machine, and, where a new version is produced, renders it and
/// plans the commit and the branch cascade.
pub fn plan_release(current: &SemVer, request: &str, source_branch: &str, trunk_branch: &str) -> (d:
    ReleaseDecision)
    requires
        request_fits(*current, request@),
    ensures
        match request_of_str(request@) {
            None => d matches ReleaseDecision::Fatal(e) && e
                == PromotionError::InvalidPromotionType,
            Some(req) => match spec_next(*current, req) {
                Err(e) => if e is DowngradeRejected {
                    d is Rejected
                } else {
                    d matches ReleaseDecision::Fatal(f) && f == e
                },
                Ok(nv) => d matches ReleaseDecision::Proceed(p) && p.version == nv
                    && p.version_string@ == spec_render(nv) && p.commit_message@
                    == release_msg_prefix() + spec_render(nv) && stages_view(p.cascade@)
                    == spec_cascade(source_branch@, trunk_branch@, nv.channel),
            },
        },
{
    let req = match parse_request(request) {
        Ok(req) => req,
        Err(e) => { return ReleaseDecision::Fatal(e) },
    };
    let nv = match next(current, req) {
        Ok(nv) => nv,
        Err(e) => {
            return match e {
                PromotionError::DowngradeRejected => ReleaseDecision::Rejected,
                _ => ReleaseDecision::Fatal(e),
            };
        },
    };
    let version_string = render(&nv);
    let mut commit_message = String::from_str("release: v");
    commit_message.append(version_string.as_str());
    proof {
        reveal_strlit("release: v");
        assert("release: v"@ =~= release_msg_prefix());
        assert(commit_message@ =~= release_msg_prefix() + spec_render(nv));
    }
    let cascade = cascade_plan(source_branch, trunk_branch, &nv.channel);
    ReleaseDecision::Proceed(ReleasePlan { version: nv, version_string, commit_message, cascade })
}

} // verus!
