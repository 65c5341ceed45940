use vstd::prelude::*;
use crate::promote::{PromotionError, Request, next_fits, requested_channel, spec_next};
use crate::version::SemVer;

verus! {

/// A component bump from a stable version: exactly the targeted
/// component increments, the lower components zero, and the result is
/// stable.
pub proof fn lemma_stable_component_bump(v: SemVer, r: Request)
    requires
        v.channel is Stable,
        r is Major || r is Minor || r is Patch,
        next_fits(v, r),
    ensures
        spec_next(v, r) matches Ok(nv) && nv.channel is Stable,
        r is Major ==> spec_next(v, r)->Ok_0.major == v.major + 1 && spec_next(v, r)->Ok_0.minor
            == 0 && spec_next(v, r)->Ok_0.patch == 0,
        r is Minor ==> spec_next(v, r)->Ok_0.major == v.major && spec_next(v, r)->Ok_0.minor
            == v.minor + 1 && spec_next(v, r)->Ok_0.patch == 0,
        r is Patch ==> spec_next(v, r)->Ok_0.major == v.major && spec_next(v, r)->Ok_0.minor
            == v.minor && spec_next(v, r)->Ok_0.patch == v.patch + 1,
{
}

/// A pre-release requested from a stable version always starts a new
/// minor line on the requested channel, at sequence number 1.
pub proof fn lemma_stable_prerelease_start(v: SemVer, r: Request)
    requires
        v.channel is Stable,
        r is Alpha || r is Beta || r is Rc,
        next_fits(v, r),
    ensures
        spec_next(v, r) == Ok::<SemVer, PromotionError>(
            SemVer {
                major: v.major,
                minor: (v.minor + 1) as u64,
                patch: 0,
                channel: requested_channel(r),
            },
        ),
{
}

/// A request for a channel strictly less severe than the current
/// pre-release channel is a downgrade: it never produces a version
/// change, only a reported rejection.
pub proof fn lemma_downgrade_rejected(v: SemVer, r: Request)
    requires
        r is Alpha || r is Beta || r is Rc,
        !(v.channel is Stable),
        requested_channel(r).severity() < v.channel.severity(),
    ensures
        spec_next(v, r) == Err::<SemVer, PromotionError>(PromotionError::DowngradeRejected),
{
}

/// A major bump onto a pre-release channel is legal only from a stable
/// version; from an active pre-release it is refused outright.
pub proof fn lemma_major_mid_prerelease_fatal(v: SemVer, r: Request)
    requires
        r is AlphaMajor || r is BetaMajor || r is RcMajor,
        !(v.channel is Stable),
    ensures
        spec_next(v, r) == Err::<SemVer, PromotionError>(PromotionError::IllegalPromotion),
{
}

/// The state machine only produces well-formed versions.
pub proof fn lemma_next_wf(v: SemVer, r: Request)
    requires
        next_fits(v, r),
    ensures
        spec_next(v, r) matches Ok(nv) ==> nv.wf(),
{
}

} // verus!
