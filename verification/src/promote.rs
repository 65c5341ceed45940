use vstd::prelude::*;
use crate::text::{starts, str_eq};
use crate::version::{Channel, SemVer};

verus! {

/// An operator's promotion request, one per invocation.
#[derive(Clone, Copy, Debug, PartialEq, Eq, Structural)]
pub enum Request {
    Major,
    Minor,
    Patch,
    Alpha,
    AlphaMajor,
    Beta,
    BetaMajor,
    Rc,
    RcMajor,
}

/// Why a promotion was refused.
///
/// Downgrade requests are rejected uniformly: asking for a channel less
/// severe than the current one never changes the version, whichever
/// channels are involved, and the rejection is reported rather than
/// fatal.
#[derive(Clone, Copy, Debug, PartialEq, Eq, Structural)]
pub enum PromotionError {
    /// A `*-major` request while a pre-release channel is active.
    IllegalPromotion,
    /// An unrecognized promotion keyword.
    InvalidPromotionType,
    /// A request for a channel less severe than the current one.
    DowngradeRejected,
}

/// The request denoted by each recognized promotion keyword.
pub open spec fn request_of_str(s: Seq<char>) -> Option<Request> {
    if s == seq!['m', 'a', 'j', 'o', 'r'] {
        Some(Request::Major)
    } else if s == seq!['m', 'i', 'n', 'o', 'r'] {
        Some(Request::Minor)
    } else if s == seq!['p', 'a', 't', 'c', 'h'] {
        Some(Request::Patch)
    } else if s == seq!['a', 'l', 'p', 'h', 'a'] {
        Some(Request::Alpha)
    } else if s == seq!['a', 'l', 'p', 'h', 'a', '-', 'm', 'a', 'j', 'o', 'r'] {
        Some(Request::AlphaMajor)
    } else if s == seq!['b', 'e', 't', 'a'] {
        Some(Request::Beta)
    } else if s == seq!['b', 'e', 't', 'a', '-', 'm', 'a', 'j', 'o', 'r'] {
        Some(Request::BetaMajor)
    } else if s == seq!['r', 'c'] {
        Some(Request::Rc)
    } else if s == seq!['r', 'c', '-', 'm', 'a', 'j', 'o', 'r'] {
        Some(Request::RcMajor)
    } else {
        None
    }
}

/// Parses a promotion keyword; anything unrecognized is
/// `InvalidPromotionType`.
pub fn parse_request(s: &str) -> (r: Result<Request, PromotionError>)
    ensures
        r == match request_of_str(s@) {
            Some(req) => Result::<Request, PromotionError>::Ok(req),
            None => Result::<Request, PromotionError>::Err(PromotionError::InvalidPromotionType),
        },
{
    proof {
        reveal_strlit("major");
        reveal_strlit("minor");
        reveal_strlit("patch");
        reveal_strlit("alpha");
        reveal_strlit("alpha-major");
        reveal_strlit("beta");
        reveal_strlit("beta-major");
        reveal_strlit("rc");
        reveal_strlit("rc-major");
        assert("major"@ =~= seq!['m', 'a', 'j', 'o', 'r']);
        assert("minor"@ =~= seq!['m', 'i', 'n', 'o', 'r']);
        assert("patch"@ =~= seq!['p', 'a', 't', 'c', 'h']);
        assert("alpha"@ =~= seq!['a', 'l', 'p', 'h', 'a']);
        assert("alpha-major"@ =~= seq!['a', 'l', 'p', 'h', 'a', '-', 'm', 'a', 'j', 'o', 'r']);
        assert("beta"@ =~= seq!['b', 'e', 't', 'a']);
        assert("beta-major"@ =~= seq!['b', 'e', 't', 'a', '-', 'm', 'a', 'j', 'o', 'r']);
        assert("rc"@ =~= seq!['r', 'c']);
        assert("rc-major"@ =~= seq!['r', 'c', '-', 'm', 'a', 'j', 'o', 'r']);
    }
    if str_eq(s, "major") {
        Ok(Request::Major)
    } else if str_eq(s, "minor") {
        Ok(Request::Minor)
    } else if str_eq(s, "patch") {
        Ok(Request::Patch)
    } else if str_eq(s, "alpha") {
        Ok(Request::Alpha)
    } else if str_eq(s, "alpha-major") {
        Ok(Request::AlphaMajor)
    } else if str_eq(s, "beta") {
        Ok(Request::Beta)
    } else if str_eq(s, "beta-major") {
        Ok(Request::BetaMajor)
    } else if str_eq(s, "rc") {
        Ok(Request::Rc)
    } else if str_eq(s, "rc-major") {
        Ok(Request::RcMajor)
    } else {
        Err(PromotionError::InvalidPromotionType)
    }
}

/// The channel a plain channel request asks for, at sequence number 1.
pub open spec fn requested_channel(r: Request) -> Channel {
    match r {
        Request::Alpha | Request::AlphaMajor => Channel::Alpha(1),
        Request::Beta | Request::BetaMajor => Channel::Beta(1),
        Request::Rc | Request::RcMajor => Channel::Candidate(1),
        _ => Channel::Stable,
    }
}

/// The incremented component stays within the machine's range.  This is
/// the only restriction on the state machine's inputs.
pub open spec fn next_fits(v: SemVer, r: Request) -> bool {
    match r {
        Request::Major => v.major < u64::MAX,
        Request::Minor => v.minor < u64::MAX,
        Request::Patch => v.patch < u64::MAX,
        Request::AlphaMajor | Request::BetaMajor | Request::RcMajor => v.channel is Stable
            ==> v.major < u64::MAX,
        Request::Alpha => match v.channel {
            Channel::Stable => v.minor < u64::MAX,
            Channel::Alpha(n) => n < u64::MAX,
            _ => true,
        },
        Request::Beta => match v.channel {
            Channel::Stable => v.minor < u64::MAX,
            Channel::Beta(n) => n < u64::MAX,
            _ => true,
        },
        Request::Rc => match v.channel {
            Channel::Stable => v.minor < u64::MAX,
            Channel::Candidate(n) => n < u64::MAX,
            _ => true,
        },
    }
}

/// The release channel state machine: what version a promotion request
/// leads to from the current one.
///
/// - `major`/`minor`/`patch` increment that component, zero the lower
///   ones and land on `Stable`, from any channel.
/// - `alpha-major`/`beta-major`/`rc-major` start the next major line on
///   the requested channel, and are legal only from `Stable`.
/// - `alpha`/`beta`/`rc` start the next minor line on the requested
///   channel from `Stable`, advance the sequence number on the same
///   channel, collapse the sequence number to 1 from a less severe
///   channel, and are rejected as a downgrade from a more severe one.
pub open spec fn spec_next(v: SemVer, r: Request) -> Result<SemVer, PromotionError> {
    match r {
        Request::Major => Ok(
            SemVer {
                major: (v.major + 1) as u64,
                minor: 0,
                patch: 0,
                channel: Channel::Stable,
            },
        ),
        Request::Minor => Ok(
            SemVer { major: v.major, minor: (v.minor + 1) as u64, patch: 0, channel: Channel::Stable },
        ),
        Request::Patch => Ok(
            SemVer {
                major: v.major,
                minor: v.minor,
                patch: (v.patch + 1) as u64,
                channel: Channel::Stable,
            },
        ),
        Request::AlphaMajor | Request::BetaMajor | Request::RcMajor => if v.channel is Stable {
            Ok(
                SemVer {
                    major: (v.major + 1) as u64,
                    minor: 0,
                    patch: 0,
                    channel: requested_channel(r),
                },
            )
        } else {
            Err(PromotionError::IllegalPromotion)
        },
        Request::Alpha => match v.channel {
            Channel::Stable => Ok(
                SemVer {
                    major: v.major,
                    minor: (v.minor + 1) as u64,
                    patch: 0,
                    channel: Channel::Alpha(1),
                },
            ),
            Channel::Alpha(n) => Ok(SemVer { channel: Channel::Alpha((n + 1) as u64), ..v }),
            _ => Err(PromotionError::DowngradeRejected),
        },
        Request::Beta => match v.channel {
            Channel::Stable => Ok(
                SemVer {
                    major: v.major,
                    minor: (v.minor + 1) as u64,
                    patch: 0,
                    channel: Channel::Beta(1),
                },
            ),
            Channel::Beta(n) => Ok(SemVer { channel: Channel::Beta((n + 1) as u64), ..v }),
            Channel::Alpha(_) => Ok(SemVer { channel: Channel::Beta(1), ..v }),
            Channel::Candidate(_) => Err(PromotionError::DowngradeRejected),
        },
        Request::Rc => match v.channel {
            Channel::Stable => Ok(
                SemVer {
                    major: v.major,
                    minor: (v.minor + 1) as u64,
                    patch: 0,
                    channel: Channel::Candidate(1),
                },
            ),
            Channel::Candidate(n) => Ok(SemVer { channel: Channel::Candidate((n + 1) as u64), ..v }),
            _ => Ok(SemVer { channel: Channel::Candidate(1), ..v }),
        },
    }
}

/// Computes the next version for a promotion request.
pub fn next(v: &SemVer, r: Request) -> (res: Result<SemVer, PromotionError>)
    requires
        next_fits(*v, r),
    ensures
        res == spec_next(*v, r),
{
    match r {
        Request::Major => Ok(
            SemVer { major: v.major + 1, minor: 0, patch: 0, channel: Channel::Stable },
        ),
        Request::Minor => Ok(
            SemVer { major: v.major, minor: v.minor + 1, patch: 0, channel: Channel::Stable },
        ),
        Request::Patch => Ok(
            SemVer { major: v.major, minor: v.minor, patch: v.patch + 1, channel: Channel::Stable },
        ),
        Request::AlphaMajor | Request::BetaMajor | Request::RcMajor => match v.channel {
            Channel::Stable => {
                let channel = match r {
                    Request::AlphaMajor => Channel::Alpha(1),
                    Request::BetaMajor => Channel::Beta(1),
                    _ => Channel::Candidate(1),
                };
                Ok(SemVer { major: v.major + 1, minor: 0, patch: 0, channel })
            },
            _ => Err(PromotionError::IllegalPromotion),
        },
        Request::Alpha => match v.channel {
            Channel::Stable => Ok(
                SemVer { major: v.major, minor: v.minor + 1, patch: 0, channel: Channel::Alpha(1) },
            ),
            Channel::Alpha(n) => Ok(SemVer { channel: Channel::Alpha(n + 1), ..*v }),
            _ => Err(PromotionError::DowngradeRejected),
        },
        Request::Beta => match v.channel {
            Channel::Stable => Ok(
                SemVer { major: v.major, minor: v.minor + 1, patch: 0, channel: Channel::Beta(1) },
            ),
            Channel::Beta(n) => Ok(SemVer { channel: Channel::Beta(n + 1), ..*v }),
            Channel::Alpha(_) => Ok(SemVer { channel: Channel::Beta(1), ..*v }),
            Channel::Candidate(_) => Err(PromotionError::DowngradeRejected),
        },
        Request::Rc => match v.channel {
            Channel::Stable => Ok(
                SemVer {
                    major: v.major,
                    minor: v.minor + 1,
                    patch: 0,
                    channel: Channel::Candidate(1),
                },
            ),
            Channel::Candidate(n) => Ok(SemVer { channel: Channel::Candidate(n + 1), ..*v }),
            _ => Ok(SemVer { channel: Channel::Candidate(1), ..*v }),
        },
    }
}

} // verus!
