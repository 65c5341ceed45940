use vstd::prelude::*;
use vstd::string::StringExecFns;
use crate::version::{Channel, channel_name};

verus! {

/// One stage of the branch cascade: the target branch's ref is moved to
/// the source branch's current commit — a deliberate force-overwrite,
/// never a merge — and the working tree is checked out on the target.
pub struct CascadeStage {
    pub source: String,
    pub target: String,
}

impl View for CascadeStage {
    type V = (Seq<char>, Seq<char>);

    open spec fn view(&self) -> (Seq<char>, Seq<char>) {
        (self.source@, self.target@)
    }
}

/// The stages of a sequence of cascade stages, as character sequences.
pub open spec fn stages_view(v: Seq<CascadeStage>) -> Seq<(Seq<char>, Seq<char>)> {
    v.map_values(|s: CascadeStage| s@)
}

/// How many cascade stages a promotion to the channel runs: one per
/// integration branch up to the channel's severity; a stable release
/// runs all four, ending on the trunk.
pub open spec fn stage_count(c: Channel) -> int {
    if c is Stable {
        4
    } else {
        c.severity()
    }
}

/// The full cascade: the working branch into alpha, then alpha into
/// beta, beta into rc, and rc into the trunk.
pub open spec fn full_cascade(source: Seq<char>, trunk: Seq<char>) -> Seq<
    (Seq<char>, Seq<char>),
> {
    seq![
        (source, channel_name(Channel::Alpha(1))),
        (channel_name(Channel::Alpha(1)), channel_name(Channel::Beta(1))),
        (channel_name(Channel::Beta(1)), channel_name(Channel::Candidate(1))),
        (channel_name(Channel::Candidate(1)), trunk),
    ]
}

/// The stages a promotion to the channel runs, in order.
pub open spec fn spec_cascade(source: Seq<char>, trunk: Seq<char>, c: Channel) -> Seq<
    (Seq<char>, Seq<char>),
> {
    full_cascade(source, trunk).take(stage_count(c))
}

/// The cascade runs exactly as many stages as the channel's severity
/// asks: a pre-release promotion never touches the trunk, and a stable
/// promotion ends by overwriting it.
pub proof fn lemma_cascade_stage_count(source: Seq<char>, trunk: Seq<char>, c: Channel)
    requires
        trunk != channel_name(Channel::Alpha(1)),
        trunk != channel_name(Channel::Beta(1)),
        trunk != channel_name(Channel::Candidate(1)),
    ensures
        spec_cascade(source, trunk, c).len() == stage_count(c),
        !(c is Stable) ==> forall|i: int|
            0 <= i < spec_cascade(source, trunk, c).len() ==> (#[trigger] spec_cascade(
                source,
                trunk,
                c,
            )[i]).1 != trunk,
        c is Stable ==> spec_cascade(source, trunk, c).last().1 == trunk,
{
}

/// Plans the branch cascade for a promotion to the channel.
pub fn cascade_plan(source: &str, trunk: &str, c: &Channel) -> (r: Vec<CascadeStage>)
    ensures
        stages_view(r@) == spec_cascade(source@, trunk@, *c),
{
    proof {
        reveal_strlit("alpha");
        reveal_strlit("beta");
        reveal_strlit("rc");
        assert("alpha"@ =~= channel_name(Channel::Alpha(1)));
        assert("beta"@ =~= channel_name(Channel::Beta(1)));
        assert("rc"@ =~= channel_name(Channel::Candidate(1)));
    }
    let n: usize = match c {
        Channel::Alpha(_) => 1,
        Channel::Beta(_) => 2,
        Channel::Candidate(_) => 3,
        Channel::Stable => 4,
    };
    let mut r: Vec<CascadeStage> = Vec::new();
    r.push(CascadeStage { source: source.to_owned(), target: String::from_str("alpha") });
    if n >= 2 {
        r.push(
            CascadeStage { source: String::from_str("alpha"), target: String::from_str("beta") },
        );
    }
    if n >= 3 {
        r.push(CascadeStage { source: String::from_str("beta"), target: String::from_str("rc") });
    }
    if n >= 4 {
        r.push(CascadeStage { source: String::from_str("rc"), target: trunk.to_owned() });
    }
    proof {
        assert(stages_view(r@) =~= spec_cascade(source@, trunk@, *c));
    }
    r
}

} // verus!
