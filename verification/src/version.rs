use vstd::prelude::*;
use vstd::string::StringExecFns;

verus! {

/// The pre-release maturity stage of a version.  Every stage except
/// `Stable` carries a sequence number counting the releases made on that
/// stage since it was last entered; the first one is number 1.
#[derive(Clone, Copy, Debug, PartialEq, Eq, Structural)]
pub enum Channel {
    Stable,
    Alpha(u64),
    Beta(u64),
    Candidate(u64),
}

/// A semantic version together with its release channel.
#[derive(Clone, Copy, Debug, PartialEq, Eq, Structural)]
pub struct SemVer {
    pub major: u64,
    pub minor: u64,
    pub patch: u64,
    pub channel: Channel,
}

impl Channel {
    /// Position of the channel in the promotion order
    /// Stable < Alpha < Beta < Candidate.
    pub open spec fn severity(self) -> int {
        match self {
            Channel::Stable => 0,
            Channel::Alpha(_) => 1,
            Channel::Beta(_) => 2,
            Channel::Candidate(_) => 3,
        }
    }

    /// A channel is well formed when its sequence number, if it has one,
    /// is at least 1.
    pub open spec fn wf(self) -> bool {
        match self {
            Channel::Stable => true,
            Channel::Alpha(n) => n >= 1,
            Channel::Beta(n) => n >= 1,
            Channel::Candidate(n) => n >= 1,
        }
    }

    /// The sequence number carried by the channel; 0 for `Stable`.
    pub open spec fn spec_sequence(self) -> u64 {
        match self {
            Channel::Stable => 0,
            Channel::Alpha(n) => n,
            Channel::Beta(n) => n,
            Channel::Candidate(n) => n,
        }
    }

    /// What the channel is called when spoken of on its own:
    /// `alpha`, `beta`, `rc` or `stable`.
    pub open spec fn display_name(self) -> Seq<char> {
        match self {
            Channel::Stable => seq!['s', 't', 'a', 'b', 'l', 'e'],
            Channel::Alpha(_) => seq!['a', 'l', 'p', 'h', 'a'],
            Channel::Beta(_) => seq!['b', 'e', 't', 'a'],
            Channel::Candidate(_) => seq!['r', 'c'],
        }
    }

    /// The channel's name.
    pub fn name(&self) -> (r: String)
        ensures
            r@ == self.display_name(),
    {
        let t: &'static str = match self {
            Channel::Stable => "stable",
            Channel::Alpha(_) => "alpha",
            Channel::Beta(_) => "beta",
            Channel::Candidate(_) => "rc",
        };
        proof {
            reveal_strlit("stable");
            reveal_strlit("alpha");
            reveal_strlit("beta");
            reveal_strlit("rc");
            assert(t@ =~= self.display_name());
        }
        t.to_owned()
    }

    /// The sequence number carried by the channel; 0 for `Stable`.
    pub fn sequence(&self) -> (n: u64)
        ensures
            n == self.spec_sequence(),
    {
        match self {
            Channel::Stable => 0,
            Channel::Alpha(n) => *n,
            Channel::Beta(n) => *n,
            Channel::Candidate(n) => *n,
        }
    }
}

impl SemVer {
    /// A version is well formed when its channel is.
    pub open spec fn wf(self) -> bool {
        self.channel.wf()
    }
}

/// The character for a single decimal digit.
pub open spec fn digit_char(d: int) -> char {
    if d == 0 {
        '0'
    } else if d == 1 {
        '1'
    } else if d == 2 {
        '2'
    } else if d == 3 {
        '3'
    } else if d == 4 {
        '4'
    } else if d == 5 {
        '5'
    } else if d == 6 {
        '6'
    } else if d == 7 {
        '7'
    } else if d == 8 {
        '8'
    } else {
        '9'
    }
}

/// The canonical decimal rendering of a natural number: no sign, no
/// leading zeros (except for the single digit of 0 itself).
pub open spec fn spec_dec(n: nat) -> Seq<char>
    decreases n,
{
    if n < 10 {
        seq![digit_char(n as int)]
    } else {
        spec_dec(n / 10).push(digit_char((n % 10) as int))
    }
}

/// Name of the channel as it appears inside a pre-release label.
/// `Stable` has no label and yields the empty sequence.
pub open spec fn channel_name(c: Channel) -> Seq<char> {
    match c {
        Channel::Stable => seq![],
        Channel::Alpha(_) => seq!['a', 'l', 'p', 'h', 'a'],
        Channel::Beta(_) => seq!['b', 'e', 't', 'a'],
        Channel::Candidate(_) => seq!['r', 'c'],
    }
}

/// The full pre-release label of a channel: the bare name for sequence
/// number 1, otherwise the name followed by `.` and the number.
pub open spec fn channel_label(c: Channel) -> Seq<char> {
    if c is Stable {
        seq![]
    } else if c.spec_sequence() == 1 {
        channel_name(c)
    } else {
        channel_name(c) + seq!['.'] + spec_dec(c.spec_sequence() as nat)
    }
}

/// The version string: `MAJOR.MINOR.PATCH` for stable versions,
/// `MAJOR.MINOR.PATCH-label` for pre-releases.
pub open spec fn spec_render(v: SemVer) -> Seq<char> {
    let base = spec_dec(v.major as nat) + seq!['.'] + spec_dec(v.minor as nat) + seq!['.']
        + spec_dec(v.patch as nat);
    if v.channel is Stable {
        base
    } else {
        base + seq!['-'] + channel_label(v.channel)
    }
}

/// Appends the character for a single decimal digit to a string.
fn push_digit(s: &mut String, d: u64)
    requires
        d < 10,
    ensures
        final(s)@ == old(s)@.push(digit_char(d as int)),
{
    let t: &'static str = match d {
        0 => "0",
        1 => "1",
        2 => "2",
        3 => "3",
        4 => "4",
        5 => "5",
        6 => "6",
        7 => "7",
        8 => "8",
        _ => "9",
    };
    proof {
        reveal_strlit("0");
        reveal_strlit("1");
        reveal_strlit("2");
        reveal_strlit("3");
        reveal_strlit("4");
        reveal_strlit("5");
        reveal_strlit("6");
        reveal_strlit("7");
        reveal_strlit("8");
        reveal_strlit("9");
        assert(t@ =~= seq![digit_char(d as int)]);
    }
    s.append(t);
    proof {
        assert(s@ =~= old(s)@.push(digit_char(d as int)));
    }
}

/// Renders a number in canonical decimal notation.
pub fn u64_to_string(n: u64) -> (r: String)
    ensures
        r@ == spec_dec(n as nat),
    decreases n,
{
    if n < 10 {
        let mut s = String::new();
        push_digit(&mut s, n);
        proof {
            assert(s@ =~= spec_dec(n as nat));
        }
        s
    } else {
        let mut s = u64_to_string(n / 10);
        push_digit(&mut s, n % 10);
        s
    }
}

/// Renders a version as its canonical version string.
pub fn render(v: &SemVer) -> (r: String)
    ensures
        r@ == spec_render(*v),
{
    let mut s = u64_to_string(v.major);
    s.append(".");
    let minor = u64_to_string(v.minor);
    s.append(minor.as_str());
    s.append(".");
    let patch = u64_to_string(v.patch);
    s.append(patch.as_str());
    proof {
        reveal_strlit(".");
        assert("."@ =~= seq!['.']);
    }
    match &v.channel {
        Channel::Stable => {},
        Channel::Alpha(n) => {
            s.append("-alpha");
            proof {
                reveal_strlit("-alpha");
                assert("-alpha"@ =~= seq!['-'] + channel_name(v.channel));
            }
            if *n != 1 {
                s.append(".");
                let seqno = u64_to_string(*n);
                s.append(seqno.as_str());
            }
        },
        Channel::Beta(n) => {
            s.append("-beta");
            proof {
                reveal_strlit("-beta");
                assert("-beta"@ =~= seq!['-'] + channel_name(v.channel));
            }
            if *n != 1 {
                s.append(".");
                let seqno = u64_to_string(*n);
                s.append(seqno.as_str());
            }
        },
        Channel::Candidate(n) => {
            s.append("-rc");
            proof {
                reveal_strlit("-rc");
                assert("-rc"@ =~= seq!['-'] + channel_name(v.channel));
            }
            if *n != 1 {
                s.append(".");
                let seqno = u64_to_string(*n);
                s.append(seqno.as_str());
            }
        },
    }
    proof {
        assert(s@ =~= spec_render(*v));
    }
    s
}

} // verus!
