use vstd::prelude::*;
use vstd::string::StrSliceExecFns;
use crate::version::{digit_char, spec_dec};

verus! {

/// Whether a character is a decimal digit.
pub open spec fn is_digit(c: char) -> bool {
    '0' <= c && c <= '9'
}

/// The numeric value of a digit character.
pub open spec fn digit_val(c: char) -> int {
    c as int - '0' as int
}

/// Whether every character of the sequence is a decimal digit.
pub open spec fn all_digits(s: Seq<char>) -> bool {
    forall|i: int| 0 <= i < s.len() ==> is_digit(#[trigger] s[i])
}

/// The number denoted by a sequence of digit characters, read left to
/// right.
pub open spec fn digits_val(s: Seq<char>) -> int
    decreases s.len(),
{
    if s.len() == 0 {
        0
    } else {
        digits_val(s.drop_last()) * 10 + digit_val(s.last())
    }
}

/// What `str::parse::<u64>` yields on a plain digit string: the value,
/// if the string is nonempty, all digits, and the value fits in a u64.
pub open spec fn spec_parse_u64(s: Seq<char>) -> Option<u64> {
    if s.len() > 0 && all_digits(s) && digits_val(s) <= u64::MAX {
        Some(digits_val(s) as u64)
    } else {
        None
    }
}

/// Whether `p` is a prefix of `s`.
pub open spec fn starts(s: Seq<char>, p: Seq<char>) -> bool {
    s.len() >= p.len() && (forall|i: int| 0 <= i < p.len() ==> s[i] == #[trigger] p[i])
}

/// Appending digits on the right never decreases the denoted value.
proof fn lemma_digits_val_prefix_le(s: Seq<char>, j: int)
    requires
        0 <= j <= s.len(),
        all_digits(s),
    ensures
        digits_val(s.take(j)) <= digits_val(s),
    decreases s.len() - j,
{
    if j < s.len() {
        lemma_digits_val_prefix_le(s, j + 1);
        assert(s.take(j + 1).drop_last() =~= s.take(j));
        assert(s.take(j + 1).last() == s[j]);
        assert(digits_val(s.take(j)) * 10 + digit_val(s[j]) == digits_val(s.take(j + 1)));
        assert(digits_val(s.take(j)) >= 0 ==> digits_val(s.take(j)) * 10 >= digits_val(s.take(j)))
            by (nonlinear_arith);
        lemma_digits_val_nonneg(s.take(j));
    } else {
        assert(s.take(j) =~= s);
    }
}

/// A digit string denotes a nonnegative number.
proof fn lemma_digits_val_nonneg(s: Seq<char>)
    requires
        all_digits(s),
    ensures
        digits_val(s) >= 0,
    decreases s.len(),
{
    if s.len() > 0 {
        assert(all_digits(s.drop_last())) by {
            assert(forall|i: int| 0 <= i < s.len() - 1 ==> s.drop_last()[i] == #[trigger] s[i]);
        }
        lemma_digits_val_nonneg(s.drop_last());
        assert(digits_val(s.drop_last()) * 10 >= 0) by (nonlinear_arith)
            requires digits_val(s.drop_last()) >= 0;
    }
}

/// Parses a nonempty all-digit string as a number, as `str::parse::<u64>`
/// does on such input: `None` on anything else or on overflow.
pub fn parse_u64(s: &str) -> (r: Option<u64>)
    ensures
        r == spec_parse_u64(s@),
{
    let n = s.unicode_len();
    if n == 0 {
        return None;
    }
    let mut acc: u64 = 0;
    let mut i: usize = 0;
    while i < n
        invariant
            0 < n == s@.len(),
            0 <= i <= n,
            all_digits(s@.take(i as int)),
            acc == digits_val(s@.take(i as int)),
        decreases n - i,
    {
        let c = s.get_char(i);
        let cv = c as u32;
        if cv < 48 || cv > 57 {
            proof {
                assert(!is_digit(s@[i as int]));
                assert(!all_digits(s@));
            }
            return None;
        }
        let d = (cv - 48) as u64;
        proof {
            assert(is_digit(s@[i as int]));
            assert(d == digit_val(s@[i as int]));
        }
        if acc > (u64::MAX - d) / 10 {
            proof {
                assert(acc * 10 + d > u64::MAX) by (nonlinear_arith)
                    requires
                        acc > (u64::MAX - d) / 10,
                        d <= 9,
                ;
                assert(s@.take(i + 1).drop_last() =~= s@.take(i as int));
                assert(s@.take(i + 1).last() == s@[i as int]);
                assert(digits_val(s@.take(i + 1)) > u64::MAX);
                if all_digits(s@) {
                    lemma_digits_val_prefix_le(s@, i + 1);
                }
            }
            return None;
        }
        proof {
            assert(acc * 10 + d <= u64::MAX) by (nonlinear_arith)
                requires
                    acc <= (u64::MAX - d) / 10,
                    d <= 9,
            ;
            assert(s@.take(i + 1).drop_last() =~= s@.take(i as int));
            assert(s@.take(i + 1).last() == s@[i as int]);
        }
        acc = acc * 10 + d;
        i = i + 1;
    }
    proof {
        assert(s@.take(n as int) =~= s@);
    }
    Some(acc)
}

/// Whether the string starts with the given prefix.
pub fn starts_with(s: &str, p: &str) -> (b: bool)
    ensures
        b == starts(s@, p@),
{
    let sn = s.unicode_len();
    let pn = p.unicode_len();
    if sn < pn {
        return false;
    }
    let mut i: usize = 0;
    while i < pn
        invariant
            0 <= i <= pn,
            pn <= sn,
            sn == s@.len(),
            pn == p@.len(),
            forall|j: int| 0 <= j < i ==> s@[j] == #[trigger] p@[j],
        decreases pn - i,
    {
        if s.get_char(i) != p.get_char(i) {
            return false;
        }
        i = i + 1;
    }
    true
}

/// Whether the two strings hold the same characters.
pub fn str_eq(s: &str, t: &str) -> (b: bool)
    ensures
        b == (s@ == t@),
{
    let sn = s.unicode_len();
    let tn = t.unicode_len();
    if sn != tn {
        return false;
    }
    let b = starts_with(s, t);
    proof {
        if b {
            assert(s@ =~= t@);
        }
    }
    b
}

/// Index of the first `.` in the sequence; the length if there is none.
pub open spec fn first_dot(s: Seq<char>) -> int
    decreases s.len(),
{
    if s.len() == 0 {
        0
    } else if s[0] == '.' {
        0
    } else {
        1 + first_dot(s.drop_first())
    }
}

/// The part of the string before the first `.`: the whole string if
/// there is no dot.
pub open spec fn spec_first_segment(s: Seq<char>) -> Seq<char> {
    s.take(first_dot(s))
}

/// `first_dot` is the least index holding a dot.
proof fn lemma_first_dot_at(s: Seq<char>, i: int)
    requires
        0 <= i <= s.len(),
        forall|j: int| 0 <= j < i ==> s[j] != '.',
        i < s.len() ==> s[i] == '.',
        i == s.len() ==> (forall|j: int| 0 <= j < s.len() ==> s[j] != '.'),
    ensures
        first_dot(s) == i,
    decreases s.len(),
{
    if s.len() == 0 {
    } else if s[0] == '.' {
    } else {
        assert(forall|j: int| 0 <= j < s.drop_first().len() ==> s.drop_first()[j] == #[trigger] s[j
            + 1]);
        lemma_first_dot_at(s.drop_first(), i - 1);
    }
}

/// The part of the string before the first `.`.
pub fn first_segment(s: &str) -> (r: String)
    ensures
        r@ == spec_first_segment(s@),
{
    let n = s.unicode_len();
    let mut i: usize = 0;
    while i < n
        invariant
            0 <= i <= n,
            n == s@.len(),
            forall|j: int| 0 <= j < i ==> s@[j] != '.',
        decreases n - i,
    {
        if s.get_char(i) == '.' {
            proof {
                lemma_first_dot_at(s@, i as int);
            }
            let r = s.substring_char(0, i);
            let owned = r.to_owned();
            proof {
                assert(owned@ =~= spec_first_segment(s@));
            }
            return owned;
        }
        i = i + 1;
    }
    proof {
        lemma_first_dot_at(s@, n as int);
    }
    let r = s.substring_char(0, n);
    let owned = r.to_owned();
    proof {
        assert(owned@ =~= spec_first_segment(s@));
    }
    owned
}

/// A canonically rendered number is all digits.
pub proof fn lemma_spec_dec_digits(n: nat)
    ensures
        spec_dec(n).len() >= 1,
        all_digits(spec_dec(n)),
    decreases n,
{
    if n < 10 {
        assert(is_digit(digit_char(n as int)));
    } else {
        lemma_spec_dec_digits(n / 10);
        assert(is_digit(digit_char((n % 10) as int)));
        assert(forall|i: int|
            0 <= i < spec_dec(n).len() - 1 ==> spec_dec(n)[i] == #[trigger] spec_dec(n / 10)[i]);
    }
}

/// Parsing a canonically rendered number gives the number back.
pub proof fn lemma_parse_spec_dec(n: u64)
    ensures
        spec_parse_u64(spec_dec(n as nat)) == Some(n),
    decreases n,
{
    lemma_spec_dec_digits(n as nat);
    lemma_digits_val_spec_dec(n as nat);
}

/// The value denoted by a canonical rendering is the rendered number.
proof fn lemma_digits_val_spec_dec(n: nat)
    ensures
        digits_val(spec_dec(n)) == n,
    decreases n,
{
    if n < 10 {
        assert(spec_dec(n).drop_last() =~= Seq::<char>::empty());
        assert(digits_val(Seq::<char>::empty()) == 0);
        assert(spec_dec(n).last() == digit_char(n as int));
        assert(digits_val(spec_dec(n)) == digit_val(digit_char(n as int)));
    } else {
        lemma_digits_val_spec_dec(n / 10);
        assert(spec_dec(n).drop_last() =~= spec_dec(n / 10));
        assert(spec_dec(n).last() == digit_char((n % 10) as int));
        assert(digit_val(digit_char((n % 10) as int)) == n % 10);
        assert((n / 10) * 10 + n % 10 == n) by (nonlinear_arith);
    }
}

} // verus!
