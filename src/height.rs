use crate::error::RelayError;
use vstd::prelude::*;

verus! {

/// A block height on a chain that may have been upgraded: the revision number
/// counts upgrades, the revision height counts blocks within a revision.
#[derive(Debug, Clone, Copy, PartialEq, Eq, Structural)]
pub struct Height {
    pub revision_number: u64,
    pub revision_height: u64,
}

impl Height {
    /// Heights are ordered by revision number first, then by revision height.
    pub open spec fn spec_lt(self, other: Height) -> bool {
        self.revision_number < other.revision_number || (self.revision_number
            == other.revision_number && self.revision_height < other.revision_height)
    }

    pub fn new(revision_number: u64, revision_height: u64) -> (r: Height)
        ensures
            r.revision_number == revision_number,
            r.revision_height == revision_height,
    {
        Height { revision_number, revision_height }
    }

    /// Whether `self` lies strictly below `other`.
    pub fn lt(&self, other: &Height) -> (r: bool)
        ensures
            r == self.spec_lt(*other),
    {
        self.revision_number < other.revision_number || (self.revision_number
            == other.revision_number && self.revision_height < other.revision_height)
    }
}

/// The fraction of trusted voting power that must sign a new header.
#[derive(Debug, Clone, Copy, PartialEq, Eq, Structural)]
pub struct TrustThreshold {
    pub numerator: u64,
    pub denominator: u64,
}

impl TrustThreshold {
    /// The fraction lies in `(0, 1]`.
    pub open spec fn wf(self) -> bool {
        0 < self.numerator && self.numerator <= self.denominator
    }

    /// The threshold of one third.
    pub fn one_third() -> (r: TrustThreshold)
        ensures
            r.numerator == 1,
            r.denominator == 3,
            r.wf(),
    {
        TrustThreshold { numerator: 1, denominator: 3 }
    }

    /// Builds a threshold, refusing a fraction outside `(0, 1]`.
    pub fn new(numerator: u64, denominator: u64) -> (r: Result<TrustThreshold, RelayError>)
        ensures
            r matches Ok(t) ==> t.numerator == numerator && t.denominator == denominator && t.wf(),
            r is Err <==> !(0 < numerator && numerator <= denominator),
            r matches Err(e) ==> e == RelayError::InvalidTrustParameters,
    {
        if 0 < numerator && numerator <= denominator {
            Ok(TrustThreshold { numerator, denominator })
        } else {
            Err(RelayError::InvalidTrustParameters)
        }
    }
}

/// The recommended trusting period: two thirds of the unbonding period,
/// rounded down.
pub open spec fn default_trusting_period(unbonding_period: u32) -> int {
    (2 * unbonding_period) / 3
}

/// The trusting period that applies: the one requested, or else the
/// recommended one. It may never exceed the unbonding period.
pub open spec fn resolved_trusting_period(unbonding_period: u32, requested: Option<u32>) -> int {
    match requested {
        Some(p) => p as int,
        None => default_trusting_period(unbonding_period),
    }
}

/// Resolves the trusting period from the unbonding period and an optional
/// explicit request.
pub fn resolve_trusting_period(unbonding_period: u32, requested: Option<u32>) -> (r: Result<
    u32,
    RelayError,
>)
    ensures
        r matches Ok(p) ==> p == resolved_trusting_period(unbonding_period, requested),
        r is Err <==> resolved_trusting_period(unbonding_period, requested) > unbonding_period,
        r matches Err(e) ==> e == RelayError::InvalidTrustParameters,
        requested is None ==> (r matches Ok(p) && p == (2 * unbonding_period) / 3),
        requested matches Some(p) && p > unbonding_period ==> r is Err,
{
    let p: u32 = match requested {
        Some(p) => p,
        None => ((2 * (unbonding_period as u64)) / 3) as u32,
    };
    if p > unbonding_period {
        Err(RelayError::InvalidTrustParameters)
    } else {
        Ok(p)
    }
}

/// Whether `c` is an ASCII decimal digit.
pub open spec fn is_digit(c: char) -> bool {
    '0' <= c && c <= '9'
}

/// The value of a string of decimal digits, most significant first.
pub open spec fn digits_value(s: Seq<char>) -> nat
    decreases s.len(),
{
    if s.len() == 0 {
        0
    } else {
        digits_value(s.drop_last()) * 10 + ((s.last() as nat) - ('0' as nat)) as nat
    }
}

/// The position of the last `-` in `s`, or -1 where there is none.
pub open spec fn last_dash(s: Seq<char>) -> int
    decreases s.len(),
{
    if s.len() == 0 {
        -1
    } else if s.last() == '-' {
        s.len() - 1
    } else {
        last_dash(s.drop_last())
    }
}

/// The revision number that a chain identifier `<name>-<number>` carries: the
/// decimal number after the last dash, where it fits 64 bits, else zero.
pub open spec fn revision_of(s: Seq<char>) -> u64 {
    let p = last_dash(s);
    let suffix = s.subrange(p + 1, s.len() as int);
    if p >= 0 && suffix.len() > 0 && (forall|i: int| 0 <= i < suffix.len() ==> is_digit(#[trigger] suffix[i]))
        && digits_value(suffix) <= u64::MAX {
        digits_value(suffix) as u64
    } else {
        0
    }
}

/// A chain identifier with the revision number that it embeds.
#[derive(Debug, Clone, PartialEq, Eq)]
pub struct ChainIdentity {
    pub id: String,
    pub revision_number: u64,
}

impl ChainIdentity {
    /// The identifier is non-empty and the revision number is the one it embeds.
    pub open spec fn wf(&self) -> bool {
        self.id@.len() > 0 && self.revision_number == revision_of(self.id@)
    }

    /// Parses a chain identifier; only the empty identifier is refused.
    pub fn parse(s: &str) -> (r: Result<ChainIdentity, RelayError>)
        ensures
            r is Err <==> s@.len() == 0,
            r matches Err(e) ==> e == RelayError::MalformedChainId,
            r matches Ok(c) ==> c.wf() && c.id@ == s@,
    {
        let n = s.unicode_len();
        if n == 0 {
            return Err(RelayError::MalformedChainId);
        }
        let revision_number = match find_last_dash(s, n) {
            Some(p) => parse_suffix(s, n, p),
            None => 0,
        };
        Ok(ChainIdentity { id: s.to_owned(), revision_number })
    }

    /// The identifier as written.
    pub fn as_str(&self) -> (r: &str)
        ensures
            r@ == self.id@,
    {
        self.id.as_str()
    }

    /// The revision number embedded in the identifier.
    pub fn revision_number(&self) -> (r: u64)
        ensures
            r == self.revision_number,
    {
        self.revision_number
    }
}

/// The position of the last dash, if there is one.
fn find_last_dash(s: &str, n: usize) -> (r: Option<usize>)
    requires
        n == s@.len(),
    ensures
        r matches Some(p) ==> p == last_dash(s@) && p < n,
        r is None ==> last_dash(s@) == -1,
{
    let mut i: usize = n;
    assert(s@.subrange(0, n as int) == s@);
    while i > 0
        invariant
            i <= n,
            n == s@.len(),
            last_dash(s@) == last_dash(s@.subrange(0, i as int)),
        decreases i,
    {
        let c = s.get_char(i - 1);
        assert(s@.subrange(0, i as int).drop_last() == s@.subrange(0, i - 1));
        if c == '-' {
            return Some(i - 1);
        }
        i = i - 1;
    }
    None
}

/// The revision number behind the dash at `p`.
fn parse_suffix(s: &str, n: usize, p: usize) -> (r: u64)
    requires
        n == s@.len(),
        p < n,
        p == last_dash(s@),
    ensures
        r == revision_of(s@),
{
    let ghost suffix = s@.subrange(p + 1, n as int);
    if p + 1 == n {
        return 0;
    }
    let mut value: u64 = 0;
    let mut i: usize = p + 1;
    while i < n
        invariant
            p + 1 <= i <= n,
            p == last_dash(s@),
            n == s@.len(),
            suffix == s@.subrange(p + 1, n as int),
            forall|j: int| 0 <= j < i - (p + 1) ==> is_digit(#[trigger] suffix[j]),
            value == digits_value(s@.subrange(p + 1, i as int)),
        decreases n - i,
    {
        let c = s.get_char(i);
        assert(s@.subrange(p + 1, i + 1).drop_last() == s@.subrange(p + 1, i as int));
        if !('0' <= c && c <= '9') {
            assert(!is_digit(suffix[i - (p + 1)]));
            assert(!(forall|j: int| 0 <= j < suffix.len() ==> is_digit(#[trigger] suffix[j])));
            return 0;
        }
        let d = (c as u32 - '0' as u32) as u64;
        if value > (u64::MAX - d) / 10 {
            proof {
                assert(value * 10 + d > u64::MAX) by (nonlinear_arith)
                    requires value > (u64::MAX - d) / 10, d <= 9;
                assert(suffix.subrange(0, i + 1 - (p + 1)) == s@.subrange(p + 1, i + 1));
                if forall|j: int| 0 <= j < suffix.len() ==> is_digit(#[trigger] suffix[j]) {
                    lemma_digits_monotone(suffix, i + 1 - (p + 1));
                }
            }
            return 0;
        }
        value = value * 10 + d;
        i = i + 1;
    }
    assert(s@.subrange(p + 1, n as int) == suffix);
    value
}

/// A prefix of a digit string never has a larger value.
proof fn lemma_digits_monotone(s: Seq<char>, k: int)
    requires
        0 <= k <= s.len(),
        forall|j: int| 0 <= j < s.len() ==> is_digit(#[trigger] s[j]),
    ensures
        digits_value(s.subrange(0, k)) <= digits_value(s),
    decreases s.len(),
{
    if k < s.len() {
        assert(s.drop_last() == s.subrange(0, s.len() - 1));
        assert(s.drop_last().subrange(0, k) == s.subrange(0, k));
        lemma_digits_monotone(s.drop_last(), k);
    } else {
        assert(s.subrange(0, k) == s);
    }
}

} // verus!
