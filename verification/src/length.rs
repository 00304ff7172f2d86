//! The declared-length accounting of a streaming body.
//!
//! A body advertises either an exact byte count or an unknown ("chunked")
//! size. As chunks are observed the exact count is decremented with a
//! saturating subtraction, so the remaining count can never underflow even
//! when more bytes arrive than were declared; the mismatch is tolerated
//! silently at this layer.

use vstd::prelude::*;

verus! {

/// The advertised size state of a body: an exact byte count (the zero
/// sentinel is the exact count `0`) or an unknown/streaming marker.
#[derive(Clone, Copy, Debug, PartialEq, Eq, Structural)]
pub enum DeclaredLength {
    /// Exactly this many bytes remain.
    Exact(u64),
    /// The size is unknown (chunked/streaming transfer).
    Unknown,
}

/// What a saturating subtraction of `n` bytes leaves of a declared length:
/// an exact count shrinks but stops at zero; an unknown length is unchanged.
pub open spec fn sub_sat(l: DeclaredLength, n: u64) -> DeclaredLength {
    match l {
        DeclaredLength::Exact(m) => if n <= m {
            DeclaredLength::Exact((m - n) as u64)
        } else {
            DeclaredLength::Exact(0u64)
        },
        DeclaredLength::Unknown => DeclaredLength::Unknown,
    }
}

/// The total of a sequence of chunk lengths, as a mathematical integer.
pub open spec fn total_len(amounts: Seq<u64>) -> int
    decreases amounts.len(),
{
    if amounts.len() == 0 {
        0
    } else {
        amounts[0] + total_len(amounts.skip(1))
    }
}

/// The declared length left after observing each amount in order.
pub open spec fn after_feeding(l: DeclaredLength, amounts: Seq<u64>) -> DeclaredLength
    decreases amounts.len(),
{
    if amounts.len() == 0 {
        l
    } else {
        after_feeding(sub_sat(l, amounts[0]), amounts.skip(1))
    }
}

/// A sequence of chunk lengths never totals a negative number of bytes.
pub proof fn lemma_total_len_nonneg(amounts: Seq<u64>)
    ensures
        total_len(amounts) >= 0,
    decreases amounts.len(),
{
    if amounts.len() > 0 {
        lemma_total_len_nonneg(amounts.skip(1));
    }
}

/// Law: declared-length accounting never underflows. Feeding chunks whose
/// total length reaches or exceeds an exact declared length leaves the
/// remaining length at exactly zero, never a negative or wrapped value.
pub proof fn lemma_feeding_past_declared_hits_zero(declared: u64, amounts: Seq<u64>)
    requires
        total_len(amounts) >= declared,
    ensures
        after_feeding(DeclaredLength::Exact(declared), amounts) == DeclaredLength::Exact(0u64),
    decreases amounts.len(),
{
    if amounts.len() == 0 {
        lemma_total_len_nonneg(amounts);
    } else {
        let first = amounts[0];
        let rest = amounts.skip(1);
        if first >= declared {
            lemma_total_len_nonneg(rest);
            lemma_feeding_past_declared_hits_zero(0u64, rest);
        } else {
            lemma_feeding_past_declared_hits_zero((declared - first) as u64, rest);
        }
    }
}

impl DeclaredLength {
    /// The zero-length sentinel: an exact count of zero bytes.
    pub fn zero() -> (r: DeclaredLength)
        ensures
            r == DeclaredLength::Exact(0u64),
    {
        DeclaredLength::Exact(0)
    }

    /// The unknown/chunked marker.
    pub fn chunked() -> (r: DeclaredLength)
        ensures
            r == DeclaredLength::Unknown,
    {
        DeclaredLength::Unknown
    }

    /// An exact declared length of `n` bytes.
    pub fn new(n: u64) -> (r: DeclaredLength)
        ensures
            r == DeclaredLength::Exact(n),
    {
        DeclaredLength::Exact(n)
    }

    /// True exactly when the declared length is the zero sentinel.
    pub fn is_zero(&self) -> (r: bool)
        ensures
            r == (*self == DeclaredLength::Exact(0u64)),
    {
        match self {
            DeclaredLength::Exact(m) => *m == 0,
            DeclaredLength::Unknown => false,
        }
    }

    /// True exactly when the declared length is an exact byte count.
    pub fn is_exact(&self) -> (r: bool)
        ensures
            r == (*self is Exact),
    {
        match self {
            DeclaredLength::Exact(_) => true,
            DeclaredLength::Unknown => false,
        }
    }

    /// The exact byte count, if one was declared.
    pub fn to_optional_exact(&self) -> (r: Option<u64>)
        ensures
            r == (match *self {
                DeclaredLength::Exact(m) => Some(m),
                DeclaredLength::Unknown => None::<u64>,
            }),
    {
        match self {
            DeclaredLength::Exact(m) => Some(*m),
            DeclaredLength::Unknown => None,
        }
    }

    /// Subtract `n` observed bytes, saturating at zero; an unknown length is
    /// left unchanged.
    pub fn saturating_subtract(&mut self, n: u64)
        ensures
            *final(self) == sub_sat(*old(self), n),
    {
        match self {
            DeclaredLength::Exact(m) => {
                if n <= *m {
                    *self = DeclaredLength::Exact(*m - n);
                } else {
                    *self = DeclaredLength::Exact(0);
                }
            },
            DeclaredLength::Unknown => {},
        }
    }
}

/// A lower/upper bound on the number of body bytes still to come.
#[derive(Clone, Copy, Debug, PartialEq, Eq)]
pub struct SizeHint {
    /// At least this many bytes remain.
    pub lower: u64,
    /// At most this many bytes remain, when a bound is known.
    pub upper: Option<u64>,
}

/// The size hint a declared length justifies: exact bounds for an exact
/// count, and the unbounded hint for an unknown length.
pub open spec fn hint_for(l: DeclaredLength) -> SizeHint {
    match l {
        DeclaredLength::Exact(m) => SizeHint { lower: m, upper: Some(m) },
        DeclaredLength::Unknown => SizeHint { lower: 0u64, upper: None::<u64> },
    }
}

impl SizeHint {
    /// The unbounded hint: anything from zero bytes upward.
    pub fn new() -> (r: SizeHint)
        ensures
            r == (SizeHint { lower: 0u64, upper: None::<u64> }),
    {
        SizeHint { lower: 0, upper: None }
    }

    /// The exact hint: precisely `n` bytes.
    pub fn with_exact(n: u64) -> (r: SizeHint)
        ensures
            r == (SizeHint { lower: n, upper: Some(n) }),
    {
        SizeHint { lower: n, upper: Some(n) }
    }

    /// The hint justified by a declared length.
    pub fn of_length(l: &DeclaredLength) -> (r: SizeHint)
        ensures
            r == hint_for(*l),
    {
        match l {
            DeclaredLength::Exact(m) => SizeHint { lower: *m, upper: Some(*m) },
            DeclaredLength::Unknown => SizeHint { lower: 0, upper: None },
        }
    }

    /// The lower bound.
    pub fn lower(&self) -> (r: u64)
        ensures
            r == self.lower,
    {
        self.lower
    }

    /// The upper bound, when one is known.
    pub fn upper(&self) -> (r: Option<u64>)
        ensures
            r == self.upper,
    {
        self.upper
    }
}

} // verus!
