//! Moments of one step, as exact fractions of the step.
use vstd::prelude::*;

verus! {

/// A moment, counted in steps from the start of the step: a fraction with a
/// positive denominator, or a moment before or after every fraction.
pub enum Time {
    /// Before every other moment.
    NegInfinity,
    /// The moment `num / den`; `den` is positive.
    At { num: int, den: int },
    /// After every other moment.
    PosInfinity,
}

impl Time {
    /// The quotient `num / den` as a moment, for `den` other than zero.
    pub open spec fn ratio(num: int, den: int) -> Time {
        if den > 0 {
            Time::At { num, den }
        } else {
            Time::At { num: -num, den: -den }
        }
    }

    /// Whether this is an infinity, or a fraction with a positive
    /// denominator.
    pub open spec fn wf(self) -> bool {
        match self {
            Time::At { num, den } => den > 0,
            _ => true,
        }
    }

    /// Whether this moment comes strictly before `other`.
    pub open spec fn lt(self, other: Time) -> bool {
        match (self, other) {
            (_, Time::NegInfinity) => false,
            (Time::NegInfinity, _) => true,
            (Time::PosInfinity, _) => false,
            (_, Time::PosInfinity) => true,
            (Time::At { num: n1, den: d1 }, Time::At { num: n2, den: d2 }) => n1 * d2 < n2 * d1,
        }
    }

    /// Whether this moment comes before `other` or with it.
    pub open spec fn le(self, other: Time) -> bool {
        !other.lt(self)
    }

    /// Whether the two are the same moment, however the fractions are
    /// written.
    pub open spec fn same(self, other: Time) -> bool {
        !self.lt(other) && !other.lt(self)
    }

    /// The later of the two.
    pub open spec fn max(self, other: Time) -> Time {
        if self.lt(other) {
            other
        } else {
            self
        }
    }

    /// The earlier of the two.
    pub open spec fn min(self, other: Time) -> Time {
        if other.lt(self) {
            other
        } else {
            self
        }
    }
}

/// No moment comes before itself.
pub proof fn lemma_le_reflexive(a: Time)
    ensures
        a.le(a),
{
}

/// Of two fractions in order, and a third in order after the second, the
/// first and the third are in order.
proof fn lemma_fraction_le_transitive(n1: int, d1: int, n2: int, d2: int, n3: int, d3: int)
    requires
        d1 > 0,
        d2 > 0,
        d3 > 0,
        n1 * d2 <= n2 * d1,
        n2 * d3 <= n3 * d2,
    ensures
        n1 * d3 <= n3 * d1,
{
    assert((n1 * d2) * d3 <= (n2 * d1) * d3) by (nonlinear_arith)
        requires
            n1 * d2 <= n2 * d1,
            d3 > 0,
    ;
    assert((n2 * d3) * d1 <= (n3 * d2) * d1) by (nonlinear_arith)
        requires
            n2 * d3 <= n3 * d2,
            d1 > 0,
    ;
    assert((n2 * d1) * d3 == (n2 * d3) * d1) by (nonlinear_arith);
    assert((n1 * d2) * d3 == (n1 * d3) * d2) by (nonlinear_arith);
    assert((n3 * d2) * d1 == (n3 * d1) * d2) by (nonlinear_arith);
    assert(n1 * d3 <= n3 * d1) by (nonlinear_arith)
        requires
            (n1 * d3) * d2 <= (n3 * d1) * d2,
            d2 > 0,
    ;
}

/// The order of moments is transitive.
pub proof fn lemma_le_transitive(a: Time, b: Time, c: Time)
    requires
        a.wf(),
        b.wf(),
        c.wf(),
        a.le(b),
        b.le(c),
    ensures
        a.le(c),
{
    match (a, b, c) {
        (
            Time::At { num: n1, den: d1 },
            Time::At { num: n2, den: d2 },
            Time::At { num: n3, den: d3 },
        ) => {
            lemma_fraction_le_transitive(n1, d1, n2, d2, n3, d3);
        },
        _ => {},
    }
}

/// The later of two moments comes before neither.
pub proof fn lemma_max_is_upper_bound(a: Time, b: Time)
    ensures
        a.le(a.max(b)),
        b.le(a.max(b)),
        a.max(b) == a || a.max(b) == b,
{
}

/// The earlier of two moments comes after neither.
pub proof fn lemma_min_is_lower_bound(a: Time, b: Time)
    ensures
        a.min(b).le(a),
        a.min(b).le(b),
        a.min(b) == a || a.min(b) == b,
{
}

/// Of any two moments, one comes before the other or with it.
pub proof fn lemma_le_total(a: Time, b: Time)
    ensures
        a.le(b) || b.le(a),
{
}

/// A moment that compiled code can hold.
#[derive(Clone, Copy, Debug)]
pub enum StepTime {
    /// Before every other moment.
    NegInfinity,
    /// The moment `num / den`.
    At { num: i64, den: i64 },
    /// After every other moment.
    PosInfinity,
}

impl View for StepTime {
    type V = Time;

    open spec fn view(&self) -> Time {
        match *self {
            StepTime::NegInfinity => Time::NegInfinity,
            StepTime::At { num, den } => Time::At { num: num as int, den: den as int },
            StepTime::PosInfinity => Time::PosInfinity,
        }
    }
}

impl StepTime {
    /// The quotient `num / den` as a moment. `den` is not zero, and neither
    /// number is `i64::MIN`.
    pub fn ratio(num: i64, den: i64) -> (r: StepTime)
        requires
            den != 0,
            num > i64::MIN,
            den > i64::MIN,
        ensures
            r@ == Time::ratio(num as int, den as int),
            r@.wf(),
    {
        if den > 0 {
            StepTime::At { num, den }
        } else {
            StepTime::At { num: -num, den: -den }
        }
    }

    /// Whether this moment comes strictly before `other`.
    pub fn lt(&self, other: &StepTime) -> (r: bool)
        ensures
            r == self@.lt(other@),
    {
        match (*self, *other) {
            (_, StepTime::NegInfinity) => false,
            (StepTime::NegInfinity, _) => true,
            (StepTime::PosInfinity, _) => false,
            (_, StepTime::PosInfinity) => true,
            (StepTime::At { num: n1, den: d1 }, StepTime::At { num: n2, den: d2 }) => {
                let left: i128 = cross(n1, d2);
                let right: i128 = cross(n2, d1);
                left < right
            },
        }
    }

    /// Whether the two are the same moment.
    pub fn same(&self, other: &StepTime) -> (r: bool)
        ensures
            r == self@.same(other@),
    {
        !self.lt(other) && !other.lt(self)
    }

    /// The later of the two.
    pub fn max(self, other: StepTime) -> (r: StepTime)
        ensures
            r@ == self@.max(other@),
    {
        if self.lt(&other) {
            other
        } else {
            self
        }
    }

    /// The earlier of the two.
    pub fn min(self, other: StepTime) -> (r: StepTime)
        ensures
            r@ == self@.min(other@),
    {
        if other.lt(&self) {
            other
        } else {
            self
        }
    }
}

/// The product of two 64-bit numbers, which 128 bits always hold.
fn cross(a: i64, b: i64) -> (r: i128)
    ensures
        r == a * b,
{
    assert(-0x4000_0000_0000_0000_0000_0000_0000_0000 <= a * b
        <= 0x4000_0000_0000_0000_0000_0000_0000_0000) by (nonlinear_arith)
        requires
            -0x8000_0000_0000_0000 <= a <= 0x7fff_ffff_ffff_ffff,
            -0x8000_0000_0000_0000 <= b <= 0x7fff_ffff_ffff_ffff,
    ;
    (a as i128) * (b as i128)
}

} // verus!
