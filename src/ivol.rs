//! Implied volatility by bisection.
//!
//! The search brackets the volatility in `[0, VOL_CEILING]` and halves the
//! bracket until it is no wider than `1 / TOLERANCE_DENOM`. Starting from
//! `[0, 20]`, that takes exactly eighteen halvings, so every bound the search
//! ever holds is `VOL_CEILING * i / GRID_STEPS` for a whole number `i`. The
//! bracket is therefore kept as a pair of grid indices, and the search is exact.
//!
//! Pricing a probe is floating-point work and stays with the caller, who only
//! reports whether the price at a probe lies above the target.
use vstd::math::abs;
use vstd::prelude::*;

verus! {

/// Upper end of the volatility range searched (2000%).
pub const VOL_CEILING: u64 = 20;

/// The search stops once the bracket is no wider than `1 / TOLERANCE_DENOM`.
pub const TOLERANCE_DENOM: u64 = 10000;

/// Number of grid steps that `[0, VOL_CEILING]` is cut into (two to the
/// eighteenth): index `i` stands for volatility `VOL_CEILING * i / GRID_STEPS`.
pub const GRID_STEPS: u32 = 262144;

/// Why the search could not produce an implied volatility.
#[derive(Clone, Copy, Debug, PartialEq, Eq, Structural)]
pub enum SolveError {
    /// Every probe priced above the target: the bracket collapsed onto zero.
    NoSolutionFound,
    /// Every probe priced at or below the target: the volatility lies above
    /// `VOL_CEILING`, beyond the range searched.
    OutOfRange,
}

/// `n` is a power of two.
pub open spec fn is_pow2(n: int) -> bool
    decreases n,
{
    if n <= 0 {
        false
    } else if n == 1 {
        true
    } else {
        n % 2 == 0 && is_pow2(n / 2)
    }
}

/// A bracket of `width` grid steps is still wider than the tolerance:
/// `VOL_CEILING * width / GRID_STEPS > 1 / TOLERANCE_DENOM`.
pub open spec fn wider_than_tolerance(width: int) -> bool {
    VOL_CEILING * width * TOLERANCE_DENOM > GRID_STEPS
}

/// A bracket `(low, high)` of grid indices that the search can hold.
pub open spec fn bracket_wf(b: (int, int)) -> bool {
    &&& 0 <= b.0 < b.1 <= GRID_STEPS
    &&& is_pow2(b.1 - b.0)
}

/// The bracket the search starts from: all of `[0, VOL_CEILING]`.
pub open spec fn initial_bracket() -> (int, int) {
    (0, GRID_STEPS as int)
}

/// The search has stopped on this bracket.
pub open spec fn bracket_converged(b: (int, int)) -> bool {
    !wider_than_tolerance(b.1 - b.0)
}

/// The probe of a bracket: its midpoint.
pub open spec fn bracket_mid(b: (int, int)) -> int {
    (b.0 + b.1) / 2
}

/// The bracket after one probe: the upper half when the price at the probe
/// was not above the target, the lower half when it was.
pub open spec fn bracket_next(b: (int, int), price_above_target: bool) -> (int, int) {
    if price_above_target {
        (b.0, bracket_mid(b))
    } else {
        (bracket_mid(b), b.1)
    }
}

/// What a converged bracket yields. A bracket still touching zero or
/// `VOL_CEILING` means the search never crossed the target; otherwise the
/// estimate is the bracket's midpoint, given in half grid steps: `Ok(e)` stands
/// for volatility `VOL_CEILING * e / (2 * GRID_STEPS)`.
pub open spec fn bracket_outcome(b: (int, int)) -> Result<u32, SolveError> {
    if b.0 == 0 {
        Err(SolveError::NoSolutionFound)
    } else if b.1 == GRID_STEPS {
        Err(SolveError::OutOfRange)
    } else {
        Ok((b.0 + b.1) as u32)
    }
}

/// The bracket the search settles on when the price crosses the target at
/// volatility `VOL_CEILING * num / (den * GRID_STEPS)`: every probe above that
/// volatility prices above the target, every other one does not.
pub open spec fn settle(b: (int, int), num: int, den: int) -> (int, int)
    decreases b.1 - b.0,
{
    if bracket_wf(b) && !bracket_converged(b) {
        settle(bracket_next(b, bracket_mid(b) * den > num), num, den)
    } else {
        b
    }
}

/// Halving keeps a bracket well formed, and its midpoint splits it exactly.
pub proof fn lemma_next_wf(b: (int, int), price_above_target: bool)
    requires
        bracket_wf(b),
        !bracket_converged(b),
    ensures
        bracket_wf(bracket_next(b, price_above_target)),
        2 * bracket_mid(b) == b.0 + b.1,
        b.0 < bracket_mid(b) < b.1,
        bracket_next(b, price_above_target).1 - bracket_next(b, price_above_target).0 == (b.1
            - b.0) / 2,
{
    assert((b.1 - b.0) % 2 == 0 && is_pow2((b.1 - b.0) / 2));
}

/// A well-formed bracket has stopped exactly when it is one grid step wide.
pub proof fn lemma_converged_width(b: (int, int))
    requires
        bracket_wf(b),
    ensures
        bracket_converged(b) <==> b.1 - b.0 == 1,
{
}

/// The search recovers the volatility that produced the target price, for any
/// price that rises with volatility: when every probe above the volatility
/// `v = VOL_CEILING * num / (den * GRID_STEPS)` (a point of `[0, VOL_CEILING]`)
/// prices above the target and no other probe does, the search settles on a
/// one-step bracket that holds `v`, and its midpoint lies within the
/// tolerance of `v`.
pub proof fn lemma_search_recovers_volatility(num: int, den: int)
    requires
        0 < den,
        0 <= num <= GRID_STEPS * den,
    ensures
        bracket_wf(settle(initial_bracket(), num, den)),
        settle(initial_bracket(), num, den).1 - settle(initial_bracket(), num, den).0 == 1,
        settle(initial_bracket(), num, den).0 * den <= num,
        num <= settle(initial_bracket(), num, den).1 * den,
        ({
            let b = settle(initial_bracket(), num, den);
            let dist = (b.0 + b.1) * den - 2 * num;
            &&& -den <= dist <= den
            &&& VOL_CEILING * TOLERANCE_DENOM * abs(dist) < 2 * GRID_STEPS * den
        }),
{
    let b0 = initial_bracket();
    reveal_with_fuel(is_pow2, 20);
    assert(is_pow2(GRID_STEPS as int));
    lemma_settle_brackets(b0, num, den);
    let b = settle(b0, num, den);
    lemma_converged_width(b);
    assert(b.0 * den + den == b.1 * den && (b.0 + b.1) * den == 2 * (b.0 * den) + den)
        by (nonlinear_arith)
        requires
            b.1 == b.0 + 1,
    ;
    let dist = (b.0 + b.1) * den - 2 * num;
    assert(VOL_CEILING * TOLERANCE_DENOM * abs(dist) < 2 * GRID_STEPS * den) by (nonlinear_arith)
        requires
            0 < den,
            -den <= dist <= den,
    ;
}

/// Settling keeps a well-formed bracket that holds the crossing point, and
/// ends converged.
proof fn lemma_settle_brackets(b: (int, int), num: int, den: int)
    requires
        bracket_wf(b),
        0 < den,
        b.0 * den <= num <= b.1 * den,
    ensures
        bracket_wf(settle(b, num, den)),
        bracket_converged(settle(b, num, den)),
        settle(b, num, den).0 * den <= num <= settle(b, num, den).1 * den,
    decreases b.1 - b.0,
{
    if !bracket_converged(b) {
        let above = bracket_mid(b) * den > num;
        lemma_next_wf(b, above);
        lemma_settle_brackets(bracket_next(b, above), num, den);
    }
}

/// The bracket of a running search, as grid indices `low < high`.
pub struct BisectionState {
    low: u32,
    high: u32,
}

impl View for BisectionState {
    type V = (int, int);

    closed spec fn view(&self) -> (int, int) {
        (self.low as int, self.high as int)
    }
}

impl BisectionState {
    /// The search before any probe: all of `[0, VOL_CEILING]`.
    pub fn new() -> (s: Self)
        ensures
            s@ == initial_bracket(),
            bracket_wf(s@),
    {
        proof {
            reveal_with_fuel(is_pow2, 20);
        }
        BisectionState { low: 0, high: GRID_STEPS }
    }

    /// Lower bound of the bracket, as a grid index.
    pub fn low(&self) -> (r: u32)
        ensures
            r == self@.0,
    {
        self.low
    }

    /// Upper bound of the bracket, as a grid index.
    pub fn high(&self) -> (r: u32)
        ensures
            r == self@.1,
    {
        self.high
    }

    /// True once the bracket is no wider than the tolerance.
    pub fn is_converged(&self) -> (r: bool)
        requires
            bracket_wf(self@),
        ensures
            r == bracket_converged(self@),
    {
        let width = (self.high - self.low) as u64;
        !(VOL_CEILING * width * TOLERANCE_DENOM > GRID_STEPS as u64)
    }

    /// The volatility to price next, as a grid index: the bracket's midpoint,
    /// which splits it exactly.
    pub fn midpoint(&self) -> (m: u32)
        requires
            bracket_wf(self@),
            !bracket_converged(self@),
        ensures
            m == bracket_mid(self@),
            2 * m == self@.0 + self@.1,
            self@.0 < m < self@.1,
    {
        proof {
            lemma_next_wf(self@, true);
        }
        (self.low + self.high) / 2
    }

    /// Narrows the bracket after pricing its midpoint: a price above the target
    /// means the volatility is too high, so the upper bound comes down to the
    /// midpoint; otherwise the lower bound goes up to it.
    pub fn step(&mut self, price_above_target: bool)
        requires
            bracket_wf(old(self)@),
            !bracket_converged(old(self)@),
        ensures
            final(self)@ == bracket_next(old(self)@, price_above_target),
            bracket_wf(final(self)@),
    {
        proof {
            lemma_next_wf(self@, price_above_target);
        }
        let mid = self.midpoint();
        if price_above_target {
            self.high = mid;
        } else {
            self.low = mid;
        }
    }

    /// What the converged search yields: the bracket's midpoint in half grid
    /// steps, or why there is none.
    pub fn outcome(&self) -> (r: Result<u32, SolveError>)
        requires
            bracket_wf(self@),
        ensures
            r == bracket_outcome(self@),
    {
        if self.low == 0 {
            Err(SolveError::NoSolutionFound)
        } else if self.high == GRID_STEPS {
            Err(SolveError::OutOfRange)
        } else {
            Ok(self.low + self.high)
        }
    }
}

/// Finds the implied volatility by bisection. `price_above_target(m)` prices
/// the option at the volatility of grid index `m` and tells whether that price
/// lies above the observed one.
///
/// `Ok(e)` is the estimate `VOL_CEILING * e / (2 * GRID_STEPS)`, the midpoint of
/// a one-step bracket whose lower end priced at or below the target and whose
/// upper end priced above it. When every probe priced above the target the
/// result is `NoSolutionFound`; when none did, it is `OutOfRange`.
pub fn solve<F: Fn(u32) -> bool>(price_above_target: F) -> (r: Result<u32, SolveError>)
    requires
        forall|m: u32| 0 < m < GRID_STEPS ==> call_requires(price_above_target, (m,)),
    ensures
        r matches Ok(e) ==> {
            &&& e % 2 == 1
            &&& 0 < e / 2
            &&& e / 2 + 1 < GRID_STEPS
            &&& call_ensures(price_above_target, ((e / 2) as u32,), false)
            &&& call_ensures(price_above_target, ((e / 2 + 1) as u32,), true)
        },
        r == Err::<u32, SolveError>(SolveError::NoSolutionFound) ==> call_ensures(
            price_above_target,
            (1u32,),
            true,
        ),
        r == Err::<u32, SolveError>(SolveError::OutOfRange) ==> call_ensures(
            price_above_target,
            ((GRID_STEPS - 1) as u32,),
            false,
        ),
{
    let mut state = BisectionState::new();
    while !state.is_converged()
        invariant
            bracket_wf(state@),
            forall|m: u32| 0 < m < GRID_STEPS ==> call_requires(price_above_target, (m,)),
            state@.0 == 0 || call_ensures(price_above_target, (state@.0 as u32,), false),
            state@.1 == GRID_STEPS || call_ensures(price_above_target, (state@.1 as u32,), true),
        decreases state@.1 - state@.0,
    {
        let mid = state.midpoint();
        let above = price_above_target(mid);
        state.step(above);
    }
    proof {
        lemma_converged_width(state@);
    }
    state.outcome()
}

} // verus!
