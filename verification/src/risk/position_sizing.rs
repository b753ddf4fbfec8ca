//! Position sizing strategies for trading.
//!
//! Rates and fractions are fixed-point integers in basis points of
//! `RATE_SCALE` (so `RATE_SCALE` stands for 1.0, 200 for 2%); monetary
//! quantities are integer amounts in the caller's base currency unit.

use vstd::prelude::*;

use vstd::arithmetic::div_mod::{lemma_div_is_ordered, lemma_div_multiples_vanish};

verus! {

/// The fixed-point scale: this many basis points stand for 1.0.
pub const RATE_SCALE: u64 = 10_000;

/// A value clamped to a closed range (the range must be ordered).
pub open spec fn spec_clamp_u64(x: u64, lo: u64, hi: u64) -> u64 {
    if x < lo {
        lo
    } else if x > hi {
        hi
    } else {
        x
    }
}

proof fn lemma_mul_u64_bounds(a: int, b: int)
    requires
        0 <= a <= u64::MAX as int,
        0 <= b <= u64::MAX as int,
    ensures
        0 <= a * b <= u64::MAX as int * u64::MAX as int,
{
    assert(0 <= a * b <= u64::MAX as int * u64::MAX as int) by (nonlinear_arith)
        requires
            0 <= a <= u64::MAX as int,
            0 <= b <= u64::MAX as int,
    ;
}

/// Sizing strategy: the capability of computing a position size from
/// available capital.
pub trait SizingStrategy {
    /// The size this strategy assigns, as a function of its state.
    spec fn spec_calculate(&self, capital: u64) -> u64;

    /// The strategy's display name.
    spec fn spec_name(&self) -> Seq<char>;

    /// Calculate position size given available capital.
    fn calculate(&self, capital: u64) -> (r: u64)
        ensures
            r == self.spec_calculate(capital),
    ;

    /// Get strategy name.
    fn name(&self) -> (r: &'static str)
        ensures
            r@ == self.spec_name(),
    ;
}

/// Position sizer: one strategy, with the raw output clamped to
/// `[min_size, max_size]`. The strategy is a type parameter, so that
/// the held strategy's formula stays visible to the contracts; any
/// of the sizing formulas can be picked at configuration time.
pub struct PositionSizer<S: SizingStrategy> {
    strategy: S,
    min_size: u64,
    max_size: u64,
}

impl<S: SizingStrategy> PositionSizer<S> {
    /// The held strategy.
    pub closed spec fn spec_strategy(self) -> S {
        self.strategy
    }

    /// The raw size the held strategy assigns to the given capital.
    pub open spec fn strategy_size(self, capital: u64) -> u64 {
        self.spec_strategy().spec_calculate(capital)
    }

    /// The lower clamp bound.
    pub closed spec fn spec_min_size(self) -> u64 {
        self.min_size
    }

    /// The upper clamp bound.
    pub closed spec fn spec_max_size(self) -> u64 {
        self.max_size
    }

    /// Create with a strategy and the widest bounds.
    pub fn new(strategy: S) -> (r: Self)
        ensures
            r.spec_min_size() == 0,
            r.spec_max_size() == u64::MAX,
            r.spec_strategy() == strategy,
    {
        PositionSizer { strategy, min_size: 0, max_size: u64::MAX }
    }

    /// Set the minimum position size.
    pub fn with_min_size(self, min: u64) -> (r: Self)
        ensures
            r.spec_min_size() == min,
            r.spec_max_size() == self.spec_max_size(),
            r.spec_strategy() == self.spec_strategy(),
    {
        let mut s = self;
        s.min_size = min;
        s
    }

    /// Set the maximum position size.
    pub fn with_max_size(self, max: u64) -> (r: Self)
        ensures
            r.spec_max_size() == max,
            r.spec_min_size() == self.spec_min_size(),
            r.spec_strategy() == self.spec_strategy(),
    {
        let mut s = self;
        s.max_size = max;
        s
    }

    /// Calculate a position size: the strategy's output, clamped to
    /// the configured bounds.
    pub fn calculate(&self, capital: u64) -> (r: u64)
        requires
            self.spec_min_size() <= self.spec_max_size(),
        ensures
            r == spec_clamp_u64(self.strategy_size(capital), self.spec_min_size(),
                self.spec_max_size()),
    {
        let size = self.strategy.calculate(capital);
        if size < self.min_size {
            self.min_size
        } else if size > self.max_size {
            self.max_size
        } else {
            size
        }
    }
}

/// Kelly Criterion sizing.
///
/// Optimal growth: `f* = (p*b - q) / b` where `p` is the win rate, `q`
/// the loss rate and `b` the ratio of average win to average loss; a
/// negative `f*` is floored at zero. The win rate is held in basis
/// points of `RATE_SCALE`, and the fraction comes out in the same
/// scale.
#[derive(Debug)]
pub struct KellySizing {
    win_rate: u64,
    avg_win: u64,
    avg_loss: u64,
}

/// The abstract state of a Kelly sizer.
pub ghost struct KellyView {
    /// Win rate in basis points, at most `RATE_SCALE`.
    pub win_rate: nat,
    /// Average win, at least one currency unit.
    pub avg_win: nat,
    /// Average loss, at least one currency unit.
    pub avg_loss: nat,
}

impl KellyView {
    /// The bounds every constructed Kelly sizer keeps: the win rate is
    /// a probability in basis points, and the averages are above zero.
    pub open spec fn wf(self) -> bool {
        &&& self.win_rate <= RATE_SCALE
        &&& self.avg_win >= 1
        &&& self.avg_loss >= 1
    }
}

impl View for KellySizing {
    type V = KellyView;

    closed spec fn view(&self) -> KellyView {
        KellyView {
            win_rate: self.win_rate as nat,
            avg_win: self.avg_win as nat,
            avg_loss: self.avg_loss as nat,
        }
    }
}

/// The Kelly fraction in basis points: `(p*w - (S-p)*l) / w` floored
/// at zero, where `S` is `RATE_SCALE`. This is `(p*b - q)/b` scaled by
/// `S`, with `b == w/l` multiplied through.
pub open spec fn spec_kelly_fraction(v: KellyView) -> int {
    let numerator = v.win_rate * v.avg_win - (RATE_SCALE - v.win_rate) * v.avg_loss;
    if numerator <= 0 {
        0
    } else {
        numerator / (v.avg_win as int)
    }
}

/// The position size the Kelly fraction assigns: the capital scaled by
/// the fraction, halved when asked for half-Kelly.
pub open spec fn spec_kelly_size(v: KellyView, capital: nat, half_kelly: bool) -> int {
    if half_kelly {
        capital * spec_kelly_fraction(v) / (2 * RATE_SCALE as int)
    } else {
        capital * spec_kelly_fraction(v) / (RATE_SCALE as int)
    }
}

impl KellySizing {
    #[verifier::type_invariant]
    spec fn inv(self) -> bool {
        &&& self.win_rate <= RATE_SCALE
        &&& self.avg_win >= 1
        &&& self.avg_loss >= 1
    }

    /// An even-odds default: 50% win rate, unit win and loss.
    pub fn new() -> (r: Self)
        ensures
            r@ == (KellyView { win_rate: 5_000nat, avg_win: 1nat, avg_loss: 1nat }),
            r@.wf(),
    {
        KellySizing { win_rate: 5_000, avg_win: 1, avg_loss: 1 }
    }

    /// Set the win rate, clamped to `[0, RATE_SCALE]` basis points.
    pub fn win_rate(self, rate: u64) -> (r: Self)
        ensures
            r@ == (KellyView {
                win_rate: if rate > RATE_SCALE {
                    RATE_SCALE as nat
                } else {
                    rate as nat
                },
                ..self@
            }),
            r@.wf(),
    {
        let mut s = self;
        proof {
            use_type_invariant(&s);
        }
        s.win_rate = if rate > RATE_SCALE {
            RATE_SCALE
        } else {
            rate
        };
        s
    }

    /// Set the average win, floored at one currency unit.
    pub fn avg_win(self, win: u64) -> (r: Self)
        ensures
            r@ == (KellyView {
                avg_win: if win < 1 {
                    1nat
                } else {
                    win as nat
                },
                ..self@
            }),
            r@.wf(),
    {
        let mut s = self;
        proof {
            use_type_invariant(&s);
        }
        s.avg_win = if win < 1 {
            1
        } else {
            win
        };
        s
    }

    /// Set the average loss, floored at one currency unit.
    pub fn avg_loss(self, loss: u64) -> (r: Self)
        ensures
            r@ == (KellyView {
                avg_loss: if loss < 1 {
                    1nat
                } else {
                    loss as nat
                },
                ..self@
            }),
            r@.wf(),
    {
        let mut s = self;
        proof {
            use_type_invariant(&s);
        }
        s.avg_loss = if loss < 1 {
            1
        } else {
            loss
        };
        s
    }

    /// Calculate the full Kelly fraction, in basis points.
    pub fn kelly_fraction(&self) -> (r: u64)
        ensures
            r as int == spec_kelly_fraction(self@),
            r <= RATE_SCALE,
            self@.wf(),
    {
        proof {
            use_type_invariant(&*self);
        }
        let p = self.win_rate as u128;
        proof {
            lemma_mul_u64_bounds(p as int, self.avg_win as int);
            lemma_mul_u64_bounds((RATE_SCALE - self.win_rate) as int, self.avg_loss as int);
        }
        let pw: u128 = p * self.avg_win as u128;
        let ql: u128 = (RATE_SCALE - self.win_rate) as u128 * self.avg_loss as u128;
        if pw <= ql {
            0
        } else {
            let f = (pw - ql) / (self.avg_win as u128);
            proof {
                lemma_div_is_ordered((pw - ql) as int, pw as int, self.avg_win as int);
                lemma_div_multiples_vanish(p as int, self.avg_win as int);
                assert(pw as int == (self.avg_win as int) * (p as int));
            }
            f as u64
        }
    }

    /// Calculate a position size from the capital; half-Kelly scales
    /// the fraction by one half.
    pub fn calculate_size(&self, capital: u64, half_kelly: bool) -> (r: u64)
        ensures
            r as int == spec_kelly_size(self@, capital as nat, half_kelly),
            r <= capital,
            self@.wf(),
    {
        let f = self.kelly_fraction();
        let denominator: u128 = if half_kelly {
            2 * (RATE_SCALE as u128)
        } else {
            RATE_SCALE as u128
        };
        proof {
            lemma_mul_u64_bounds(capital as int, f as int);
        }
        let size: u128 = (capital as u128 * f as u128) / denominator;
        proof {
            assert(capital as int * f as int / (denominator as int) <= capital as int)
                by (nonlinear_arith)
                requires
                    0 <= capital as int,
                    0 <= f as int <= RATE_SCALE as int,
                    denominator as int >= RATE_SCALE as int,
            ;
        }
        size as u64
    }
}

impl Clone for KellySizing {
    fn clone(&self) -> (r: Self)
        ensures
            r@ == self@,
    {
        proof {
            use_type_invariant(&*self);
        }
        KellySizing { win_rate: self.win_rate, avg_win: self.avg_win, avg_loss: self.avg_loss }
    }
}

impl SizingStrategy for KellySizing {
    open spec fn spec_calculate(&self, capital: u64) -> u64 {
        spec_kelly_size(self@, capital as nat, false) as u64
    }

    open spec fn spec_name(&self) -> Seq<char> {
        "Kelly Criterion"@
    }

    fn calculate(&self, capital: u64) -> u64 {
        self.calculate_size(capital, false)
    }

    fn name(&self) -> &'static str {
        "Kelly Criterion"
    }
}

impl Default for KellySizing {
    fn default() -> (r: Self)
        ensures
            r@ == (KellyView { win_rate: 5_000nat, avg_win: 1nat, avg_loss: 1nat }),
    {
        Self::new()
    }
}

/// Fixed fractional sizing: risk a fixed share of capital per trade.
#[derive(Debug)]
pub struct FixedFractionalSizing {
    risk_per_trade_pct: u64,
}

/// The abstract state of a fixed-fractional sizer.
pub ghost struct FixedFractionalView {
    /// Risk per trade in basis points, at most `RATE_SCALE`.
    pub risk_per_trade_pct: nat,
}

impl FixedFractionalView {
    /// The bound every constructed sizer keeps: the risk share is at
    /// most the whole capital.
    pub open spec fn wf(self) -> bool {
        self.risk_per_trade_pct <= RATE_SCALE
    }
}

impl View for FixedFractionalSizing {
    type V = FixedFractionalView;

    closed spec fn view(&self) -> FixedFractionalView {
        FixedFractionalView { risk_per_trade_pct: self.risk_per_trade_pct as nat }
    }
}

/// The fixed-fractional size: the capital scaled by the risk share.
pub open spec fn spec_fixed_fractional_size(v: FixedFractionalView, capital: nat) -> int {
    (capital * v.risk_per_trade_pct / (RATE_SCALE as nat)) as int
}

impl FixedFractionalSizing {
    #[verifier::type_invariant]
    spec fn inv(self) -> bool {
        self.risk_per_trade_pct <= RATE_SCALE
    }

    /// Create with a risk share in basis points, clamped to
    /// `[0, RATE_SCALE]`.
    pub fn new(risk_per_trade_bp: u64) -> (r: Self)
        ensures
            r@.risk_per_trade_pct == if risk_per_trade_bp > RATE_SCALE {
                RATE_SCALE as nat
            } else {
                risk_per_trade_bp as nat
            },
            r@.wf(),
    {
        FixedFractionalSizing {
            risk_per_trade_pct: if risk_per_trade_bp > RATE_SCALE {
                RATE_SCALE
            } else {
                risk_per_trade_bp
            },
        }
    }

    /// Conservative: 1% risk per trade.
    pub fn conservative() -> (r: Self)
        ensures
            r@.risk_per_trade_pct == 100,
            r@.wf(),
    {
        Self::new(100)
    }

    /// Moderate: 2% risk per trade.
    pub fn moderate() -> (r: Self)
        ensures
            r@.risk_per_trade_pct == 200,
            r@.wf(),
    {
        Self::new(200)
    }

    /// Aggressive: 5% risk per trade.
    pub fn aggressive() -> (r: Self)
        ensures
            r@.risk_per_trade_pct == 500,
            r@.wf(),
    {
        Self::new(500)
    }
}

impl Clone for FixedFractionalSizing {
    fn clone(&self) -> (r: Self)
        ensures
            r@ == self@,
    {
        proof {
            use_type_invariant(&*self);
        }
        FixedFractionalSizing { risk_per_trade_pct: self.risk_per_trade_pct }
    }
}

impl SizingStrategy for FixedFractionalSizing {
    open spec fn spec_calculate(&self, capital: u64) -> u64 {
        spec_fixed_fractional_size(self@, capital as nat) as u64
    }

    open spec fn spec_name(&self) -> Seq<char> {
        "Fixed Fractional"@
    }

    fn calculate(&self, capital: u64) -> u64 {
        proof {
            use_type_invariant(&*self);
            lemma_mul_u64_bounds(capital as int, self.risk_per_trade_pct as int);
        }
        let size: u128 = (capital as u128 * self.risk_per_trade_pct as u128) / (
        RATE_SCALE as u128);
        proof {
            assert(capital as int * (self.risk_per_trade_pct as int) / (RATE_SCALE as int)
                <= capital as int) by (nonlinear_arith)
                requires
                    0 <= capital as int,
                    0 <= self.risk_per_trade_pct as int <= RATE_SCALE as int,
            ;
        }
        size as u64
    }

    fn name(&self) -> &'static str {
        "Fixed Fractional"
    }
}

/// Volatility-based sizing: a fixed-fractional base damped by the
/// current average true range, so that higher volatility gives a
/// smaller position.
#[derive(Debug)]
pub struct VolatilityBasedSizing {
    atr_period: usize,
    risk_per_trade_pct: u64,
    current_atr: u64,
}

/// The abstract state of a volatility-based sizer.
pub ghost struct VolatilityView {
    /// The averaging period the caller computes the range over.
    pub atr_period: nat,
    /// Risk per trade in basis points, within `[10, 1000]`.
    pub risk_per_trade_pct: nat,
    /// The current average true range, fixed-point at `RATE_SCALE`,
    /// floored above zero.
    pub current_atr: nat,
}

impl VolatilityView {
    /// The bounds every constructed sizer keeps: the range is above
    /// zero and the risk share within a tenth of a percent and ten
    /// percent.
    pub open spec fn wf(self) -> bool {
        &&& self.current_atr >= 1
        &&& 10 <= self.risk_per_trade_pct <= 1000
    }
}

impl View for VolatilityBasedSizing {
    type V = VolatilityView;

    closed spec fn view(&self) -> VolatilityView {
        VolatilityView {
            atr_period: self.atr_period as nat,
            risk_per_trade_pct: self.risk_per_trade_pct as nat,
            current_atr: self.current_atr as nat,
        }
    }
}

/// The damped size: the fixed-fractional base scaled by
/// `1 / (1 + ATR)`, all in `RATE_SCALE` fixed point.
pub open spec fn spec_volatility_size(v: VolatilityView, capital: nat) -> int {
    (capital * v.risk_per_trade_pct / ((RATE_SCALE as nat) + v.current_atr)) as int
}

/// The stop-based size: the dollar risk budget divided by the
/// per-unit stop distance; zero when entry and stop coincide.
pub open spec fn spec_size_with_stop(
    v: VolatilityView,
    capital: nat,
    entry_price: nat,
    stop_price: nat,
) -> int {
    let risk_amount = capital * v.risk_per_trade_pct / (RATE_SCALE as nat);
    let price_risk = if entry_price >= stop_price {
        entry_price - stop_price
    } else {
        stop_price - entry_price
    };
    if price_risk == 0 {
        0
    } else {
        (risk_amount as int) / price_risk
    }
}

impl VolatilityBasedSizing {
    #[verifier::type_invariant]
    spec fn inv(self) -> bool {
        &&& self.current_atr >= 1
        &&& 10 <= self.risk_per_trade_pct <= 1000
    }

    /// Create with a current average true range (fixed-point at
    /// `RATE_SCALE`, floored above zero), a 14-period window and a 2%
    /// risk share.
    pub fn new(atr: u64) -> (r: Self)
        ensures
            r@ == (VolatilityView {
                atr_period: 14nat,
                risk_per_trade_pct: 200nat,
                current_atr: if atr < 1 {
                    1nat
                } else {
                    atr as nat
                },
            }),
            r@.wf(),
    {
        VolatilityBasedSizing {
            atr_period: 14,
            risk_per_trade_pct: 200,
            current_atr: if atr < 1 {
                1
            } else {
                atr
            },
        }
    }

    /// Set the risk share in basis points, clamped to `[10, 1000]`
    /// (0.1% to 10%).
    pub fn with_risk_pct(self, bp: u64) -> (r: Self)
        ensures
            r@ == (VolatilityView {
                risk_per_trade_pct: if bp < 10 {
                    10nat
                } else if bp > 1000 {
                    1000nat
                } else {
                    bp as nat
                },
                ..self@
            }),
            r@.wf(),
    {
        let mut s = self;
        proof {
            use_type_invariant(&s);
        }
        s.risk_per_trade_pct = if bp < 10 {
            10
        } else if bp > 1000 {
            1000
        } else {
            bp
        };
        s
    }

    /// Update the current average true range, floored above zero.
    pub fn update_atr(&mut self, atr: u64)
        ensures
            final(self)@ == (VolatilityView {
                current_atr: if atr < 1 {
                    1nat
                } else {
                    atr as nat
                },
                ..old(self)@
            }),
            final(self)@.wf(),
    {
        proof {
            use_type_invariant(&*self);
        }
        self.current_atr = if atr < 1 {
            1
        } else {
            atr
        };
    }

    /// Calculate a position size from a fixed dollar-risk budget and
    /// the distance to the stop; zero when entry and stop coincide.
    pub fn calculate_with_stop(&self, capital: u64, entry_price: u64, stop_price: u64) -> (r: u64)
        ensures
            r as int == spec_size_with_stop(self@, capital as nat, entry_price as nat,
                stop_price as nat),
            self@.wf(),
    {
        proof {
            use_type_invariant(&*self);
            lemma_mul_u64_bounds(capital as int, self.risk_per_trade_pct as int);
        }
        let risk_amount: u128 = (capital as u128 * self.risk_per_trade_pct as u128) / (
        RATE_SCALE as u128);
        let price_risk: u64 = if entry_price >= stop_price {
            entry_price - stop_price
        } else {
            stop_price - entry_price
        };
        if price_risk == 0 {
            return 0;
        }
        let size: u128 = risk_amount / price_risk as u128;
        proof {
            assert(risk_amount as int <= capital as int) by (nonlinear_arith)
                requires
                    risk_amount as int == capital as int * (self.risk_per_trade_pct as int) / (
                    RATE_SCALE as int),
                    0 <= capital as int,
                    0 <= self.risk_per_trade_pct as int <= RATE_SCALE as int,
            ;
            lemma_div_is_ordered(size as int, risk_amount as int, 1);
            lemma_div_is_ordered(1, price_risk as int, 1);
            assert(size as int <= risk_amount as int) by (nonlinear_arith)
                requires
                    size as int == risk_amount as int / (price_risk as int),
                    risk_amount as int >= 0,
                    price_risk as int >= 1,
            ;
        }
        size as u64
    }
}

impl Clone for VolatilityBasedSizing {
    fn clone(&self) -> (r: Self)
        ensures
            r@ == self@,
    {
        proof {
            use_type_invariant(&*self);
        }
        VolatilityBasedSizing {
            atr_period: self.atr_period,
            risk_per_trade_pct: self.risk_per_trade_pct,
            current_atr: self.current_atr,
        }
    }
}

impl SizingStrategy for VolatilityBasedSizing {
    open spec fn spec_calculate(&self, capital: u64) -> u64 {
        spec_volatility_size(self@, capital as nat) as u64
    }

    open spec fn spec_name(&self) -> Seq<char> {
        "Volatility-Based"@
    }

    fn calculate(&self, capital: u64) -> u64 {
        proof {
            use_type_invariant(&*self);
            lemma_mul_u64_bounds(capital as int, self.risk_per_trade_pct as int);
        }
        let size: u128 = (capital as u128 * self.risk_per_trade_pct as u128) / (RATE_SCALE as u128
            + self.current_atr as u128);
        proof {
            assert(capital as int * (self.risk_per_trade_pct as int) / (RATE_SCALE as int
                + self.current_atr as int) <= capital as int) by (nonlinear_arith)
                requires
                    0 <= capital as int,
                    0 <= self.risk_per_trade_pct as int <= RATE_SCALE as int,
                    self.current_atr as int >= 0,
            ;
        }
        size as u64
    }

    fn name(&self) -> &'static str {
        "Volatility-Based"
    }
}

/// The multiplier after a run of wins: one and a half per win,
/// compounded in `RATE_SCALE` fixed point and capped at four.
pub open spec fn spec_win_streak_multiplier(wins: nat) -> nat
    decreases wins,
{
    if wins == 0 {
        RATE_SCALE as nat
    } else {
        let grown = spec_win_streak_multiplier((wins - 1) as nat) * 3 / 2;
        if grown > 40_000 {
            40_000
        } else {
            grown
        }
    }
}

/// The multiplier after a run of losses: halved per loss, floored at a
/// quarter, in `RATE_SCALE` fixed point.
pub open spec fn spec_loss_streak_multiplier(losses: nat) -> nat
    decreases losses,
{
    if losses == 0 {
        RATE_SCALE as nat
    } else {
        let shrunk = spec_loss_streak_multiplier((losses - 1) as nat) / 2;
        if shrunk < 2_500 {
            2_500
        } else {
            shrunk
        }
    }
}

/// The current streak multiplier: a win run scales up, otherwise a
/// loss run scales down. At most one of the two runs is ever non-zero.
pub open spec fn spec_streak_multiplier(wins: nat, losses: nat) -> nat {
    if wins > 0 {
        spec_win_streak_multiplier(wins)
    } else {
        spec_loss_streak_multiplier(losses)
    }
}

proof fn lemma_win_streak_multiplier_bounded(wins: nat)
    ensures
        spec_win_streak_multiplier(wins) <= 40_000,
    decreases wins,
{
    if wins > 0 {
        lemma_win_streak_multiplier_bounded((wins - 1) as nat);
    }
}

proof fn lemma_loss_streak_multiplier_bounded(losses: nat)
    ensures
        spec_loss_streak_multiplier(losses) <= RATE_SCALE,
    decreases losses,
{
    if losses > 0 {
        lemma_loss_streak_multiplier_bounded((losses - 1) as nat);
    }
}

/// The size an anti-martingale streak assigns: the base size scaled by
/// the streak multiplier, saturated at the largest representable
/// value. The capital on hand plays no part: streak-based sizing is
/// capital-independent by design.
pub open spec fn spec_anti_martingale_size(v: AntiMartingaleView) -> int {
    let scaled = v.base_size * spec_streak_multiplier(v.consecutive_wins, v.consecutive_losses) / (
    RATE_SCALE as nat);
    if scaled > u64::MAX {
        u64::MAX as int
    } else {
        scaled as int
    }
}

/// Anti-martingale sizing: increase the stake after wins, decrease it
/// after losses. Each win multiplies the stake by one and a half, each
/// loss halves it, within `[0.25, 4.0]` of the base size.
#[derive(Clone, Debug)]
pub struct AntiMartingaleSizing {
    base_size: u64,
    consecutive_wins: usize,
    consecutive_losses: usize,
}

/// The abstract state of an anti-martingale sizer.
pub ghost struct AntiMartingaleView {
    pub base_size: nat,
    pub consecutive_wins: nat,
    pub consecutive_losses: nat,
}

impl AntiMartingaleView {
    /// What every constructed sizer keeps: the base stake is a machine
    /// word, and at most one of the two runs is non-zero.
    pub open spec fn wf(self) -> bool {
        &&& self.base_size <= u64::MAX
        &&& (self.consecutive_wins == 0 || self.consecutive_losses == 0)
    }
}

impl View for AntiMartingaleSizing {
    type V = AntiMartingaleView;

    closed spec fn view(&self) -> AntiMartingaleView {
        AntiMartingaleView {
            base_size: self.base_size as nat,
            consecutive_wins: self.consecutive_wins as nat,
            consecutive_losses: self.consecutive_losses as nat,
        }
    }
}

impl AntiMartingaleSizing {
    /// Create with a base stake and no streak.
    pub fn new(base_size: u64) -> (r: Self)
        ensures
            r@ == (AntiMartingaleView {
                base_size: base_size as nat,
                consecutive_wins: 0nat,
                consecutive_losses: 0nat,
            }),
            r@.wf(),
    {
        AntiMartingaleSizing { base_size, consecutive_wins: 0, consecutive_losses: 0 }
    }

    /// Record a trade outcome: a win extends the win run and ends the
    /// loss run, a loss does the opposite.
    pub fn record_result(&mut self, is_win: bool)
        requires
            old(self)@.consecutive_wins < usize::MAX,
            old(self)@.consecutive_losses < usize::MAX,
        ensures
            final(self)@ == (AntiMartingaleView {
                consecutive_wins: if is_win {
                    old(self)@.consecutive_wins + 1
                } else {
                    0nat
                },
                consecutive_losses: if is_win {
                    0nat
                } else {
                    old(self)@.consecutive_losses + 1
                },
                ..old(self)@
            }),
            final(self)@.wf(),
    {
        if is_win {
            self.consecutive_wins = self.consecutive_wins + 1;
            self.consecutive_losses = 0;
        } else {
            self.consecutive_losses = self.consecutive_losses + 1;
            self.consecutive_wins = 0;
        }
    }

    /// The current streak multiplier, in `RATE_SCALE` fixed point.
    fn current_multiplier(&self) -> (r: u64)
        ensures
            r as nat == spec_streak_multiplier(self@.consecutive_wins, self@.consecutive_losses),
            r <= 40_000,
    {
        if self.consecutive_wins > 0 {
            let mut multiplier: u64 = RATE_SCALE;
            let mut i: usize = 0;
            while i < self.consecutive_wins
                invariant
                    0 <= i <= self.consecutive_wins,
                    multiplier as nat == spec_win_streak_multiplier(i as nat),
                    multiplier <= 40_000,
                decreases self.consecutive_wins - i,
            {
                let grown = multiplier * 3 / 2;
                multiplier = if grown > 40_000 {
                    40_000
                } else {
                    grown
                };
                i = i + 1;
            }
            multiplier
        } else {
            let mut multiplier: u64 = RATE_SCALE;
            let mut i: usize = 0;
            while i < self.consecutive_losses
                invariant
                    0 <= i <= self.consecutive_losses,
                    multiplier as nat == spec_loss_streak_multiplier(i as nat),
                    multiplier <= RATE_SCALE,
                decreases self.consecutive_losses - i,
            {
                let shrunk = multiplier / 2;
                multiplier = if shrunk < 2_500 {
                    2_500
                } else {
                    shrunk
                };
                i = i + 1;
            }
            multiplier
        }
    }
}

impl SizingStrategy for AntiMartingaleSizing {
    open spec fn spec_calculate(&self, capital: u64) -> u64 {
        spec_anti_martingale_size(self@) as u64
    }

    open spec fn spec_name(&self) -> Seq<char> {
        "Anti-Martingale"@
    }

    fn calculate(&self, capital: u64) -> u64 {
        let _ = capital;  // streak-based sizing is capital-independent
        let multiplier = self.current_multiplier();
        proof {
            lemma_mul_u64_bounds(self.base_size as int, multiplier as int);
        }
        let scaled: u128 = (self.base_size as u128 * multiplier as u128) / (RATE_SCALE as u128);
        if scaled > u64::MAX as u128 {
            u64::MAX
        } else {
            scaled as u64
        }
    }

    fn name(&self) -> &'static str {
        "Anti-Martingale"
    }
}

} // verus!
