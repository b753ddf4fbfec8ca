//! Circuit breaker for trading halts: a time-windowed trade-outcome
//! tracker with an automatic cooldown.
//!
//! The breaker is armed until it trips; while the cooldown runs it
//! fails every check, and the first evaluation after the cooldown has
//! elapsed passes again (the latch is kept internally but no longer
//! trusted). Time is supplied as milliseconds of the UTC timeline; the
//! `*_at` variants take the clock reading as an argument, the plain
//! variants read the system clock.

use std::collections::VecDeque;

use vstd::prelude::*;
use vstd::string::StringExecFns;

use crate::clock::now_millis;
use crate::decimal::{dec_i64, dec_usize, spec_dec_int, spec_dec_nat};
use crate::risk::types::{RiskCheck, RiskLevel};

verus! {

/// Milliseconds in one UTC calendar day.
pub const MILLIS_PER_DAY: i64 = 86_400_000;

/// How many trades the history ring retains.
pub const HISTORY_LIMIT: usize = 100;

/// The UTC calendar day that a millisecond timestamp falls on, counted
/// in days since the epoch. chrono names the same day through
/// `date_naive` on a UTC time.
pub open spec fn spec_utc_day(ts: int) -> int {
    ts / (MILLIS_PER_DAY as int)
}

/// The length of the trailing run of negative entries.
pub open spec fn trailing_loss_run(s: Seq<int>) -> nat
    decreases s.len(),
{
    if s.len() == 0 {
        0
    } else if s.last() < 0 {
        trailing_loss_run(s.drop_last()) + 1
    } else {
        0
    }
}

/// The trailing run of losses grows by one on a loss and collapses to
/// zero on any non-negative outcome. Together with `record_trade_at`'s
/// contract and the well-formedness a breaker is constructed with,
/// this pins `consecutive_losses` to the trailing-loss run of the
/// recorded outcome sequence.
pub proof fn lemma_trailing_loss_run_step(s: Seq<int>, pnl: int)
    ensures
        trailing_loss_run(s.push(pnl)) == if pnl < 0 {
            trailing_loss_run(s) + 1
        } else {
            0nat
        },
{
    assert(s.push(pnl).drop_last() =~= s);
}

/// i64 addition clamped to the representable range.
pub open spec fn spec_sat_add_i64(a: int, b: int) -> int {
    if a + b > i64::MAX {
        i64::MAX as int
    } else if a + b < i64::MIN {
        i64::MIN as int
    } else {
        a + b
    }
}

fn sat_add_i64(a: i64, b: i64) -> (r: i64)
    ensures
        r as int == spec_sat_add_i64(a as int, b as int),
{
    let s: i128 = a as i128 + b as i128;
    if s > i64::MAX as i128 {
        i64::MAX
    } else if s < i64::MIN as i128 {
        i64::MIN
    } else {
        s as i64
    }
}

fn utc_day(ts: i64) -> (r: i64)
    ensures
        r as int == spec_utc_day(ts as int),
{
    match ts.checked_div_euclid(MILLIS_PER_DAY) {
        Some(d) => d,
        None => {
            proof {
                vstd::arithmetic::div_mod::lemma_div_is_ordered(
                    i64::MIN as int,
                    ts as int,
                    MILLIS_PER_DAY as int,
                );
                vstd::arithmetic::div_mod::lemma_div_is_ordered(
                    ts as int,
                    i64::MAX as int,
                    MILLIS_PER_DAY as int,
                );
                assert(i64::MIN as int / (MILLIS_PER_DAY as int) >= i64::MIN);
                assert(i64::MAX as int / (MILLIS_PER_DAY as int) <= i64::MAX);
                assert(false);
            }
            0
        },
    }
}

/// Circuit breaker configuration.
#[derive(Clone, Debug)]
pub struct CircuitBreakerConfig {
    /// Maximum consecutive losses before halting.
    pub max_consecutive_losses: usize,
    /// Maximum daily drawdown, in basis points. The field is kept in
    /// the configuration but `check` does not yet consult it: a
    /// percentage comparison would need the day's starting balance,
    /// which nothing supplies.
    pub max_daily_drawdown_pct: u64,
    /// Cooldown after a trip, in milliseconds.
    pub cooldown_duration: i64,
    /// Minimum trades before evaluating. Kept in the configuration but
    /// not yet consulted by `check`.
    pub min_trades_for_evaluation: usize,
}

impl Default for CircuitBreakerConfig {
    fn default() -> (r: Self)
        ensures
            r.max_consecutive_losses == 3,
            r.max_daily_drawdown_pct == 500,
            r.cooldown_duration == 1_800_000,
            r.min_trades_for_evaluation == 5,
    {
        CircuitBreakerConfig {
            max_consecutive_losses: 3,
            max_daily_drawdown_pct: 500,
            cooldown_duration: 1_800_000,
            min_trades_for_evaluation: 5,
        }
    }
}

/// One remembered trade outcome.
#[derive(Clone, Copy, Debug)]
pub struct TradeRecord {
    /// When the trade was recorded, in milliseconds.
    pub timestamp: i64,
    /// Profit or loss, in base currency units.
    pub pnl: i64,
    /// Whether the outcome was non-negative.
    pub was_profitable: bool,
}

/// The abstract state of a circuit breaker: the configuration, the
/// counters, the bounded history ring, and the sequence of outcomes
/// recorded since construction or the last reset.
pub ghost struct CircuitBreakerView {
    pub max_consecutive_losses: nat,
    pub max_daily_drawdown_pct: nat,
    pub cooldown_duration: int,
    pub min_trades_for_evaluation: nat,
    pub history: Seq<TradeRecord>,
    pub consecutive_losses: nat,
    pub daily_pnl: int,
    pub last_reset: int,
    pub triggered_at: Option<int>,
    pub pnl_log: Seq<int>,
}

impl CircuitBreakerView {
    /// What constructors establish and every operation preserves: the
    /// loss counter is the trailing-loss run of the recorded sequence,
    /// and the history ring is bounded.
    pub open spec fn wf(self) -> bool {
        &&& self.consecutive_losses == trailing_loss_run(self.pnl_log)
        &&& self.history.len() <= HISTORY_LIMIT
    }

    /// Whether the breaker is tripped and the cooldown still runs.
    pub open spec fn in_cooldown(self, now: int) -> bool {
        match self.triggered_at {
            Some(t) => now - t < self.cooldown_duration,
            None => false,
        }
    }

    /// Seconds of cooldown left, truncated.
    pub open spec fn remaining_cooldown_secs(self, now: int) -> int {
        (self.cooldown_duration - (now - self.triggered_at->0)) / 1000
    }

    /// Whether `check` passes at the given time.
    pub open spec fn check_passes_at(self, now: int) -> bool {
        &&& !self.in_cooldown(now)
        &&& self.consecutive_losses < self.max_consecutive_losses
    }

    /// The message `check` returns at the given time.
    pub open spec fn check_message_at(self, now: int) -> Seq<char> {
        if self.in_cooldown(now) {
            "Circuit breaker active. "@ + spec_dec_int(self.remaining_cooldown_secs(now))
                + "s remaining"@
        } else if self.consecutive_losses >= self.max_consecutive_losses {
            "Max consecutive losses reached: "@ + spec_dec_nat(self.consecutive_losses)
        } else {
            "Circuit breaker OK"@
        }
    }

    /// The state after one trade outcome is recorded at the given
    /// time: the daily tally restarts on a new UTC calendar day, the
    /// loss counter tracks the trailing run, and the history ring
    /// keeps the most recent entries, oldest evicted first.
    pub open spec fn recorded(self, pnl: int, now: int) -> CircuitBreakerView {
        let crossed = spec_utc_day(now) != spec_utc_day(self.last_reset);
        let base = if crossed {
            0
        } else {
            self.daily_pnl
        };
        let grown = self.history.push(
            TradeRecord { timestamp: now as i64, pnl: pnl as i64, was_profitable: pnl >= 0 },
        );
        CircuitBreakerView {
            consecutive_losses: if pnl < 0 {
                (self.consecutive_losses + 1) as nat
            } else {
                0
            },
            daily_pnl: spec_sat_add_i64(base, pnl),
            last_reset: if crossed {
                now
            } else {
                self.last_reset
            },
            history: if grown.len() <= HISTORY_LIMIT {
                grown
            } else {
                grown.skip(grown.len() - HISTORY_LIMIT)
            },
            pnl_log: self.pnl_log.push(pnl),
            ..self
        }
    }
}

/// Recording one outcome preserves well-formedness and does exactly
/// what the trailing-run and ring-bound laws ask, with no machine
/// limit attached: the loss counter becomes the trailing-loss run of
/// the extended outcome sequence, and the history ring grows by one
/// entry until it holds `HISTORY_LIMIT`, after which the oldest entry
/// makes room, with the new record always at the back.
pub proof fn lemma_recorded_tracks_trailing_run(cb: CircuitBreakerView, pnl: int, now: int)
    requires
        cb.wf(),
    ensures
        cb.recorded(pnl, now).wf(),
        cb.recorded(pnl, now).pnl_log == cb.pnl_log.push(pnl),
        cb.recorded(pnl, now).consecutive_losses == trailing_loss_run(cb.pnl_log.push(pnl)),
        cb.recorded(pnl, now).history.len() == if cb.history.len() < HISTORY_LIMIT {
            cb.history.len() + 1
        } else {
            HISTORY_LIMIT as nat
        },
        cb.recorded(pnl, now).history.last() == (TradeRecord {
            timestamp: now as i64,
            pnl: pnl as i64,
            was_profitable: pnl >= 0,
        }),
{
    lemma_trailing_loss_run_step(cb.pnl_log, pnl);
    let grown = cb.history.push(
        TradeRecord { timestamp: now as i64, pnl: pnl as i64, was_profitable: pnl >= 0 },
    );
    if grown.len() > HISTORY_LIMIT {
        assert(grown.skip(grown.len() - HISTORY_LIMIT).last() == grown.last());
    }
}

/// Once tripped at `t`, `check` fails for the whole cooldown window
/// and, strictly after it has elapsed, passes again exactly when the
/// loss run is below the limit. A zero-length cooldown passes on the
/// next evaluation.
pub proof fn lemma_cooldown_window(cb: CircuitBreakerView, t: int, now: int)
    requires
        cb.triggered_at == Some(t),
    ensures
        now - t < cb.cooldown_duration ==> !cb.check_passes_at(now),
        now - t >= cb.cooldown_duration ==> cb.check_passes_at(now) == (cb.consecutive_losses
            < cb.max_consecutive_losses),
{
}

/// With the loss limit reached, and no cooldown running, `check` fails
/// for the limit reason; one non-negative outcome collapses the run,
/// and with at least one loss allowed the next check passes.
pub proof fn lemma_losses_trip_then_recover(cb: CircuitBreakerView, pnl: int, now: int, later: int)
    requires
        cb.wf(),
        cb.consecutive_losses >= cb.max_consecutive_losses,
        cb.triggered_at is None,
        pnl >= 0,
        cb.max_consecutive_losses >= 1,
    ensures
        !cb.check_passes_at(now),
        cb.check_message_at(now) == "Max consecutive losses reached: "@ + spec_dec_nat(
            cb.consecutive_losses,
        ),
        cb.recorded(pnl, later).consecutive_losses == 0,
        cb.recorded(pnl, later).check_passes_at(later),
{
}

/// Circuit breaker for trading halts.
#[derive(Clone)]
pub struct CircuitBreaker {
    config: CircuitBreakerConfig,
    trade_history: VecDeque<TradeRecord>,
    consecutive_losses: usize,
    daily_pnl: i64,
    last_reset: i64,
    triggered_at: Option<i64>,
    pnl_log: Ghost<Seq<int>>,
}

impl View for CircuitBreaker {
    type V = CircuitBreakerView;

    closed spec fn view(&self) -> CircuitBreakerView {
        CircuitBreakerView {
            max_consecutive_losses: self.config.max_consecutive_losses as nat,
            max_daily_drawdown_pct: self.config.max_daily_drawdown_pct as nat,
            cooldown_duration: self.config.cooldown_duration as int,
            min_trades_for_evaluation: self.config.min_trades_for_evaluation as nat,
            history: self.trade_history@,
            consecutive_losses: self.consecutive_losses as nat,
            daily_pnl: self.daily_pnl as int,
            last_reset: self.last_reset as int,
            triggered_at: match self.triggered_at {
                Some(t) => Some(t as int),
                None => None,
            },
            pnl_log: self.pnl_log@,
        }
    }
}

impl CircuitBreaker {
    /// Create a new circuit breaker with the default configuration,
    /// with the daily window anchored at the current time.
    pub fn new() -> (r: Self)
        ensures
            r@.wf(),
            r@.max_consecutive_losses == 3,
            r@.max_daily_drawdown_pct == 500,
            r@.cooldown_duration == 1_800_000,
            r@.min_trades_for_evaluation == 5,
            r@.history.len() == 0,
            r@.consecutive_losses == 0,
            r@.daily_pnl == 0,
            r@.triggered_at is None,
            r@.pnl_log.len() == 0,
    {
        Self::with_config(CircuitBreakerConfig::default())
    }

    /// Create with a custom configuration, with the daily window
    /// anchored at the current time.
    pub fn with_config(config: CircuitBreakerConfig) -> (r: Self)
        ensures
            r@.wf(),
            r@.max_consecutive_losses == config.max_consecutive_losses,
            r@.max_daily_drawdown_pct == config.max_daily_drawdown_pct,
            r@.cooldown_duration == config.cooldown_duration,
            r@.min_trades_for_evaluation == config.min_trades_for_evaluation,
            r@.history.len() == 0,
            r@.consecutive_losses == 0,
            r@.daily_pnl == 0,
            r@.triggered_at is None,
            r@.pnl_log.len() == 0,
    {
        let now = now_millis();
        Self::with_config_at(config, now)
    }

    /// Create with a custom configuration, with the daily window
    /// anchored at the given time.
    pub fn with_config_at(config: CircuitBreakerConfig, now: i64) -> (r: Self)
        ensures
            r@ == (CircuitBreakerView {
                max_consecutive_losses: config.max_consecutive_losses as nat,
                max_daily_drawdown_pct: config.max_daily_drawdown_pct as nat,
                cooldown_duration: config.cooldown_duration as int,
                min_trades_for_evaluation: config.min_trades_for_evaluation as nat,
                history: Seq::empty(),
                consecutive_losses: 0,
                daily_pnl: 0,
                last_reset: now as int,
                triggered_at: None,
                pnl_log: Seq::empty(),
            }),
            r@.wf(),
    {
        let r = CircuitBreaker {
            config,
            trade_history: VecDeque::new(),
            consecutive_losses: 0,
            daily_pnl: 0,
            last_reset: now,
            triggered_at: None,
            pnl_log: Ghost(Seq::empty()),
        };
        proof {
            assert(r@ =~= (CircuitBreakerView {
                max_consecutive_losses: config.max_consecutive_losses as nat,
                max_daily_drawdown_pct: config.max_daily_drawdown_pct as nat,
                cooldown_duration: config.cooldown_duration as int,
                min_trades_for_evaluation: config.min_trades_for_evaluation as nat,
                history: Seq::empty(),
                consecutive_losses: 0,
                daily_pnl: 0,
                last_reset: now as int,
                triggered_at: None,
                pnl_log: Seq::empty(),
            }));
        }
        r
    }

    /// Configure the maximum consecutive losses.
    pub fn max_consecutive_losses(self, max: usize) -> (r: Self)
        ensures
            r@ == (CircuitBreakerView { max_consecutive_losses: max as nat, ..self@ }),
    {
        let mut s = self;
        s.config.max_consecutive_losses = max;
        s
    }

    /// Configure the maximum daily drawdown, in basis points.
    pub fn max_daily_drawdown_pct(self, max: u64) -> (r: Self)
        ensures
            r@ == (CircuitBreakerView { max_daily_drawdown_pct: max as nat, ..self@ }),
    {
        let mut s = self;
        s.config.max_daily_drawdown_pct = max;
        s
    }

    /// Configure the cooldown, in milliseconds.
    pub fn cooldown_duration(self, duration: i64) -> (r: Self)
        ensures
            r@ == (CircuitBreakerView { cooldown_duration: duration as int, ..self@ }),
    {
        let mut s = self;
        s.config.cooldown_duration = duration;
        s
    }

    /// Record a trade outcome at the current time.
    pub fn record_trade(&mut self, pnl: i64)
        requires
            old(self)@.wf(),
            old(self)@.consecutive_losses < usize::MAX,
        ensures
            exists|now: int| final(self)@ == old(self)@.recorded(pnl as int, now),
            final(self)@.wf(),
            final(self)@.consecutive_losses == if pnl < 0 {
                old(self)@.consecutive_losses + 1
            } else {
                0nat
            },
            final(self)@.pnl_log == old(self)@.pnl_log.push(pnl as int),
    {
        let now = now_millis();
        self.record_trade_at(pnl, now);
    }

    /// Record a trade outcome stamped with the given time.
    pub fn record_trade_at(&mut self, pnl: i64, now: i64)
        requires
            old(self)@.wf(),
            old(self)@.consecutive_losses < usize::MAX,
        ensures
            final(self)@ == old(self)@.recorded(pnl as int, now as int),
            final(self)@.wf(),
    {
        proof {
            lemma_trailing_loss_run_step(self@.pnl_log, pnl as int);
        }
        let ghost pre = self@;
        // Reset daily stats on a new calendar day
        if utc_day(now) != utc_day(self.last_reset) {
            self.daily_pnl = 0;
            self.last_reset = now;
        }
        self.daily_pnl = sat_add_i64(self.daily_pnl, pnl);
        if pnl < 0 {
            self.consecutive_losses = self.consecutive_losses + 1;
        } else {
            self.consecutive_losses = 0;
        }
        self.pnl_log = Ghost(self.pnl_log@.push(pnl as int));
        self.trade_history.push_back(
            TradeRecord { timestamp: now, pnl, was_profitable: pnl >= 0 },
        );
        let ghost grown = self.trade_history@;
        let ghost snap = self@;
        // Trim old history, oldest first
        while self.trade_history.len() > HISTORY_LIMIT
            invariant
                self@ == (CircuitBreakerView { history: self@.history, ..snap }),
                grown.len() <= HISTORY_LIMIT + 1,
                self.trade_history@ =~= grown.skip(grown.len() - self.trade_history@.len()),
                self.trade_history@.len() <= grown.len(),
                self.trade_history@.len() >= HISTORY_LIMIT || self.trade_history@.len()
                    == grown.len(),
            decreases self.trade_history@.len(),
        {
            let ghost before = self.trade_history@;
            let evicted = self.trade_history.pop_front();
            proof {
                assert(self.trade_history@ =~= grown.skip(
                    grown.len() - self.trade_history@.len(),
                ));
            }
        }
        proof {
            if grown.len() <= HISTORY_LIMIT {
                assert(self.trade_history@.len() == grown.len());
                assert(self.trade_history@ =~= grown);
            } else {
                assert(self.trade_history@.len() == HISTORY_LIMIT);
            }
            assert(self@ =~= pre.recorded(pnl as int, now as int));
        }
    }

    /// Evaluate at the given time, without changing the state.
    pub fn check_at(&self, now: i64) -> (r: RiskCheck)
        ensures
            r.passed == self@.check_passes_at(now as int),
            r.level == if r.passed {
                RiskLevel::Normal
            } else {
                RiskLevel::Critical
            },
            r.message@ == self@.check_message_at(now as int),
            r.timestamp == now,
            r.consistent(),
    {
        // Check if in cooldown
        if let Some(triggered) = self.triggered_at {
            let elapsed: i128 = now as i128 - triggered as i128;
            if elapsed < self.config.cooldown_duration as i128 {
                let remaining: i128 = self.config.cooldown_duration as i128 - elapsed;
                let secs: i64 = match remaining.checked_div_euclid(1000) {
                    Some(s) => s as i64,
                    None => 0,
                };
                let mut m = "Circuit breaker active. ".to_owned();
                let digits = dec_i64(secs);
                m.append(digits.as_str());
                m.append("s remaining");
                return RiskCheck::fail_at(RiskLevel::Critical, m.as_str(), now);
            }
        }
        // Check consecutive losses
        if self.consecutive_losses >= self.config.max_consecutive_losses {
            let mut m = "Max consecutive losses reached: ".to_owned();
            let digits = dec_usize(self.consecutive_losses);
            m.append(digits.as_str());
            return RiskCheck::fail_at(RiskLevel::Critical, m.as_str(), now);
        }
        // The daily-drawdown percentage would be checked here, but the
        // day's starting balance is not tracked; see the config field.
        RiskCheck::pass_at("Circuit breaker OK", now)
    }

    /// Check if trading is allowed, at the current time.
    pub fn check(&self) -> (r: RiskCheck)
        ensures
            self@.triggered_at is None ==> r.passed == (self@.consecutive_losses
                < self@.max_consecutive_losses),
            self@.consecutive_losses >= self@.max_consecutive_losses ==> !r.passed,
            self@.triggered_at is None && self@.consecutive_losses >= self@.max_consecutive_losses
                ==> r.message@ == "Max consecutive losses reached: "@ + spec_dec_nat(
                self@.consecutive_losses,
            ),
            r.level == if r.passed {
                RiskLevel::Normal
            } else {
                RiskLevel::Critical
            },
            r.consistent(),
            exists|now: int|
                {
                    &&& r.passed == self@.check_passes_at(now)
                    &&& r.message@ == self@.check_message_at(now)
                },
    {
        let now = now_millis();
        let r = self.check_at(now);
        proof {
            assert(r.passed == self@.check_passes_at(now as int) && r.message@
                == self@.check_message_at(now as int));
        }
        r
    }

    /// Check at the given time, and stamp the trip on a first failure;
    /// an already-tripped breaker is not re-stamped.
    pub fn check_and_trigger_at(&mut self, now: i64) -> (r: RiskCheck)
        ensures
            r.passed == old(self)@.check_passes_at(now as int),
            r.level == if r.passed {
                RiskLevel::Normal
            } else {
                RiskLevel::Critical
            },
            r.message@ == old(self)@.check_message_at(now as int),
            r.timestamp == now,
            r.consistent(),
            r.passed || old(self)@.triggered_at is Some ==> final(self)@ == old(self)@,
            !r.passed && old(self)@.triggered_at is None ==> final(self)@ == (CircuitBreakerView {
                triggered_at: Some(now as int),
                ..old(self)@
            }),
    {
        let check = self.check_at(now);
        if !check.passed && self.triggered_at.is_none() {
            self.triggered_at = Some(now);
        }
        check
    }

    /// Check at the current time, and stamp the trip on a first
    /// failure.
    pub fn check_and_trigger(&mut self) -> (r: RiskCheck)
        ensures
            r.consistent(),
            exists|now: int|
                {
                    &&& r.passed == old(self)@.check_passes_at(now)
                    &&& r.message@ == old(self)@.check_message_at(now)
                    &&& (r.passed || old(self)@.triggered_at is Some ==> final(self)@ == old(
                        self,
                    )@)
                    &&& (!r.passed && old(self)@.triggered_at is None ==> final(self)@
                        == (CircuitBreakerView { triggered_at: Some(now), ..old(self)@ }))
                },
    {
        let now = now_millis();
        let r = self.check_and_trigger_at(now);
        proof {
            assert({
                &&& r.passed == old(self)@.check_passes_at(now as int)
                &&& r.message@ == old(self)@.check_message_at(now as int)
                &&& (r.passed || old(self)@.triggered_at is Some ==> final(self)@ == old(self)@)
                &&& (!r.passed && old(self)@.triggered_at is None ==> final(self)@
                    == (CircuitBreakerView { triggered_at: Some(now as int), ..old(self)@ }))
            });
        }
        r
    }

    /// Trip the breaker manually at the given time, with a reason.
    pub fn trigger_at(&mut self, reason: &str, now: i64) -> (r: RiskCheck)
        ensures
            final(self)@ == (CircuitBreakerView { triggered_at: Some(now as int), ..old(self)@ }),
            !r.passed,
            r.level == RiskLevel::Critical,
            r.message@ == reason@,
            r.timestamp == now,
            r.consistent(),
    {
        self.triggered_at = Some(now);
        RiskCheck::fail_at(RiskLevel::Critical, reason, now)
    }

    /// Trip the breaker manually at the current time, with a reason.
    pub fn trigger(&mut self, reason: &str) -> (r: RiskCheck)
        ensures
            final(self)@.triggered_at is Some,
            final(self)@ == (CircuitBreakerView {
                triggered_at: final(self)@.triggered_at,
                ..old(self)@
            }),
            !r.passed,
            r.level == RiskLevel::Critical,
            r.message@ == reason@,
            r.consistent(),
    {
        let now = now_millis();
        self.trigger_at(reason, now)
    }

    /// Re-arm: clear the trip and the loss counter. The daily tally
    /// and the history ring are kept; the recorded outcome sequence
    /// that the loss counter tracks restarts here.
    pub fn reset(&mut self)
        ensures
            final(self)@ == (CircuitBreakerView {
                triggered_at: None,
                consecutive_losses: 0,
                pnl_log: Seq::empty(),
                ..old(self)@
            }),
            final(self)@.wf() <== old(self)@.wf(),
    {
        self.triggered_at = None;
        self.consecutive_losses = 0;
        self.pnl_log = Ghost(Seq::empty());
        proof {
            assert(final(self)@ =~= (CircuitBreakerView {
                triggered_at: None,
                consecutive_losses: 0,
                pnl_log: Seq::empty(),
                ..old(self)@
            }));
        }
    }

    /// Status snapshot at the given time. `is_open` is recomputed from
    /// a fresh evaluation, never from the stale latch alone.
    pub fn status_at(&self, now: i64) -> (r: CircuitBreakerStatus)
        ensures
            r.is_open == (self@.triggered_at is Some && !self@.check_passes_at(now as int)),
            r.consecutive_losses as nat == self@.consecutive_losses,
            r.daily_pnl as int == self@.daily_pnl,
            r.triggered_at is Some <==> self@.triggered_at is Some,
            r.triggered_at matches Some(t) ==> self@.triggered_at == Some(t as int),
    {
        CircuitBreakerStatus {
            is_open: self.triggered_at.is_some() && self.check_at(now).passed == false,
            consecutive_losses: self.consecutive_losses,
            daily_pnl: self.daily_pnl,
            triggered_at: self.triggered_at,
        }
    }

    /// Status snapshot at the current time.
    pub fn status(&self) -> (r: CircuitBreakerStatus)
        ensures
            r.consecutive_losses as nat == self@.consecutive_losses,
            r.daily_pnl as int == self@.daily_pnl,
            r.triggered_at is Some <==> self@.triggered_at is Some,
            r.triggered_at matches Some(t) ==> self@.triggered_at == Some(t as int),
            self@.triggered_at is None ==> !r.is_open,
            self@.triggered_at is Some && self@.consecutive_losses >= self@.max_consecutive_losses
                ==> r.is_open,
    {
        let now = now_millis();
        self.status_at(now)
    }

    /// How many trades the history ring currently holds; never more
    /// than `HISTORY_LIMIT`.
    pub fn history_len(&self) -> (r: usize)
        ensures
            r as nat == self@.history.len(),
    {
        self.trade_history.len()
    }
}

/// Circuit breaker status snapshot.
#[derive(Clone, Debug)]
pub struct CircuitBreakerStatus {
    pub is_open: bool,
    pub consecutive_losses: usize,
    pub daily_pnl: i64,
    pub triggered_at: Option<i64>,
}

} // verus!
