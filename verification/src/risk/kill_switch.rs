//! Kill switch for emergency stops, and the composite risk guard that
//! folds it together with externally supplied checks.
//!
//! The switch is a single-direction latch: once triggered it keeps
//! failing with the original reason, whatever the live state does,
//! until an explicit `reset`.

use vstd::prelude::*;
use vstd::string::StringExecFns;

use crate::clock::now_millis;
use crate::decimal::{dec_i64, dec_usize, spec_dec_int, spec_dec_nat};
use crate::risk::types::{RiskCheck, RiskLevel};

verus! {

/// Kill switch configuration.
#[derive(Clone, Debug)]
pub struct KillSwitchConfig {
    /// Minimum balance before kill, in base currency units.
    pub balance_floor: i64,
    /// Maximum open positions.
    pub max_open_positions: usize,
    /// Maximum consecutive API errors.
    pub max_api_errors: usize,
    /// Enable manual override.
    pub manual_override: bool,
}

impl Default for KillSwitchConfig {
    fn default() -> (r: Self)
        ensures
            r.balance_floor == 100,
            r.max_open_positions == 10,
            r.max_api_errors == 5,
            r.manual_override,
    {
        KillSwitchConfig {
            balance_floor: 100,
            max_open_positions: 10,
            max_api_errors: 5,
            manual_override: true,
        }
    }
}

/// Conditions that can trigger the kill switch.
#[derive(Clone, Debug)]
pub enum KillSwitchCondition {
    BalanceFloor(i64),
    MaxPositions(usize),
    ApiErrors(usize),
    Manual(String),
}

/// The abstract state of a kill switch.
pub ghost struct KillSwitchView {
    pub balance_floor: int,
    pub max_open_positions: nat,
    pub max_api_errors: nat,
    pub manual_override: bool,
    pub current_balance: int,
    pub open_positions: nat,
    pub consecutive_errors: nat,
    pub manually_triggered: bool,
    pub triggered_at: Option<int>,
    pub trigger_reason: Option<Seq<char>>,
}

impl KillSwitchView {
    /// Whether the latch is set.
    pub open spec fn latched(self) -> bool {
        self.triggered_at is Some
    }

    /// The stored reason, or the fallback shown when none was kept.
    pub open spec fn reason_or_unknown(self) -> Seq<char> {
        match self.trigger_reason {
            Some(r) => r,
            None => "Unknown"@,
        }
    }

    /// Whether every condition is clear, in which case `check` passes.
    pub open spec fn check_passes(self) -> bool {
        &&& !self.latched()
        &&& self.current_balance >= self.balance_floor
        &&& self.open_positions <= self.max_open_positions
        &&& self.consecutive_errors < self.max_api_errors
        &&& !self.manually_triggered
    }

    /// The message `check` returns: the first failing condition in
    /// priority order, or the all-clear.
    pub open spec fn check_message(self) -> Seq<char> {
        if self.latched() {
            "Kill switch already triggered: "@ + self.reason_or_unknown()
        } else if self.current_balance < self.balance_floor {
            "Balance below floor: "@ + spec_dec_int(self.current_balance) + " < "@ + spec_dec_int(
                self.balance_floor,
            )
        } else if self.open_positions > self.max_open_positions {
            "Max positions exceeded: "@ + spec_dec_nat(self.open_positions) + " > "@ + spec_dec_nat(
                self.max_open_positions,
            )
        } else if self.consecutive_errors >= self.max_api_errors {
            "Max API errors reached: "@ + spec_dec_nat(self.consecutive_errors)
        } else if self.manually_triggered {
            "Manual kill switch triggered"@
        } else {
            "Kill switch OK"@
        }
    }
}

/// With the latch clear and both the balance floor and the position
/// limit violated at once, `check` reports the balance-floor failure:
/// the conditions are evaluated in a fixed priority order and the
/// first failing one wins.
pub proof fn lemma_balance_floor_precedes_positions(v: KillSwitchView)
    requires
        !v.latched(),
        v.current_balance < v.balance_floor,
        v.open_positions > v.max_open_positions,
    ensures
        !v.check_passes(),
        v.check_message() == "Balance below floor: "@ + spec_dec_int(v.current_balance) + " < "@
            + spec_dec_int(v.balance_floor),
{
}

/// Once latched, `check` keeps failing with the original reason: the
/// live balance and position count, which `update_state` overwrites,
/// play no part in the verdict or the message.
pub proof fn lemma_latch_holds(v: KillSwitchView, balance: int, positions: nat)
    requires
        v.latched(),
    ensures
        !v.check_passes(),
        v.check_message() == "Kill switch already triggered: "@ + v.reason_or_unknown(),
        ({
            let updated = KillSwitchView {
                current_balance: balance,
                open_positions: positions,
                ..v
            };
            !updated.check_passes() && updated.check_message() == v.check_message()
        }),
{
}

/// Kill switch for emergency stops.
#[derive(Debug)]
pub struct KillSwitch {
    config: KillSwitchConfig,
    current_balance: i64,
    open_positions: usize,
    consecutive_errors: usize,
    manually_triggered: bool,
    triggered_at: Option<i64>,
    trigger_reason: Option<String>,
}

impl View for KillSwitch {
    type V = KillSwitchView;

    closed spec fn view(&self) -> KillSwitchView {
        KillSwitchView {
            balance_floor: self.config.balance_floor as int,
            max_open_positions: self.config.max_open_positions as nat,
            max_api_errors: self.config.max_api_errors as nat,
            manual_override: self.config.manual_override,
            current_balance: self.current_balance as int,
            open_positions: self.open_positions as nat,
            consecutive_errors: self.consecutive_errors as nat,
            manually_triggered: self.manually_triggered,
            triggered_at: match self.triggered_at {
                Some(t) => Some(t as int),
                None => None,
            },
            trigger_reason: match self.trigger_reason {
                Some(ref r) => Some(r@),
                None => None,
            },
        }
    }
}

impl KillSwitch {
    /// Create a new kill switch with the default configuration.
    pub fn new() -> (r: Self)
        ensures
            r@ == (KillSwitchView {
                balance_floor: 100,
                max_open_positions: 10,
                max_api_errors: 5,
                manual_override: true,
                current_balance: 0,
                open_positions: 0,
                consecutive_errors: 0,
                manually_triggered: false,
                triggered_at: None,
                trigger_reason: None,
            }),
    {
        Self::with_config(KillSwitchConfig::default())
    }

    /// Create with a custom configuration.
    pub fn with_config(config: KillSwitchConfig) -> (r: Self)
        ensures
            r@ == (KillSwitchView {
                balance_floor: config.balance_floor as int,
                max_open_positions: config.max_open_positions as nat,
                max_api_errors: config.max_api_errors as nat,
                manual_override: config.manual_override,
                current_balance: 0,
                open_positions: 0,
                consecutive_errors: 0,
                manually_triggered: false,
                triggered_at: None,
                trigger_reason: None,
            }),
    {
        KillSwitch {
            config,
            current_balance: 0,
            open_positions: 0,
            consecutive_errors: 0,
            manually_triggered: false,
            triggered_at: None,
            trigger_reason: None,
        }
    }

    /// Configure the balance floor.
    pub fn balance_floor(self, floor: i64) -> (r: Self)
        ensures
            r@ == (KillSwitchView { balance_floor: floor as int, ..self@ }),
    {
        let mut s = self;
        s.config.balance_floor = floor;
        s
    }

    /// Configure the maximum open positions.
    pub fn max_positions(self, max: usize) -> (r: Self)
        ensures
            r@ == (KillSwitchView { max_open_positions: max as nat, ..self@ }),
    {
        let mut s = self;
        s.config.max_open_positions = max;
        s
    }

    /// Update the live balance and position count.
    pub fn update_state(&mut self, balance: i64, open_positions: usize)
        ensures
            final(self)@ == (KillSwitchView {
                current_balance: balance as int,
                open_positions: open_positions as nat,
                ..old(self)@
            }),
    {
        self.current_balance = balance;
        self.open_positions = open_positions;
    }

    /// Record an API error.
    pub fn record_error(&mut self)
        requires
            old(self)@.consecutive_errors < usize::MAX,
        ensures
            final(self)@ == (KillSwitchView {
                consecutive_errors: old(self)@.consecutive_errors + 1,
                ..old(self)@
            }),
    {
        self.consecutive_errors = self.consecutive_errors + 1;
    }

    /// Clear the error counter, on a successful operation.
    pub fn clear_errors(&mut self)
        ensures
            final(self)@ == (KillSwitchView { consecutive_errors: 0, ..old(self)@ }),
    {
        self.consecutive_errors = 0;
    }

    /// Evaluate all conditions in priority order and report the first
    /// failing one; the state is not changed.
    pub fn check(&self) -> (r: RiskCheck)
        ensures
            r.passed == self@.check_passes(),
            r.level == if self@.check_passes() {
                RiskLevel::Normal
            } else {
                RiskLevel::Critical
            },
            r.message@ == self@.check_message(),
            r.consistent(),
    {
        // Check if already triggered
        if self.triggered_at.is_some() {
            let mut m = "Kill switch already triggered: ".to_owned();
            match &self.trigger_reason {
                Some(reason) => m.append(reason.as_str()),
                None => m.append("Unknown"),
            }
            return RiskCheck::fail(RiskLevel::Critical, m.as_str());
        }
        // Check balance floor
        if self.current_balance < self.config.balance_floor {
            let mut m = "Balance below floor: ".to_owned();
            let balance = dec_i64(self.current_balance);
            m.append(balance.as_str());
            m.append(" < ");
            let floor = dec_i64(self.config.balance_floor);
            m.append(floor.as_str());
            return RiskCheck::fail(RiskLevel::Critical, m.as_str());
        }
        // Check max positions
        if self.open_positions > self.config.max_open_positions {
            let mut m = "Max positions exceeded: ".to_owned();
            let held = dec_usize(self.open_positions);
            m.append(held.as_str());
            m.append(" > ");
            let max = dec_usize(self.config.max_open_positions);
            m.append(max.as_str());
            return RiskCheck::fail(RiskLevel::Critical, m.as_str());
        }
        // Check API errors
        if self.consecutive_errors >= self.config.max_api_errors {
            let mut m = "Max API errors reached: ".to_owned();
            let errors = dec_usize(self.consecutive_errors);
            m.append(errors.as_str());
            return RiskCheck::fail(RiskLevel::Critical, m.as_str());
        }
        // Check manual trigger
        if self.manually_triggered {
            return RiskCheck::fail(RiskLevel::Critical, "Manual kill switch triggered");
        }
        RiskCheck::pass("Kill switch OK")
    }

    /// Check, and latch with the failing message on a first failure.
    pub fn check_and_trigger(&mut self) -> (r: RiskCheck)
        ensures
            r.passed == old(self)@.check_passes(),
            r.level == if old(self)@.check_passes() {
                RiskLevel::Normal
            } else {
                RiskLevel::Critical
            },
            r.message@ == old(self)@.check_message(),
            r.consistent(),
            old(self)@.check_passes() ==> final(self)@ == old(self)@,
            old(self)@.latched() ==> final(self)@ == old(self)@,
            !old(self)@.check_passes() && !old(self)@.latched() ==> {
                &&& final(self)@.triggered_at is Some
                &&& final(self)@.trigger_reason == Some(old(self)@.check_message())
                &&& final(self)@ == (KillSwitchView {
                    triggered_at: final(self)@.triggered_at,
                    trigger_reason: final(self)@.trigger_reason,
                    ..old(self)@
                })
            },
    {
        let check = self.check();
        if !check.passed && self.triggered_at.is_none() {
            self.trigger(check.message.as_str());
        }
        check
    }

    /// Latch the switch with a reason, stamped with the current time.
    pub fn trigger(&mut self, reason: &str)
        ensures
            final(self)@.triggered_at is Some,
            final(self)@.trigger_reason == Some(reason@),
            final(self)@ == (KillSwitchView {
                triggered_at: final(self)@.triggered_at,
                trigger_reason: final(self)@.trigger_reason,
                ..old(self)@
            }),
    {
        let now = now_millis();
        self.triggered_at = Some(now);
        self.trigger_reason = Some(reason.to_owned());
    }

    /// Latch manually; a no-op unless the configuration enables the
    /// manual override.
    pub fn manual_trigger(&mut self, reason: &str)
        ensures
            !old(self)@.manual_override ==> final(self)@ == old(self)@,
            old(self)@.manual_override ==> {
                &&& final(self)@.manually_triggered
                &&& final(self)@.triggered_at is Some
                &&& final(self)@.trigger_reason == Some("Manual: "@ + reason@)
                &&& final(self)@ == (KillSwitchView {
                    manually_triggered: true,
                    triggered_at: final(self)@.triggered_at,
                    trigger_reason: final(self)@.trigger_reason,
                    ..old(self)@
                })
            },
    {
        if self.config.manual_override {
            self.manually_triggered = true;
            let mut m = "Manual: ".to_owned();
            m.append(reason);
            self.trigger(m.as_str());
        }
    }

    /// Clear the latch, the manual flag and the error counter; the
    /// live balance and position fields are kept for the next
    /// `update_state`.
    pub fn reset(&mut self)
        ensures
            final(self)@ == (KillSwitchView {
                triggered_at: None,
                trigger_reason: None,
                manually_triggered: false,
                consecutive_errors: 0,
                ..old(self)@
            }),
    {
        self.triggered_at = None;
        self.trigger_reason = None;
        self.manually_triggered = false;
        self.consecutive_errors = 0;
    }

    /// Check if triggered. Unlike the circuit breaker's status, this
    /// trusts the latch unconditionally.
    pub fn is_triggered(&self) -> (r: bool)
        ensures
            r == self@.latched(),
    {
        self.triggered_at.is_some()
    }

    /// Get the latched reason.
    pub fn trigger_reason(&self) -> (r: Option<&str>)
        ensures
            r is Some <==> self@.trigger_reason is Some,
            r is Some ==> r->0@ == self@.trigger_reason->0,
    {
        match &self.trigger_reason {
            Some(reason) => Some(reason.as_str()),
            None => None,
        }
    }

    /// Get a status snapshot.
    pub fn status(&self) -> (r: KillSwitchStatus)
        ensures
            r.is_triggered == self@.latched(),
            r.triggered_at is Some <==> self@.triggered_at is Some,
            r.triggered_at matches Some(t) ==> self@.triggered_at == Some(t as int),
            r.reason is Some <==> self@.trigger_reason is Some,
            r.reason matches Some(s) ==> self@.trigger_reason == Some(s@),
            r.current_balance as int == self@.current_balance,
            r.open_positions as nat == self@.open_positions,
            r.consecutive_errors as nat == self@.consecutive_errors,
    {
        KillSwitchStatus {
            is_triggered: self.is_triggered(),
            triggered_at: self.triggered_at,
            reason: match &self.trigger_reason {
                Some(reason) => Some(reason.clone()),
                None => None,
            },
            current_balance: self.current_balance,
            open_positions: self.open_positions,
            consecutive_errors: self.consecutive_errors,
        }
    }
}

/// Kill switch status snapshot.
#[derive(Debug)]
pub struct KillSwitchStatus {
    pub is_triggered: bool,
    pub triggered_at: Option<i64>,
    pub reason: Option<String>,
    pub current_balance: i64,
    pub open_positions: usize,
    pub consecutive_errors: usize,
}

/// An externally supplied guard condition: anything that can produce a
/// `RiskCheck` on demand. Nothing is assumed of the produced value.
pub trait GuardCheck {
    /// Produce the current verdict of this condition.
    fn run(&self) -> RiskCheck;
}

/// One registered check behind its indirection.
pub struct RegisteredCheck {
    inner: Box<dyn GuardCheck>,
}

impl RegisteredCheck {
    /// Box a guard condition for registration.
    pub fn new<C: GuardCheck + 'static>(check: C) -> RegisteredCheck {
        RegisteredCheck { inner: Box::new(check) }
    }
}

/// Composite risk guard combining a kill switch with an ordered, open
/// list of externally supplied checks.
pub struct RiskGuard {
    kill_switch: KillSwitch,
    checks: Vec<RegisteredCheck>,
}

impl RiskGuard {
    /// The abstract state of the owned kill switch.
    pub closed spec fn kill_switch_view(self) -> KillSwitchView {
        self.kill_switch@
    }

    /// How many checks are registered, the kill switch aside.
    pub closed spec fn spec_check_count(self) -> nat {
        self.checks@.len()
    }

    /// Create a new risk guard around a kill switch.
    pub fn new(kill_switch: KillSwitch) -> (r: Self)
        ensures
            r.kill_switch_view() == kill_switch@,
            r.spec_check_count() == 0,
    {
        RiskGuard { kill_switch, checks: Vec::new() }
    }

    /// Register a custom check; it runs after all earlier ones.
    pub fn add_check<C: GuardCheck + 'static>(&mut self, check: C)
        ensures
            final(self).kill_switch_view() == old(self).kill_switch_view(),
            final(self).spec_check_count() == old(self).spec_check_count() + 1,
    {
        let entry = RegisteredCheck::new(check);
        self.checks.push(entry);
    }

    /// Run the kill switch and then every registered check, in
    /// registration order, with no short-circuit.
    pub fn check_all(&self) -> (r: Vec<RiskCheck>)
        ensures
            r@.len() == self.spec_check_count() + 1,
            r@[0].passed == self.kill_switch_view().check_passes(),
            r@[0].level == if self.kill_switch_view().check_passes() {
                RiskLevel::Normal
            } else {
                RiskLevel::Critical
            },
            r@[0].message@ == self.kill_switch_view().check_message(),
            r@[0].consistent(),
    {
        let mut results = Vec::new();
        // Kill switch first
        results.push(self.kill_switch.check());
        // Custom checks
        let n = self.checks.len();
        let mut i: usize = 0;
        while i < n
            invariant
                0 <= i <= n,
                n == self.checks@.len(),
                results@.len() == i + 1,
                results@[0].passed == self.kill_switch_view().check_passes(),
                results@[0].level == if self.kill_switch_view().check_passes() {
                    RiskLevel::Normal
                } else {
                    RiskLevel::Critical
                },
                results@[0].message@ == self.kill_switch_view().check_message(),
                results@[0].consistent(),
            decreases n - i,
        {
            results.push(self.checks[i].inner.run());
            i = i + 1;
        }
        results
    }

    /// Check whether everything passed on a fresh evaluation. What the
    /// registered checks return is outside any contract, so only the
    /// kill switch's share of the conjunction can be pinned: a failing
    /// switch forces a failing guard, and with no checks registered
    /// the guard's verdict is exactly the switch's.
    pub fn all_passed(&self) -> (r: bool)
        ensures
            !self.kill_switch_view().check_passes() ==> !r,
            self.spec_check_count() == 0 ==> r == self.kill_switch_view().check_passes(),
    {
        let results = self.check_all();
        let n = results.len();
        let mut i: usize = 0;
        while i < n
            invariant
                0 <= i <= n,
                n == results@.len(),
                n == self.spec_check_count() + 1,
                results@[0].passed == self.kill_switch_view().check_passes(),
                forall|j: int| 0 <= j < i ==> (#[trigger] results@[j]).passed,
            decreases n - i,
        {
            if !results[i].passed {
                return false;
            }
            i = i + 1;
        }
        true
    }

    /// Get the first failing entry of a fresh evaluation: a failing
    /// kill switch is reported first, and with no checks registered a
    /// passing switch leaves nothing to report.
    pub fn first_failure(&self) -> (r: Option<RiskCheck>)
        ensures
            r matches Some(c) ==> !c.passed,
            !self.kill_switch_view().check_passes() ==> (r matches Some(c) && c.message@
                == self.kill_switch_view().check_message() && c.level == RiskLevel::Critical),
            self.spec_check_count() == 0 && self.kill_switch_view().check_passes() ==> r is None,
    {
        let results = self.check_all();
        let n = results.len();
        let mut i: usize = 0;
        while i < n
            invariant
                0 <= i <= n,
                n == results@.len(),
                n == self.spec_check_count() + 1,
                results@[0].passed == self.kill_switch_view().check_passes(),
                results@[0].level == if self.kill_switch_view().check_passes() {
                    RiskLevel::Normal
                } else {
                    RiskLevel::Critical
                },
                results@[0].message@ == self.kill_switch_view().check_message(),
                forall|j: int| 0 <= j < i ==> (#[trigger] results@[j]).passed,
            decreases n - i,
        {
            if !results[i].passed {
                let mut results = results;
                let check = results.remove(i);
                return Some(check);
            }
            i = i + 1;
        }
        None
    }
}

} // verus!
