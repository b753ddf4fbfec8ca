//! Shared result vocabulary: risk levels, single check results and
//! accumulated reports.

use vstd::prelude::*;

use crate::clock::now_millis;

verus! {

/// Risk level classification, ordered from least to most severe.
#[derive(Clone, Copy, Debug, PartialEq, Eq, Structural, PartialOrd, Ord, Hash)]
pub enum RiskLevel {
    /// Normal operation.
    Normal,
    /// Elevated risk - proceed with caution.
    Elevated,
    /// High risk - consider halting.
    High,
    /// Critical - halt trading.
    Critical,
}

impl RiskLevel {
    /// Numeric severity of a level; a greater number is more severe.
    pub open spec fn spec_severity(self) -> nat {
        match self {
            RiskLevel::Normal => 0,
            RiskLevel::Elevated => 1,
            RiskLevel::High => 2,
            RiskLevel::Critical => 3,
        }
    }

    /// The more severe of two levels.
    pub open spec fn spec_max(self, other: RiskLevel) -> RiskLevel {
        if other.spec_severity() > self.spec_severity() {
            other
        } else {
            self
        }
    }

    /// Numeric severity, the order that the derived `Ord` follows.
    pub fn severity(&self) -> (r: u8)
        ensures
            r as nat == self.spec_severity(),
    {
        match self {
            RiskLevel::Normal => 0,
            RiskLevel::Elevated => 1,
            RiskLevel::High => 2,
            RiskLevel::Critical => 3,
        }
    }

    /// Check if trading should be allowed.
    pub fn allows_trading(&self) -> (r: bool)
        ensures
            r == (self is Normal || self is Elevated),
    {
        matches!(self, RiskLevel::Normal | RiskLevel::Elevated)
    }

    /// Get emoji representation.
    pub fn emoji(&self) -> (r: &'static str)
        ensures
            r@ == match self {
                RiskLevel::Normal => "\u{1F7E2}"@,
                RiskLevel::Elevated => "\u{1F7E1}"@,
                RiskLevel::High => "\u{1F7E0}"@,
                RiskLevel::Critical => "\u{1F534}"@,
            },
    {
        match self {
            RiskLevel::Normal => "\u{1F7E2}",
            RiskLevel::Elevated => "\u{1F7E1}",
            RiskLevel::High => "\u{1F7E0}",
            RiskLevel::Critical => "\u{1F534}",
        }
    }
}

/// Risk check result. The constructors keep `passed` and `level`
/// consistent: a passing check is `Normal`, a failing one is at least
/// `Elevated`.
#[derive(Debug)]
pub struct RiskCheck {
    pub passed: bool,
    pub level: RiskLevel,
    pub message: String,
    /// Milliseconds of the UTC timeline at which the check was made.
    pub timestamp: i64,
}

impl RiskCheck {
    /// The convention every constructor follows.
    pub open spec fn consistent(self) -> bool {
        self.passed <==> self.level is Normal
    }

    /// Create a passing check stamped with the given time.
    pub fn pass_at(message: &str, timestamp: i64) -> (r: RiskCheck)
        ensures
            r.passed,
            r.level is Normal,
            r.message@ == message@,
            r.timestamp == timestamp,
            r.consistent(),
    {
        RiskCheck {
            passed: true,
            level: RiskLevel::Normal,
            message: message.to_owned(),
            timestamp,
        }
    }

    /// Create a passing check stamped with the current time.
    pub fn pass(message: &str) -> (r: RiskCheck)
        ensures
            r.passed,
            r.level is Normal,
            r.message@ == message@,
            r.consistent(),
    {
        let now = now_millis();
        Self::pass_at(message, now)
    }

    /// Create a failing check stamped with the given time.
    pub fn fail_at(level: RiskLevel, message: &str, timestamp: i64) -> (r: RiskCheck)
        requires
            !(level is Normal),
        ensures
            !r.passed,
            r.level == level,
            r.message@ == message@,
            r.timestamp == timestamp,
            r.consistent(),
    {
        RiskCheck {
            passed: false,
            level,
            message: message.to_owned(),
            timestamp,
        }
    }

    /// Create a failing check stamped with the current time.
    pub fn fail(level: RiskLevel, message: &str) -> (r: RiskCheck)
        requires
            !(level is Normal),
        ensures
            !r.passed,
            r.level == level,
            r.message@ == message@,
            r.consistent(),
    {
        let now = now_millis();
        Self::fail_at(level, message, now)
    }

    /// Create from boolean: a pass, or a `High` failure.
    pub fn from_bool(passed: bool, message: &str) -> (r: RiskCheck)
        ensures
            r.passed == passed,
            r.level == if passed {
                RiskLevel::Normal
            } else {
                RiskLevel::High
            },
            r.message@ == message@,
            r.consistent(),
    {
        if passed {
            Self::pass(message)
        } else {
            Self::fail(RiskLevel::High, message)
        }
    }
}

impl Clone for RiskCheck {
    fn clone(&self) -> (r: Self)
        ensures
            r == self,
    {
        RiskCheck {
            passed: self.passed,
            level: self.level,
            message: self.message.clone(),
            timestamp: self.timestamp,
        }
    }
}

/// Comprehensive risk report: named check results in insertion order,
/// under the worst level seen so far.
#[derive(Debug)]
pub struct RiskReport {
    pub overall_level: RiskLevel,
    pub checks: Vec<(String, RiskCheck)>,
    /// Milliseconds of the UTC timeline at which the report was begun.
    pub timestamp: i64,
}

impl RiskReport {
    /// The named entries, with the names as character sequences.
    pub open spec fn entries(self) -> Seq<(Seq<char>, RiskCheck)> {
        self.checks@.map_values(|p: (String, RiskCheck)| (p.0@, p.1))
    }

    /// Whether every entry passed.
    pub open spec fn spec_all_passed(self) -> bool {
        forall|i: int| 0 <= i < self.checks@.len() ==> (#[trigger] self.checks@[i]).1.passed
    }

    /// Create an empty report stamped with the given time.
    pub fn new_at(timestamp: i64) -> (r: Self)
        ensures
            r.overall_level is Normal,
            r.checks@.len() == 0,
            r.timestamp == timestamp,
    {
        RiskReport {
            overall_level: RiskLevel::Normal,
            checks: Vec::new(),
            timestamp,
        }
    }

    /// Create an empty report stamped with the current time.
    pub fn new() -> (r: Self)
        ensures
            r.overall_level is Normal,
            r.checks@.len() == 0,
    {
        let now = now_millis();
        Self::new_at(now)
    }

    /// Add a check result; the overall level rises to the check's level
    /// where that is worse.
    pub fn add_check(self, name: &str, check: RiskCheck) -> (r: Self)
        ensures
            r.overall_level == self.overall_level.spec_max(check.level),
            r.entries() == self.entries().push((name@, check)),
            r.timestamp == self.timestamp,
    {
        let RiskReport { mut overall_level, mut checks, timestamp } = self;
        if check.level.severity() > overall_level.severity() {
            overall_level = check.level;
        }
        checks.push((name.to_owned(), check));
        let r = RiskReport { overall_level, checks, timestamp };
        proof {
            assert(r.entries() =~= self.entries().push((name@, check)));
        }
        r
    }

    /// Check if all checks passed.
    pub fn all_passed(&self) -> (r: bool)
        ensures
            r == self.spec_all_passed(),
    {
        let n = self.checks.len();
        let mut i: usize = 0;
        while i < n
            invariant
                0 <= i <= n,
                n == self.checks@.len(),
                forall|j: int| 0 <= j < i ==> (#[trigger] self.checks@[j]).1.passed,
            decreases n - i,
        {
            if !self.checks[i].1.passed {
                return false;
            }
            i = i + 1;
        }
        true
    }

    /// Get the failed checks, in order.
    pub fn failed_checks(&self) -> (r: Vec<&(String, RiskCheck)>)
        ensures
            r@.map_values(|p: &(String, RiskCheck)| *p) == self.checks@.filter(
                |p: (String, RiskCheck)| !p.1.passed,
            ),
    {
        let ghost pred = |p: (String, RiskCheck)| !p.1.passed;
        let mut r: Vec<&(String, RiskCheck)> = Vec::new();
        let n = self.checks.len();
        let mut i: usize = 0;
        while i < n
            invariant
                0 <= i <= n,
                n == self.checks@.len(),
                r@.map_values(|p: &(String, RiskCheck)| *p) =~= self.checks@.take(i as int).filter(
                    pred,
                ),
                pred == (|p: (String, RiskCheck)| !p.1.passed),
            decreases n - i,
        {
            proof {
                reveal(Seq::filter);
                assert(self.checks@.take(i + 1).drop_last() =~= self.checks@.take(i as int));
                assert(self.checks@.take(i + 1).last() == self.checks@[i as int]);
            }
            if !self.checks[i].1.passed {
                r.push(&self.checks[i]);
            }
            i = i + 1;
        }
        proof {
            assert(self.checks@.take(n as int) =~= self.checks@);
        }
        r
    }
}

/// Trading limits configuration. The position size and daily loss are
/// integer amounts in the base currency; the drawdown limit is in
/// basis points.
#[derive(Clone, Debug)]
pub struct TradingLimits {
    pub max_position_size: u64,
    pub max_daily_loss: u64,
    pub max_drawdown_pct: u64,
    pub max_open_positions: usize,
    pub max_consecutive_losses: usize,
}

impl Default for TradingLimits {
    fn default() -> (r: Self)
        ensures
            r.max_position_size == 1000,
            r.max_daily_loss == 500,
            r.max_drawdown_pct == 1000,
            r.max_open_positions == 5,
            r.max_consecutive_losses == 3,
    {
        TradingLimits {
            max_position_size: 1000,
            max_daily_loss: 500,
            max_drawdown_pct: 1000,
            max_open_positions: 5,
            max_consecutive_losses: 3,
        }
    }
}

} // verus!
