//! Trading alerts: severity levels, a builder for alert messages, and
//! the price and percentage formatting they embed.
//!
//! Monetary and percentage values are fixed-point integers at
//! `AMOUNT_SCALE` (so `AMOUNT_SCALE` stands for 1.0); rendering
//! truncates toward zero at the shown number of decimals.

use vstd::prelude::*;
use vstd::string::{StrSliceExecFns, StringExecFns};

use crate::clock::now_millis;
use crate::decimal::{dec_u64, padded_dec, spec_dec_nat, spec_padded_dec};

verus! {

/// The fixed-point scale for alert amounts: this many units stand for
/// 1.0, giving eight decimal places.
pub const AMOUNT_SCALE: u64 = 100_000_000;

/// Alert severity levels.
#[derive(Clone, Copy, Debug, PartialEq, Eq, Structural)]
pub enum AlertLevel {
    Info,
    Success,
    Warning,
    Error,
    Critical,
}

/// The emoji shown for each alert level.
pub open spec fn spec_alert_emoji(level: AlertLevel) -> Seq<char> {
    match level {
        AlertLevel::Info => "\u{2139}\u{FE0F}"@,
        AlertLevel::Success => "\u{2705}"@,
        AlertLevel::Warning => "\u{26A0}\u{FE0F}"@,
        AlertLevel::Error => "\u{274C}"@,
        AlertLevel::Critical => "\u{1F6A8}"@,
    }
}

impl AlertLevel {
    /// Get emoji representation.
    pub fn emoji(&self) -> (r: &'static str)
        ensures
            r@ == spec_alert_emoji(*self),
    {
        match self {
            AlertLevel::Info => "\u{2139}\u{FE0F}",
            AlertLevel::Success => "\u{2705}",
            AlertLevel::Warning => "\u{26A0}\u{FE0F}",
            AlertLevel::Error => "\u{274C}",
            AlertLevel::Critical => "\u{1F6A8}",
        }
    }
}

/// Powers of ten.
pub open spec fn spec_pow10(k: nat) -> nat
    decreases k,
{
    if k == 0 {
        1
    } else {
        10 * spec_pow10((k - 1) as nat)
    }
}

/// A fixed-point amount rendered with the given number of decimals,
/// truncated toward zero: sign, whole part, a dot, then the decimals.
pub open spec fn spec_fixed_dec(v: int, decimals: nat) -> Seq<char> {
    let magnitude = if v < 0 {
        (-v) as nat
    } else {
        v as nat
    };
    let whole = magnitude / (AMOUNT_SCALE as nat);
    let fraction = (magnitude % (AMOUNT_SCALE as nat)) / spec_pow10((8 - decimals) as nat);
    (if v < 0 {
        seq!['-']
    } else {
        Seq::empty()
    }) + spec_dec_nat(whole) + "."@ + spec_padded_dec(fraction, decimals)
}

proof fn lemma_pow10_bound(k: nat)
    requires
        k <= 8,
    ensures
        1 <= spec_pow10(k) <= 100_000_000,
{
    assert(spec_pow10(0) == 1);
    assert(spec_pow10(1) == 10);
    assert(spec_pow10(2) == 100);
    assert(spec_pow10(3) == 1000);
    assert(spec_pow10(4) == 10_000);
    assert(spec_pow10(5) == 100_000);
    assert(spec_pow10(6) == 1_000_000);
    assert(spec_pow10(7) == 10_000_000);
    assert(spec_pow10(8) == 100_000_000);
}

fn pow10(k: usize) -> (r: u64)
    requires
        k <= 8,
    ensures
        r as nat == spec_pow10(k as nat),
        1 <= r <= 100_000_000,
{
    proof {
        lemma_pow10_bound(k as nat);
    }
    let mut r: u64 = 1;
    let mut i: usize = 0;
    while i < k
        invariant
            0 <= i <= k <= 8,
            r as nat == spec_pow10(i as nat),
            1 <= r <= 100_000_000,
        decreases k - i,
    {
        proof {
            lemma_pow10_bound((i + 1) as nat);
        }
        r = r * 10;
        i = i + 1;
    }
    r
}

/// Render a fixed-point amount with the given number of decimals,
/// truncating toward zero.
pub fn fixed_dec(v: i64, decimals: usize) -> (r: String)
    requires
        1 <= decimals <= 8,
    ensures
        r@ == spec_fixed_dec(v as int, decimals as nat),
{
    let magnitude: u64 = if v >= 0 {
        v as u64
    } else {
        ((-(v + 1)) as u64) + 1
    };
    let whole = dec_u64(magnitude / AMOUNT_SCALE);
    let fraction = padded_dec((magnitude % AMOUNT_SCALE) / pow10(8 - decimals), decimals);
    let mut s = if v < 0 {
        "-".to_owned()
    } else {
        String::new()
    };
    s.append(whole.as_str());
    s.append(".");
    s.append(fraction.as_str());
    proof {
        reveal_strlit("-");
        assert(s@ =~= spec_fixed_dec(v as int, decimals as nat));
    }
    s
}

/// Whether two characters are equal up to ASCII case.
pub open spec fn spec_char_eq_ignore_case(x: char, y: char) -> bool {
    let xi = x as int;
    let yi = y as int;
    xi == yi || (xi == yi + 32 && 'a' as int <= xi <= 'z' as int) || (yi == xi + 32 && 'a' as int
        <= yi <= 'z' as int)
}

/// Whether two character sequences are equal up to ASCII case.
pub open spec fn spec_eq_ignore_case(a: Seq<char>, b: Seq<char>) -> bool {
    a.len() == b.len() && forall|i: int|
        0 <= i < a.len() ==> spec_char_eq_ignore_case(a[i], b[i])
}

/// Compare two strings for equality up to ASCII case.
pub fn eq_ignore_case(a: &str, b: &str) -> (r: bool)
    ensures
        r == spec_eq_ignore_case(a@, b@),
{
    let n = a.unicode_len();
    if n != b.unicode_len() {
        return false;
    }
    let mut i: usize = 0;
    while i < n
        invariant
            0 <= i <= n,
            n == a@.len(),
            n == b@.len(),
            forall|j: int| 0 <= j < i ==> spec_char_eq_ignore_case(a@[j], b@[j]),
        decreases n - i,
    {
        let x = a.get_char(i);
        let y = b.get_char(i);
        let xi = x as u32;
        let yi = y as u32;
        let same = xi == yi || (yi + 32 == xi && 97 <= xi && xi <= 122) || (xi + 32 == yi && 97
            <= yi && yi <= 122);
        if !same {
            return false;
        }
        i = i + 1;
    }
    true
}

/// The rendering of a price in a currency: dollar-style currencies get
/// a dollar sign and two decimals, Bitcoin eight, Ether six, and
/// anything else four decimals with the currency name after them.
/// Currency names compare up to ASCII case.
pub open spec fn spec_format_price(value: int, currency: Seq<char>) -> Seq<char> {
    if spec_eq_ignore_case(currency, "USD"@) || spec_eq_ignore_case(currency, "USDC"@)
        || spec_eq_ignore_case(currency, "USDT"@) {
        "$"@ + spec_fixed_dec(value, 2)
    } else if spec_eq_ignore_case(currency, "BTC"@) {
        "\u{20BF}"@ + spec_fixed_dec(value, 8)
    } else if spec_eq_ignore_case(currency, "ETH"@) {
        "\u{39E}"@ + spec_fixed_dec(value, 6)
    } else {
        spec_fixed_dec(value, 4) + " "@ + currency
    }
}

/// Format a price value, fixed-point at `AMOUNT_SCALE`, in a currency.
pub fn format_price(value: i64, currency: &str) -> (r: String)
    ensures
        r@ == spec_format_price(value as int, currency@),
{
    if eq_ignore_case(currency, "USD") || eq_ignore_case(currency, "USDC") || eq_ignore_case(
        currency,
        "USDT",
    ) {
        let mut s = "$".to_owned();
        let digits = fixed_dec(value, 2);
        s.append(digits.as_str());
        s
    } else if eq_ignore_case(currency, "BTC") {
        let mut s = "\u{20BF}".to_owned();
        let digits = fixed_dec(value, 8);
        s.append(digits.as_str());
        s
    } else if eq_ignore_case(currency, "ETH") {
        let mut s = "\u{39E}".to_owned();
        let digits = fixed_dec(value, 6);
        s.append(digits.as_str());
        s
    } else {
        let mut s = fixed_dec(value, 4);
        s.append(" ");
        s.append(currency);
        s
    }
}

/// The rendering of a percentage change: an explicit plus on
/// non-negative values, two decimals, and a percent sign.
pub open spec fn spec_format_percentage(value: int) -> Seq<char> {
    (if value >= 0 {
        "+"@
    } else {
        Seq::<char>::empty()
    }) + spec_fixed_dec(value, 2) + "%"@
}

/// Format a percentage change, fixed-point at `AMOUNT_SCALE`.
pub fn format_percentage(value: i64) -> (r: String)
    ensures
        r@ == spec_format_percentage(value as int),
{
    let mut s = if value >= 0 {
        "+".to_owned()
    } else {
        String::new()
    };
    let digits = fixed_dec(value, 2);
    s.append(digits.as_str());
    s.append("%");
    s
}

/// The characters that markdown gives meaning to and an alert must
/// escape.
pub open spec fn spec_is_markdown_special(c: char) -> bool {
    c == '_' || c == '*' || c == '[' || c == ']' || c == '(' || c == ')' || c == '~' || c == '`'
        || c == '>' || c == '#' || c == '+' || c == '-' || c == '=' || c == '|' || c == '{' || c
        == '}' || c == '.' || c == '!'
}

/// A text with every markdown-special character preceded by a
/// backslash.
pub open spec fn spec_escape_markdown(s: Seq<char>) -> Seq<char>
    decreases s.len(),
{
    if s.len() == 0 {
        Seq::empty()
    } else {
        spec_escape_markdown(s.drop_last()) + (if spec_is_markdown_special(s.last()) {
            seq!['\\', s.last()]
        } else {
            seq![s.last()]
        })
    }
}

fn is_markdown_special(c: char) -> (r: bool)
    ensures
        r == spec_is_markdown_special(c),
{
    c == '_' || c == '*' || c == '[' || c == ']' || c == '(' || c == ')' || c == '~' || c == '`'
        || c == '>' || c == '#' || c == '+' || c == '-' || c == '=' || c == '|' || c == '{' || c
        == '}' || c == '.' || c == '!'
}

/// Escape markdown special characters.
pub fn escape_markdown(text: &str) -> (r: String)
    ensures
        r@ == spec_escape_markdown(text@),
{
    let n = text.unicode_len();
    let mut out = String::new();
    let mut i: usize = 0;
    while i < n
        invariant
            0 <= i <= n,
            n == text@.len(),
            out@ == spec_escape_markdown(text@.take(i as int)),
        decreases n - i,
    {
        proof {
            assert(text@.take(i + 1).drop_last() =~= text@.take(i as int));
            assert(text@.take(i + 1).last() == text@[i as int]);
            reveal_strlit("\\");
        }
        if is_markdown_special(text.get_char(i)) {
            out.append("\\");
        }
        let c = text.substring_char(i, i + 1);
        out.append(c);
        proof {
            assert(out@ =~= spec_escape_markdown(text@.take(i + 1)));
        }
        i = i + 1;
    }
    proof {
        assert(text@.take(n as int) =~= text@);
    }
    out
}

/// The rendered field lines of an alert: a bullet, the name in
/// italics, then the escaped value, one line each.
pub open spec fn spec_render_fields(fields: Seq<(Seq<char>, Seq<char>)>) -> Seq<char>
    decreases fields.len(),
{
    if fields.len() == 0 {
        Seq::empty()
    } else {
        spec_render_fields(fields.drop_last()) + "\u{2022} *"@ + fields.last().0 + "*: "@
            + spec_escape_markdown(fields.last().1) + "\n"@
    }
}

/// The rendered alert: the level's emoji, the title in bold, then the
/// field lines.
pub open spec fn spec_build_alert(
    level: AlertLevel,
    title: Seq<char>,
    fields: Seq<(Seq<char>, Seq<char>)>,
) -> Seq<char> {
    spec_alert_emoji(level) + " **"@ + title + "**\n"@ + spec_render_fields(fields)
}

/// Builder for trading alerts.
#[derive(Debug)]
pub struct AlertBuilder {
    level: AlertLevel,
    title: String,
    fields: Vec<(String, String)>,
    timestamp: i64,
}

impl AlertBuilder {
    /// The alert's level.
    pub closed spec fn spec_level(self) -> AlertLevel {
        self.level
    }

    /// The alert's title.
    pub closed spec fn spec_title(self) -> Seq<char> {
        self.title@
    }

    /// The named fields added so far, in order.
    pub closed spec fn spec_fields(self) -> Seq<(Seq<char>, Seq<char>)> {
        self.fields@.map_values(|p: (String, String)| (p.0@, p.1@))
    }

    /// Create an alert with a level and a title, stamped with the
    /// current time.
    pub fn new(level: AlertLevel, title: &str) -> (r: Self)
        ensures
            r.spec_level() == level,
            r.spec_title() == title@,
            r.spec_fields() == Seq::<(Seq<char>, Seq<char>)>::empty(),
    {
        let r = AlertBuilder {
            level,
            title: title.to_owned(),
            fields: Vec::new(),
            timestamp: now_millis(),
        };
        proof {
            assert(r.spec_fields() =~= Seq::<(Seq<char>, Seq<char>)>::empty());
        }
        r
    }

    /// An informational alert.
    pub fn info(title: &str) -> (r: Self)
        ensures
            r.spec_level() == AlertLevel::Info,
            r.spec_title() == title@,
            r.spec_fields() == Seq::<(Seq<char>, Seq<char>)>::empty(),
    {
        Self::new(AlertLevel::Info, title)
    }

    /// A success alert.
    pub fn success(title: &str) -> (r: Self)
        ensures
            r.spec_level() == AlertLevel::Success,
            r.spec_title() == title@,
            r.spec_fields() == Seq::<(Seq<char>, Seq<char>)>::empty(),
    {
        Self::new(AlertLevel::Success, title)
    }

    /// A warning alert.
    pub fn warning(title: &str) -> (r: Self)
        ensures
            r.spec_level() == AlertLevel::Warning,
            r.spec_title() == title@,
            r.spec_fields() == Seq::<(Seq<char>, Seq<char>)>::empty(),
    {
        Self::new(AlertLevel::Warning, title)
    }

    /// An error alert.
    pub fn error(title: &str) -> (r: Self)
        ensures
            r.spec_level() == AlertLevel::Error,
            r.spec_title() == title@,
            r.spec_fields() == Seq::<(Seq<char>, Seq<char>)>::empty(),
    {
        Self::new(AlertLevel::Error, title)
    }

    /// A critical alert.
    pub fn critical(title: &str) -> (r: Self)
        ensures
            r.spec_level() == AlertLevel::Critical,
            r.spec_title() == title@,
            r.spec_fields() == Seq::<(Seq<char>, Seq<char>)>::empty(),
    {
        Self::new(AlertLevel::Critical, title)
    }

    /// Add a field to the alert.
    pub fn field(self, name: &str, value: &str) -> (r: Self)
        ensures
            r.spec_level() == self.spec_level(),
            r.spec_title() == self.spec_title(),
            r.spec_fields() == self.spec_fields().push((name@, value@)),
    {
        let mut s = self;
        s.fields.push((name.to_owned(), value.to_owned()));
        proof {
            assert(s.spec_fields() =~= self.spec_fields().push((name@, value@)));
        }
        s
    }

    /// Add a price field, formatted in the given currency.
    pub fn price(self, name: &str, value: i64, currency: &str) -> (r: Self)
        ensures
            r.spec_level() == self.spec_level(),
            r.spec_title() == self.spec_title(),
            r.spec_fields() == self.spec_fields().push(
                (name@, spec_format_price(value as int, currency@)),
            ),
    {
        let formatted = format_price(value, currency);
        self.field(name, formatted.as_str())
    }

    /// Add a percentage field, with a trend emoji for the sign.
    pub fn percentage(self, name: &str, value: i64) -> (r: Self)
        ensures
            r.spec_level() == self.spec_level(),
            r.spec_title() == self.spec_title(),
            r.spec_fields() == self.spec_fields().push(
                (name@, (if value >= 0 {
                    "\u{1F4C8} "@
                } else {
                    "\u{1F4C9} "@
                }) + spec_fixed_dec(value as int, 2) + "%"@),
            ),
    {
        let mut formatted = if value >= 0 {
            "\u{1F4C8} ".to_owned()
        } else {
            "\u{1F4C9} ".to_owned()
        };
        let digits = fixed_dec(value, 2);
        formatted.append(digits.as_str());
        formatted.append("%");
        self.field(name, formatted.as_str())
    }

    /// Build the alert message.
    pub fn build(self) -> (r: String)
        ensures
            r@ == spec_build_alert(self.spec_level(), self.spec_title(), self.spec_fields()),
    {
        let mut msg = self.level.emoji().to_owned();
        msg.append(" **");
        msg.append(self.title.as_str());
        msg.append("**\n");
        let n = self.fields.len();
        let mut i: usize = 0;
        while i < n
            invariant
                0 <= i <= n,
                n == self.fields@.len(),
                msg@ == spec_alert_emoji(self.spec_level()) + " **"@ + self.spec_title() + "**\n"@
                    + spec_render_fields(self.spec_fields().take(i as int)),
            decreases n - i,
        {
            proof {
                assert(self.spec_fields().take(i + 1).drop_last() =~= self.spec_fields().take(
                    i as int,
                ));
                assert(self.spec_fields().take(i + 1).last() == self.spec_fields()[i as int]);
            }
            msg.append("\u{2022} *");
            msg.append(self.fields[i].0.as_str());
            msg.append("*: ");
            let escaped = escape_markdown(self.fields[i].1.as_str());
            msg.append(escaped.as_str());
            msg.append("\n");
            proof {
                assert(msg@ =~= spec_alert_emoji(self.spec_level()) + " **"@ + self.spec_title()
                    + "**\n"@ + spec_render_fields(self.spec_fields().take(i + 1)));
            }
            i = i + 1;
        }
        proof {
            assert(self.spec_fields().take(n as int) =~= self.spec_fields());
        }
        msg
    }
}

/// The alert announcing an executed trade: side, symbol, then the
/// amount and the prices in dollars.
pub fn trade_executed(side: &str, symbol: &str, amount: i64, price: i64, total: i64) -> (r: String)
    ensures
        r@ == spec_build_alert(
            AlertLevel::Success,
            "Trade Executed"@,
            seq![
                ("Side"@, side@),
                ("Symbol"@, symbol@),
                ("Amount"@, spec_format_price(amount as int, ""@)),
                ("Price"@, spec_format_price(price as int, "USD"@)),
                ("Total"@, spec_format_price(total as int, "USD"@)),
            ],
        ),
{
    let r = AlertBuilder::success("Trade Executed").field("Side", side).field(
        "Symbol",
        symbol,
    ).price("Amount", amount, "").price("Price", price, "USD").price("Total", total, "USD").build();
    proof {
        assert(Seq::<(Seq<char>, Seq<char>)>::empty().push(("Side"@, side@)).push(
            ("Symbol"@, symbol@),
        ).push(("Amount"@, spec_format_price(amount as int, ""@))).push(
            ("Price"@, spec_format_price(price as int, "USD"@)),
        ).push(("Total"@, spec_format_price(total as int, "USD"@))) =~= seq![
            ("Side"@, side@),
            ("Symbol"@, symbol@),
            ("Amount"@, spec_format_price(amount as int, ""@)),
            ("Price"@, spec_format_price(price as int, "USD"@)),
            ("Total"@, spec_format_price(total as int, "USD"@)),
        ]);
    }
    r
}

/// The level a price move is announced at: critical at twice the
/// threshold, warning at the threshold, informational below it.
pub open spec fn spec_price_alert_level(change_pct: int, threshold: int) -> AlertLevel {
    let magnitude = if change_pct < 0 {
        -change_pct
    } else {
        change_pct
    };
    if magnitude >= threshold * 2 {
        AlertLevel::Critical
    } else if magnitude >= threshold {
        AlertLevel::Warning
    } else {
        AlertLevel::Info
    }
}

/// The alert announcing a price move: the current dollar price and the
/// change, under a level set by how far the move passes the threshold.
pub fn price_alert(symbol: &str, price: i64, change_pct: i64, threshold: i64) -> (r: String)
    ensures
        r@ == spec_build_alert(
            spec_price_alert_level(change_pct as int, threshold as int),
            symbol@ + " Price Alert"@,
            seq![
                ("Current Price"@, spec_format_price(price as int, "USD"@)),
                ("Change"@, (if change_pct >= 0 {
                    "\u{1F4C8} "@
                } else {
                    "\u{1F4C9} "@
                }) + spec_fixed_dec(change_pct as int, 2) + "%"@),
            ],
        ),
{
    let magnitude: i128 = if change_pct < 0 {
        -(change_pct as i128)
    } else {
        change_pct as i128
    };
    let level = if magnitude >= threshold as i128 * 2 {
        AlertLevel::Critical
    } else if magnitude >= threshold as i128 {
        AlertLevel::Warning
    } else {
        AlertLevel::Info
    };
    let mut title = symbol.to_owned();
    title.append(" Price Alert");
    let r = AlertBuilder::new(level, title.as_str()).price("Current Price", price, "USD")
        .percentage("Change", change_pct).build();
    proof {
        assert(Seq::<(Seq<char>, Seq<char>)>::empty().push(
            ("Current Price"@, spec_format_price(price as int, "USD"@)),
        ).push(("Change"@, (if change_pct >= 0 {
            "\u{1F4C8} "@
        } else {
            "\u{1F4C9} "@
        }) + spec_fixed_dec(change_pct as int, 2) + "%"@)) =~= seq![
            ("Current Price"@, spec_format_price(price as int, "USD"@)),
            ("Change"@, (if change_pct >= 0 {
                "\u{1F4C8} "@
            } else {
                "\u{1F4C9} "@
            }) + spec_fixed_dec(change_pct as int, 2) + "%"@),
        ]);
    }
    r
}

/// The alert announcing a crossed risk threshold: the metric, its
/// current value and the threshold, both to two decimals.
pub fn risk_alert(metric: &str, value: i64, threshold: i64) -> (r: String)
    ensures
        r@ == spec_build_alert(
            AlertLevel::Warning,
            "Risk Threshold Reached"@,
            seq![
                ("Metric"@, metric@),
                ("Current Value"@, spec_fixed_dec(value as int, 2)),
                ("Threshold"@, spec_fixed_dec(threshold as int, 2)),
            ],
        ),
{
    let rendered_value = fixed_dec(value, 2);
    let rendered_threshold = fixed_dec(threshold, 2);
    let r = AlertBuilder::warning("Risk Threshold Reached").field("Metric", metric).field(
        "Current Value",
        rendered_value.as_str(),
    ).field("Threshold", rendered_threshold.as_str()).build();
    proof {
        assert(Seq::<(Seq<char>, Seq<char>)>::empty().push(("Metric"@, metric@)).push(
            ("Current Value"@, spec_fixed_dec(value as int, 2)),
        ).push(("Threshold"@, spec_fixed_dec(threshold as int, 2))) =~= seq![
            ("Metric"@, metric@),
            ("Current Value"@, spec_fixed_dec(value as int, 2)),
            ("Threshold"@, spec_fixed_dec(threshold as int, 2)),
        ]);
    }
    r
}

} // verus!
