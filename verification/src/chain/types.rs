//! Networks, wallets, tokens, orders and positions.
//!
//! Prices are fixed-point integers at `PRICE_SCALE` (so `PRICE_SCALE`
//! stands for a price of 1.0); sizes and monetary results are integer
//! amounts of the traded unit and the base currency.

use vstd::prelude::*;
use vstd::string::StringExecFns;

use vstd::arithmetic::div_mod::lemma_div_is_ordered;

verus! {

/// The fixed-point scale for prices: this many units stand for 1.0.
pub const PRICE_SCALE: u64 = 10_000;

/// An integer clamped to the range of `i64`.
pub open spec fn spec_clamp_to_i64(x: int) -> int {
    if x > i64::MAX {
        i64::MAX as int
    } else if x < i64::MIN {
        i64::MIN as int
    } else {
        x
    }
}

/// Supported blockchain networks.
#[derive(Clone, Copy, Debug, PartialEq, Eq, Structural, Hash)]
pub enum Chain {
    Ethereum,
    Polygon,
    Bsc,
    Arbitrum,
    Optimism,
    Base,
    Solana,
}

impl Chain {
    /// Get the chain ID. Solana does not use EVM chain IDs and reports
    /// zero.
    pub fn chain_id(&self) -> (r: u64)
        ensures
            r == match self {
                Chain::Ethereum => 1u64,
                Chain::Polygon => 137u64,
                Chain::Bsc => 56u64,
                Chain::Arbitrum => 42_161u64,
                Chain::Optimism => 10u64,
                Chain::Base => 8_453u64,
                Chain::Solana => 0u64,
            },
    {
        match self {
            Chain::Ethereum => 1,
            Chain::Polygon => 137,
            Chain::Bsc => 56,
            Chain::Arbitrum => 42161,
            Chain::Optimism => 10,
            Chain::Base => 8453,
            Chain::Solana => 0,
        }
    }

    /// Check if the chain is EVM-compatible.
    pub fn is_evm(&self) -> (r: bool)
        ensures
            r == !(self is Solana),
    {
        !matches!(self, Chain::Solana)
    }

    /// Get the native token symbol.
    pub fn native_token(&self) -> (r: &'static str)
        ensures
            r@ == match self {
                Chain::Ethereum => "ETH"@,
                Chain::Polygon => "MATIC"@,
                Chain::Bsc => "BNB"@,
                Chain::Arbitrum => "ETH"@,
                Chain::Optimism => "ETH"@,
                Chain::Base => "ETH"@,
                Chain::Solana => "SOL"@,
            },
    {
        match self {
            Chain::Ethereum => "ETH",
            Chain::Polygon => "MATIC",
            Chain::Bsc => "BNB",
            Chain::Arbitrum | Chain::Optimism | Chain::Base => "ETH",
            Chain::Solana => "SOL",
        }
    }

    /// Get the block explorer URL.
    pub fn explorer_url(&self) -> (r: &'static str)
        ensures
            r@ == self.spec_explorer_url(),
    {
        match self {
            Chain::Ethereum => "https://etherscan.io",
            Chain::Polygon => "https://polygonscan.com",
            Chain::Bsc => "https://bscscan.com",
            Chain::Arbitrum => "https://arbiscan.io",
            Chain::Optimism => "https://optimistic.etherscan.io",
            Chain::Base => "https://basescan.org",
            Chain::Solana => "https://solscan.io",
        }
    }

    /// The block explorer URL of each network.
    pub open spec fn spec_explorer_url(self) -> Seq<char> {
        match self {
            Chain::Ethereum => "https://etherscan.io"@,
            Chain::Polygon => "https://polygonscan.com"@,
            Chain::Bsc => "https://bscscan.com"@,
            Chain::Arbitrum => "https://arbiscan.io"@,
            Chain::Optimism => "https://optimistic.etherscan.io"@,
            Chain::Base => "https://basescan.org"@,
            Chain::Solana => "https://solscan.io"@,
        }
    }
}

/// Wallet abstraction.
#[derive(Clone, Debug, PartialEq, Eq, Hash)]
pub struct Wallet {
    pub address: String,
    pub chain: Chain,
    pub label: Option<String>,
}

impl Wallet {
    /// Create an unlabelled wallet.
    pub fn new(address: &str, chain: Chain) -> (r: Self)
        ensures
            r.address@ == address@,
            r.chain == chain,
            r.label is None,
    {
        Wallet { address: address.to_owned(), chain, label: None }
    }

    /// Attach a label.
    pub fn with_label(self, label: &str) -> (r: Self)
        ensures
            r.address == self.address,
            r.chain == self.chain,
            r.label matches Some(l) && l@ == label@,
    {
        let mut s = self;
        s.label = Some(label.to_owned());
        s
    }

    /// Get the explorer URL for this wallet's address page.
    pub fn explorer_url(&self) -> (r: String)
        ensures
            r@ == self.chain.spec_explorer_url() + "/address/"@ + self.address@,
    {
        let mut url = self.chain.explorer_url().to_owned();
        url.append("/address/");
        url.append(self.address.as_str());
        url
    }
}

/// Token metadata.
#[derive(Clone, Debug)]
pub struct Token {
    pub address: String,
    pub symbol: String,
    pub name: String,
    pub decimals: u8,
    pub chain: Chain,
    pub logo_url: Option<String>,
}

/// Order side.
#[derive(Clone, Copy, Debug, PartialEq, Eq, Structural)]
pub enum OrderSide {
    Buy,
    Sell,
}

impl OrderSide {
    /// The other side of the book.
    pub fn opposite(&self) -> (r: Self)
        ensures
            r == match self {
                OrderSide::Buy => OrderSide::Sell,
                OrderSide::Sell => OrderSide::Buy,
            },
    {
        match self {
            OrderSide::Buy => OrderSide::Sell,
            OrderSide::Sell => OrderSide::Buy,
        }
    }
}

/// Order type.
#[derive(Clone, Copy, Debug, PartialEq, Eq, Structural)]
pub enum OrderType {
    Market,
    Limit,
    Stop,
}

/// Order status.
#[derive(Clone, Copy, Debug, PartialEq, Eq, Structural)]
pub enum OrderStatus {
    Pending,
    Open,
    Filled,
    PartiallyFilled,
    Cancelled,
    Failed,
}

/// Order representation. The size is in traded units, the price
/// fixed-point at `PRICE_SCALE`, the creation time in milliseconds.
#[derive(Clone, Debug)]
pub struct Order {
    pub id: Option<String>,
    pub side: OrderSide,
    pub order_type: OrderType,
    pub token_id: String,
    pub size: u64,
    pub price: u64,
    pub wallet: Wallet,
    pub created_at: i64,
    pub status: OrderStatus,
}

/// Position tracking. Sizes are in traded units, prices fixed-point at
/// `PRICE_SCALE`, the opening time in milliseconds.
#[derive(Clone, Debug)]
pub struct Position {
    pub token_id: String,
    pub token: Token,
    pub size: u64,
    pub entry_price: u64,
    pub current_price: u64,
    pub wallet: Wallet,
    pub opened_at: i64,
}

/// The unrealized profit or loss of a position, in base currency
/// units, clamped to the representable range.
pub open spec fn spec_unrealized_pnl(p: Position) -> int {
    spec_clamp_to_i64(
        (p.current_price - p.entry_price) * p.size / (PRICE_SCALE as int),
    )
}

/// The unrealized profit or loss as whole percent of the entry price,
/// clamped to the representable range; zero when the entry price is
/// zero.
pub open spec fn spec_unrealized_pnl_pct(p: Position) -> int {
    if p.entry_price == 0 {
        0
    } else {
        spec_clamp_to_i64((p.current_price - p.entry_price) * 100 / (p.entry_price as int))
    }
}

/// The current value of a position, in base currency units, saturated
/// at the largest representable amount.
pub open spec fn spec_position_value(p: Position) -> int {
    let value = p.size * p.current_price / (PRICE_SCALE as int);
    if value > u64::MAX {
        u64::MAX as int
    } else {
        value
    }
}

fn clamp_i128_to_i64(x: i128) -> (r: i64)
    ensures
        r as int == spec_clamp_to_i64(x as int),
{
    if x > i64::MAX as i128 {
        i64::MAX
    } else if x < i64::MIN as i128 {
        i64::MIN
    } else {
        x as i64
    }
}

/// Euclidean division of a signed scaled quantity by the price scale;
/// total because the scale is positive and the quotient shrinks.
fn div_scale_i128(x: i128) -> (r: i128)
    ensures
        r as int == x as int / (PRICE_SCALE as int),
{
    match x.checked_div_euclid(PRICE_SCALE as i128) {
        Some(d) => d,
        None => {
            proof {
                lemma_div_is_ordered(i128::MIN as int, x as int, PRICE_SCALE as int);
                lemma_div_is_ordered(x as int, i128::MAX as int, PRICE_SCALE as int);
                assert(i128::MIN as int / (PRICE_SCALE as int) >= i128::MIN);
                assert(i128::MAX as int / (PRICE_SCALE as int) <= i128::MAX);
                assert(false);
            }
            0
        },
    }
}

impl Position {
    /// Calculate the unrealized profit or loss, in base currency
    /// units.
    pub fn unrealized_pnl(&self) -> (r: i64)
        ensures
            r as int == spec_unrealized_pnl(*self),
    {
        let diff: i128 = self.current_price as i128 - self.entry_price as i128;
        match diff.checked_mul(self.size as i128) {
            Some(product) => clamp_i128_to_i64(div_scale_i128(product)),
            None => {
                proof {
                    let d = diff as int;
                    let s = self.size as int;
                    assert(d > 0 ==> d * s > i128::MAX && d * s / (PRICE_SCALE as int)
                        > i64::MAX) by (nonlinear_arith)
                        requires
                            s >= 0,
                            d <= u64::MAX as int,
                            !(i128::MIN <= d * s <= i128::MAX),
                    ;
                    assert(d < 0 ==> d * s < i128::MIN && d * s / (PRICE_SCALE as int)
                        < i64::MIN) by (nonlinear_arith)
                        requires
                            s >= 0,
                            -(u64::MAX as int) <= d,
                            !(i128::MIN <= d * s <= i128::MAX),
                    ;
                    assert(d != 0) by (nonlinear_arith)
                        requires
                            !(i128::MIN <= d * s <= i128::MAX),
                    ;
                }
                if diff > 0 {
                    i64::MAX
                } else {
                    i64::MIN
                }
            },
        }
    }

    /// Calculate the unrealized profit or loss as whole percent of the
    /// entry price.
    pub fn unrealized_pnl_pct(&self) -> (r: i64)
        ensures
            r as int == spec_unrealized_pnl_pct(*self),
    {
        if self.entry_price == 0 {
            return 0;
        }
        let diff: i128 = self.current_price as i128 - self.entry_price as i128;
        let scaled: i128 = diff * 100;
        let quotient = match scaled.checked_div_euclid(self.entry_price as i128) {
            Some(q) => q,
            None => {
                proof {
                    lemma_div_is_ordered(i128::MIN as int, scaled as int, self.entry_price as int);
                    lemma_div_is_ordered(scaled as int, i128::MAX as int, self.entry_price as int);
                    assert(i128::MIN as int / (self.entry_price as int) >= i128::MIN)
                        by (nonlinear_arith)
                        requires
                            self.entry_price as int >= 1,
                    ;
                    assert(i128::MAX as int / (self.entry_price as int) <= i128::MAX)
                        by (nonlinear_arith)
                        requires
                            self.entry_price as int >= 1,
                    ;
                    assert(false);
                }
                0
            },
        };
        clamp_i128_to_i64(quotient)
    }

    /// Calculate the position's current value, in base currency units.
    pub fn value(&self) -> (r: u64)
        ensures
            r as int == spec_position_value(*self),
    {
        proof {
            assert(self.size as int * (self.current_price as int) <= u64::MAX as int * (
            u64::MAX as int)) by (nonlinear_arith)
                requires
                    0 <= self.size as int <= u64::MAX as int,
                    0 <= self.current_price as int <= u64::MAX as int,
            ;
        }
        let product: u128 = self.size as u128 * self.current_price as u128;
        let value = product / PRICE_SCALE as u128;
        if value > u64::MAX as u128 {
            u64::MAX
        } else {
            value as u64
        }
    }
}

/// Transaction receipt.
#[derive(Clone, Debug)]
pub struct Transaction {
    pub hash: String,
    pub from: String,
    pub to: String,
    pub value: String,
    pub gas_used: u64,
    pub gas_price: u64,
    pub status: bool,
    /// Milliseconds of the UTC timeline.
    pub timestamp: i64,
    pub chain: Chain,
}

impl Transaction {
    /// Get the explorer URL for this transaction's page.
    pub fn explorer_url(&self) -> (r: String)
        ensures
            r@ == self.chain.spec_explorer_url() + "/tx/"@ + self.hash@,
    {
        let mut url = self.chain.explorer_url().to_owned();
        url.append("/tx/");
        url.append(self.hash.as_str());
        url
    }
}

} // verus!
