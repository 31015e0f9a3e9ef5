//! Core data types of the trading engine.
//!
//! All prices are fixed-point micro-units in `[0, SCALE]` (an implied
//! probability of 0.45 is `450_000`), position sizes are micro-shares, and
//! profit-and-loss amounts are micro-dollars.

use vstd::prelude::*;
use crate::num::SCALE;

verus! {

/// Upper bound on a position size (one million whole shares): keeps every
/// profit-and-loss product inside the fixed-point range.
pub const MAX_POSITION_SIZE: i64 = 1_000_000_000_000;

/// One asset whose periodic up/down market is tracked.
#[derive(Debug, Clone, Copy, PartialEq, Eq, Structural)]
pub enum Asset {
    Eth,
    Btc,
    Sol,
    Xrp,
}

impl Asset {
    /// A stable index for per-asset storage.
    pub open spec fn spec_index(self) -> int {
        match self {
            Asset::Eth => 0,
            Asset::Btc => 1,
            Asset::Sol => 2,
            Asset::Xrp => 3,
        }
    }

    /// A stable index for per-asset storage.
    pub fn index(self) -> (r: usize)
        ensures
            r == self.spec_index(),
            r < 4,
    {
        match self {
            Asset::Eth => 0,
            Asset::Btc => 1,
            Asset::Sol => 2,
            Asset::Xrp => 3,
        }
    }
}

/// Price data point with both Up and Down token ask prices.
#[derive(Debug)]
pub struct PricePoint {
    /// Start of the 15-minute period this sample belongs to (UNIX seconds).
    pub timestamp: u64,
    /// Ask price of the Up token, micro-units.
    pub up_price: i64,
    /// Ask price of the Down token, micro-units.
    pub down_price: i64,
    /// 1 for an Up win, 0 for a Down win, if known.
    pub actual_outcome: Option<u8>,
    /// Asset this sample belongs to.
    pub asset: Option<Asset>,
    /// 1 for positive Up news, -1 for Down, 0 for none.
    pub news_event: Option<i8>,
}

impl Clone for PricePoint {
    fn clone(&self) -> (r: Self)
        ensures
            r == *self,
    {
        PricePoint {
            timestamp: self.timestamp,
            up_price: self.up_price,
            down_price: self.down_price,
            actual_outcome: self.actual_outcome,
            asset: self.asset,
            news_event: self.news_event,
        }
    }
}

impl PricePoint {
    /// Both prices lie in the fixed-point unit interval.
    pub open spec fn wf(&self) -> bool {
        &&& 0 <= self.up_price <= SCALE
        &&& 0 <= self.down_price <= SCALE
    }

    /// The Up price, kept for callers that track a single stream.
    pub fn price(&self) -> (r: i64)
        ensures
            r == self.up_price,
    {
        self.up_price
    }
}

/// Side held in an active trading cycle.
#[derive(Debug, Clone, Copy, PartialEq, Eq, Structural)]
pub enum PositionSide {
    Flat,
    LongUp,
    LongDown,
}

/// One active trading cycle: entry plus the take-profit and stop-loss levels
/// bounding its exit.  At most one exists per trader at any time.
#[derive(Debug, Clone, Copy, PartialEq, Eq, Structural)]
pub struct ActiveCycle {
    pub side: PositionSide,
    /// Entry price of the token bought, micro-units.
    pub entry_price: i64,
    /// Position size, micro-shares.
    pub size: i64,
    /// Take-profit limit price, micro-units.
    pub tp_price: i64,
    /// Stop-loss price, micro-units.
    pub sl_price: i64,
}

impl ActiveCycle {
    pub open spec fn wf(&self) -> bool {
        &&& self.side != PositionSide::Flat
        &&& 0 <= self.entry_price <= SCALE
        &&& 0 < self.size <= MAX_POSITION_SIZE
        &&& 0 <= self.tp_price <= 2 * SCALE
        &&& -SCALE <= self.sl_price <= SCALE
    }
}

/// Position state as exposed to reporting code.
#[derive(Debug, Clone)]
pub enum PositionState {
    NoPosition,
    LongUp { buy_price: i64, size: i64, cost: i64 },
    LongDown { buy_price: i64, size: i64, cost: i64 },
    Hedged {
        up_buy_price: i64,
        up_size: i64,
        up_cost: i64,
        down_buy_price: i64,
        down_size: i64,
        down_cost: i64,
    },
}

/// Running trading statistics.
#[derive(Debug)]
pub struct TradingStats {
    pub total_trades: usize,
    pub winning_trades: usize,
    pub losing_trades: usize,
    /// Cumulative profit and loss, micro-dollars.
    pub total_pnl: i64,
    /// Current capital, micro-dollars.
    pub current_capital: i64,
    /// (timestamp, equity) samples.
    pub equity_curve: Vec<(u64, i64)>,
}

impl Default for TradingStats {
    fn default() -> (r: Self)
        ensures
            r.total_trades == 0,
            r.winning_trades == 0,
            r.losing_trades == 0,
            r.total_pnl == 0,
            r.current_capital == 0,
            r.equity_curve@ == Seq::<(u64, i64)>::empty(),
    {
        TradingStats {
            total_trades: 0,
            winning_trades: 0,
            losing_trades: 0,
            total_pnl: 0,
            current_capital: 0,
            equity_curve: Vec::new(),
        }
    }
}

impl TradingStats {
    /// Share of winning trades, in fixed-point percent (100% is
    /// `100 * SCALE`); 0 when no trades closed yet.
    pub fn win_rate(&self) -> (r: i64)
        requires
            self.winning_trades <= self.total_trades,
        ensures
            self.total_trades == 0 ==> r == 0,
            self.total_trades > 0 ==> r == (self.winning_trades * 100 * SCALE) as int / (
            self.total_trades as int),
    {
        if self.total_trades == 0 {
            return 0;
        }
        let num: u128 = (self.winning_trades as u128) * (100 * SCALE as u128);
        let den: u128 = self.total_trades as u128;
        let q: u128 = num / den;
        proof {
            assert((self.winning_trades as int) * 100000000 <= (self.total_trades as int)
                * 100000000) by (nonlinear_arith)
                requires
                    self.winning_trades <= self.total_trades,
            ;
            crate::num::lemma_div_at_most(
                (self.winning_trades as int) * 100000000,
                self.total_trades as int,
                100000000,
            );
        }
        q as i64
    }

    /// Append one equity sample.
    pub fn add_equity_point(&mut self, timestamp: u64, equity: i64)
        ensures
            final(self).equity_curve@ == old(self).equity_curve@.push((timestamp, equity)),
            final(self).total_trades == old(self).total_trades,
            final(self).winning_trades == old(self).winning_trades,
            final(self).losing_trades == old(self).losing_trades,
            final(self).total_pnl == old(self).total_pnl,
            final(self).current_capital == old(self).current_capital,
    {
        self.equity_curve.push((timestamp, equity));
    }
}

/// Trade log entry, one per recorded action.
#[derive(Debug, Clone)]
pub struct TradeLog {
    pub ts: u64,
    pub action: String,
    pub price: i64,
    pub amount: i64,
    pub current_capital: i64,
    pub pl: i64,
    pub asset: Option<Asset>,
    pub trending_index_name: Option<String>,
    pub trending_index_value: Option<i64>,
}

/// Best bid and ask of one token.
#[derive(Debug, Clone)]
pub struct TokenPrice {
    pub token_id: String,
    pub bid: Option<i64>,
    pub ask: Option<i64>,
}

impl TokenPrice {
    /// The ask price, or zero when no ask was available.
    pub fn ask_price(&self) -> (r: i64)
        ensures
            r == match self.ask {
                Some(a) => a,
                None => 0,
            },
    {
        match &self.ask {
            Some(a) => *a,
            None => 0,
        }
    }
}

/// Prices of one asset's Up and Down tokens at one instant.
#[derive(Debug, Clone)]
pub struct MarketData {
    pub condition_id: String,
    pub market_name: String,
    pub up_token: Option<TokenPrice>,
    pub down_token: Option<TokenPrice>,
}

/// One tick's snapshot over every tracked asset.
#[derive(Debug, Clone)]
pub struct MarketSnapshot {
    pub eth_market: MarketData,
    pub btc_market: MarketData,
    pub solana_market: MarketData,
    pub xrp_market: MarketData,
    /// When the snapshot was taken (UNIX seconds).
    pub timestamp: u64,
    pub time_remaining_seconds: u64,
    /// Start of the current 15-minute period (UNIX seconds, multiple of 900).
    pub period_timestamp: u64,
}

/// Order request for the exchange gateway.
#[derive(Debug, Clone)]
pub struct OrderRequest {
    pub token_id: String,
    /// "BUY" or "SELL".
    pub side: String,
    pub size: String,
    pub price: String,
    /// "LIMIT" or "MARKET".
    pub order_type: String,
}

/// Order response from the exchange gateway.
#[derive(Debug, Clone)]
pub struct OrderResponse {
    pub success: bool,
    pub order_id: Option<String>,
    pub status: Option<String>,
    pub message: Option<String>,
    pub error_msg: Option<String>,
}

/// Exchange credentials and endpoints, as read from configuration.
#[derive(Debug, Clone)]
pub struct PolymarketConfig {
    pub gamma_api_url: Option<String>,
    pub clob_api_url: Option<String>,
    pub api_key: Option<String>,
    pub api_secret: Option<String>,
    pub api_passphrase: Option<String>,
    pub private_key: Option<String>,
    pub proxy_wallet_address: Option<String>,
    pub signature_type: Option<u8>,
}

} // verus!
