//! Rolling technical indicators: RSI, MACD and momentum.
//!
//! Each calculator consumes one price per call and exposes its reading once a
//! warm-up window has filled.  Prices are fixed-point micro-units in
//! `[0, SCALE]`; indicator readings are fixed-point as well (an RSI of 100.0
//! is `100 * SCALE`).  The mathematical model of every calculator is a fold
//! over the full sequence of prices fed since construction, so feeding a
//! sequence price by price and feeding it all at once agree by construction.

use vstd::prelude::*;
use crate::num::{SCALE, div_up, div_up_i64, udiv_i64};
use crate::num::{lemma_div_up_nonneg, lemma_div_up_at_most};

verus! {

/// All prices of a stream lie in the fixed-point unit interval.
pub open spec fn prices_bounded(s: Seq<int>) -> bool {
    forall|i: int| 0 <= i < s.len() ==> 0 <= #[trigger] s[i] <= SCALE
}

/// The trailing `cap` elements of a sequence (the whole sequence while it is
/// still shorter than that).
pub open spec fn window_of(s: Seq<int>, cap: nat) -> Seq<int> {
    if s.len() <= cap {
        s
    } else {
        s.skip(s.len() - cap)
    }
}

/// How a trailing window evolves when one element is pushed and the window is
/// then trimmed back to its capacity.
pub proof fn lemma_window_push(s: Seq<int>, x: int, cap: nat)
    requires
        1 <= cap,
    ensures
        s.len() < cap ==> window_of(s.push(x), cap) == window_of(s, cap).push(x),
        s.len() >= cap ==> window_of(s.push(x), cap) == window_of(s, cap).push(x).remove(0),
{
    let t = s.push(x);
    if s.len() < cap {
        assert(window_of(t, cap) =~= window_of(s, cap).push(x));
    } else {
        assert(window_of(t, cap) =~= window_of(s, cap).push(x).remove(0));
    }
}

/// Mapping a pushed vector of prices into the model distributes over the push.
pub proof fn lemma_map_push(v: Seq<i64>, x: i64)
    ensures
        v.push(x).map_values(|e: i64| e as int) == v.map_values(|e: i64| e as int).push(x as int),
{
    assert(v.push(x).map_values(|e: i64| e as int) =~= v.map_values(|e: i64| e as int).push(
        x as int,
    ));
}

/// Mapping a vector with its first element removed distributes over the
/// removal.
pub proof fn lemma_map_remove0(v: Seq<i64>)
    requires
        v.len() >= 1,
    ensures
        v.remove(0).map_values(|e: i64| e as int) == v.map_values(|e: i64| e as int).remove(0),
{
    assert(v.remove(0).map_values(|e: i64| e as int) =~= v.map_values(|e: i64| e as int).remove(
        0,
    ));
}

/// Upward price change between two consecutive samples (0 when falling).
pub open spec fn gain_of(prev: int, cur: int) -> int {
    if cur > prev {
        cur - prev
    } else {
        0
    }
}

/// Downward price change between two consecutive samples (0 when rising).
pub open spec fn loss_of(prev: int, cur: int) -> int {
    if cur < prev {
        prev - cur
    } else {
        0
    }
}

/// Sum of the upward changes over a whole price sequence.
pub open spec fn total_gains(s: Seq<int>) -> int
    decreases s.len(),
{
    if s.len() < 2 {
        0
    } else {
        total_gains(s.drop_last()) + gain_of(s[s.len() - 2], s[s.len() - 1])
    }
}

/// Sum of the downward changes over a whole price sequence.
pub open spec fn total_losses(s: Seq<int>) -> int
    decreases s.len(),
{
    if s.len() < 2 {
        0
    } else {
        total_losses(s.drop_last()) + loss_of(s[s.len() - 2], s[s.len() - 1])
    }
}

/// The RSI calculator is warmed up once it has seen `period` price changes,
/// that is `period + 1` prices.
pub open spec fn rsi_ready(s: Seq<int>, period: nat) -> bool {
    s.len() > period
}

/// Wilder-smoothed average gain after feeding `s`: the first `period` changes
/// are averaged to seed the value, later changes update it exponentially.
/// Divisions round up so that a strictly positive average can never collapse
/// to zero.
pub open spec fn avg_gain_of(s: Seq<int>, period: nat) -> int
    decreases s.len(),
{
    if s.len() <= period + 1 {
        div_up(total_gains(s), period as int)
    } else {
        div_up(
            avg_gain_of(s.drop_last(), period) * (period - 1) + gain_of(
                s[s.len() - 2],
                s[s.len() - 1],
            ),
            period as int,
        )
    }
}

/// Wilder-smoothed average loss after feeding `s`.
pub open spec fn avg_loss_of(s: Seq<int>, period: nat) -> int
    decreases s.len(),
{
    if s.len() <= period + 1 {
        div_up(total_losses(s), period as int)
    } else {
        div_up(
            avg_loss_of(s.drop_last(), period) * (period - 1) + loss_of(
                s[s.len() - 2],
                s[s.len() - 1],
            ),
            period as int,
        )
    }
}

/// RSI reading from an average-gain / average-loss pair:
/// `100 - 100 / (1 + gain/loss)`, which equals `100 * gain / (gain + loss)`,
/// with a neutral 50 when the stream was perfectly flat.
pub open spec fn rsi_point(g: int, l: int) -> int {
    if g == 0 && l == 0 {
        50 * SCALE
    } else if l == 0 {
        100 * SCALE
    } else if g == 0 {
        0
    } else {
        (100 * SCALE * g) / (g + l)
    }
}

/// RSI reading after feeding the price sequence `s`.
pub open spec fn rsi_of(s: Seq<int>, period: nat) -> int {
    rsi_point(avg_gain_of(s, period), avg_loss_of(s, period))
}

/// Rolling RSI calculator over a bounded trailing window.
pub struct RollingRSI {
    period: usize,
    prices: Vec<i64>,
    avg_gain: i64,
    avg_loss: i64,
    sum_gain: i64,
    sum_loss: i64,
    initialized: bool,
    hist: Ghost<Seq<int>>,
}

impl View for RollingRSI {
    type V = Seq<int>;

    /// The model of the calculator is the sequence of prices fed so far.
    closed spec fn view(&self) -> Seq<int> {
        self.hist@
    }
}

impl RollingRSI {
    /// The configured smoothing period.
    pub closed spec fn spec_period(&self) -> nat {
        self.period as nat
    }

    pub closed spec fn wf(&self) -> bool {
        let s = self.hist@;
        let p = self.period as nat;
        &&& 1 <= self.period <= 1000000
        &&& prices_bounded(s)
        &&& self.prices@.map_values(|e: i64| e as int) == window_of(s, p + 1)
        &&& (self.initialized <==> s.len() > p)
        &&& (!self.initialized ==> {
            &&& self.sum_gain == total_gains(s)
            &&& self.sum_loss == total_losses(s)
        })
        &&& (self.initialized ==> {
            &&& self.avg_gain == avg_gain_of(s, p)
            &&& self.avg_loss == avg_loss_of(s, p)
        })
    }

    pub fn new(period: usize) -> (r: RollingRSI)
        requires
            1 <= period <= 1000000,
        ensures
            r.wf(),
            r@ == Seq::<int>::empty(),
            r.spec_period() == period as nat,
    {
        let r = RollingRSI {
            period,
            prices: Vec::new(),
            avg_gain: 0,
            avg_loss: 0,
            sum_gain: 0,
            sum_loss: 0,
            initialized: false,
            hist: Ghost(Seq::empty()),
        };
        proof {
            assert(r.prices@.map_values(|e: i64| e as int) =~= window_of(
                r.hist@,
                (period + 1) as nat,
            ));
        }
        r
    }

    /// Add a new price and update the smoothed averages.
    pub fn add_price(&mut self, price: i64)
        requires
            old(self).wf(),
            0 <= price <= SCALE,
        ensures
            final(self).wf(),
            final(self)@ == old(self)@.push(price as int),
            final(self).spec_period() == old(self).spec_period(),
    {
        let ghost s0 = self.hist@;
        let ghost s1 = self.hist@.push(price as int);
        let ghost p = self.period as nat;
        proof {
            assert(s1.drop_last() =~= s0);
            assert forall|i: int| 0 <= i < s1.len() implies 0 <= #[trigger] s1[i] <= SCALE by {
                if i < s0.len() {
                    assert(0 <= s0[i] <= SCALE);
                }
            }
            lemma_window_push(s0, price as int, p + 1);
            lemma_map_push(self.prices@, price);
        }
        self.prices.push(price);
        self.hist = Ghost(s1);
        proof {
            // window_of(s0, p + 1).len() == min(s0.len(), p + 1), so the
            // in-memory window and the model agree on when two prices exist.
            assert(self.prices@.map_values(|e: i64| e as int) == window_of(s0, p + 1).push(
                price as int,
            ));
        }

        if self.prices.len() < 2 {
            proof {
                assert(s0.len() == 0);
                assert(window_of(s1, p + 1) =~= window_of(s0, p + 1).push(price as int));
            }
            return ;
        }
        proof {
            assert(s0.len() >= 1);
            assert(s1.len() >= 2);
        }
        let prev = self.prices[self.prices.len() - 2];
        proof {
            let w = self.prices@.map_values(|e: i64| e as int);
            assert(w[w.len() - 2] == prev as int);
            if s0.len() < p + 1 {
                assert(w == s1);
            } else {
                assert(w[w.len() - 2] == s1[s1.len() - 2]);
            }
            assert(prev as int == s1[s1.len() - 2]);
            assert(0 <= s1[s1.len() - 2] <= SCALE);
        }
        let gain = if price > prev {
            price - prev
        } else {
            0
        };
        let loss = if price < prev {
            prev - price
        } else {
            0
        };
        proof {
            assert(gain == gain_of(s1[s1.len() - 2], s1[s1.len() - 1]));
            assert(loss == loss_of(s1[s1.len() - 2], s1[s1.len() - 1]));
        }

        if !self.initialized {
            proof {
                lemma_total_changes_bounds(s0);
                assert(s0.len() <= p);
                assert((s0.len() - 1) * SCALE <= (p - 1) * SCALE) by (nonlinear_arith)
                    requires
                        s0.len() <= p,
                ;
                assert(total_gains(s1) == total_gains(s0) + gain);
                assert(total_losses(s1) == total_losses(s0) + loss);
            }
            self.sum_gain = self.sum_gain + gain;
            self.sum_loss = self.sum_loss + loss;
            if self.prices.len() == self.period + 1 {
                proof {
                    assert(window_of(s1, p + 1).len() == self.prices@.len());
                    assert(s1.len() == p + 1);
                    lemma_total_changes_bounds(s1);
                    assert((s1.len() - 1) * SCALE <= 1000000 * (SCALE as int)) by (nonlinear_arith)
                        requires
                            s1.len() <= 1000001,
                    ;
                }
                self.avg_gain = div_up_i64(self.sum_gain, self.period as i64);
                self.avg_loss = div_up_i64(self.sum_loss, self.period as i64);
                self.initialized = true;
            } else {
                proof {
                    if s1.len() > p {
                        assert(s1.len() == p + 1);
                        assert(window_of(s1, p + 1).len() == s1.len());
                        assert(false);
                    }
                }
            }
        } else {
            let pe = self.period as i64;
            proof {
                lemma_avgs_bounds(s0, p);
                assert(self.avg_gain * (pe - 1) + gain <= SCALE * (pe as int)) by (nonlinear_arith)
                    requires
                        0 <= self.avg_gain <= SCALE,
                        0 <= gain <= SCALE,
                        1 <= pe,
                ;
                assert(self.avg_gain * (pe - 1) + gain >= 0) by (nonlinear_arith)
                    requires
                        0 <= self.avg_gain,
                        0 <= gain,
                        1 <= pe,
                ;
                assert(self.avg_loss * (pe - 1) + loss <= SCALE * (pe as int)) by (nonlinear_arith)
                    requires
                        0 <= self.avg_loss <= SCALE,
                        0 <= loss <= SCALE,
                        1 <= pe,
                ;
                assert(self.avg_loss * (pe - 1) + loss >= 0) by (nonlinear_arith)
                    requires
                        0 <= self.avg_loss,
                        0 <= loss,
                        1 <= pe,
                ;
                assert(SCALE * (pe as int) <= 1000000000000int) by (nonlinear_arith)
                    requires
                        1 <= pe <= 1000000,
                ;
                assert(s1.len() > p + 1);
            }
            self.avg_gain = div_up_i64(self.avg_gain * (pe - 1) + gain, pe);
            self.avg_loss = div_up_i64(self.avg_loss * (pe - 1) + loss, pe);
        }

        if self.prices.len() > self.period + 1 {
            proof {
                assert(s0.len() >= p + 1);
                lemma_map_remove0(self.prices@);
            }
            let _ = self.prices.remove(0);
        } else {
            proof {
                assert(s0.len() < p + 1);
            }
        }
    }

    /// Current RSI reading, available once the warm-up window has filled.
    pub fn get_rsi(&self) -> (r: Option<i64>)
        requires
            self.wf(),
        ensures
            r is Some <==> rsi_ready(self@, self.spec_period()),
            r matches Some(v) ==> v as int == rsi_of(self@, self.spec_period()),
    {
        if !self.initialized {
            return None;
        }
        proof {
            lemma_avgs_bounds(self.hist@, self.period as nat);
        }
        if self.avg_loss == 0 && self.avg_gain == 0 {
            Some(50 * SCALE)
        } else if self.avg_loss == 0 {
            Some(100 * SCALE)
        } else if self.avg_gain == 0 {
            Some(0)
        } else {
            let g = self.avg_gain;
            proof {
                assert(0 <= g <= SCALE);
                assert(0 <= self.avg_loss <= SCALE);
                assert(0 <= 100 * (SCALE as int) * (g as int) <= 100000000000000int)
                    by (nonlinear_arith)
                    requires
                        0 <= g <= 1000000,
                        SCALE == 1000000,
                ;
            }
            let num: i64 = 100 * SCALE * g;
            let r = udiv_i64(num, g + self.avg_loss);
            Some(r)
        }
    }

    /// The trailing prices currently held in the window (most recent last).
    pub fn get_recent_prices(&self) -> (r: Vec<i64>)
        requires
            self.wf(),
        ensures
            r@.map_values(|e: i64| e as int) == window_of(self@, self.spec_period() + 1),
    {
        let mut out: Vec<i64> = Vec::new();
        let mut i: usize = 0;
        while i < self.prices.len()
            invariant
                0 <= i <= self.prices.len(),
                out@ == self.prices@.take(i as int),
            decreases self.prices.len() - i,
        {
            out.push(self.prices[i]);
            i = i + 1;
        }
        proof {
            assert(out@ =~= self.prices@);
        }
        out
    }

    /// Current average gain and average loss (0 before warm-up completes).
    pub fn get_stats(&self) -> (r: (i64, i64))
        requires
            self.wf(),
        ensures
            rsi_ready(self@, self.spec_period()) ==> r.0 == avg_gain_of(self@, self.spec_period())
                && r.1 == avg_loss_of(self@, self.spec_period()),
    {
        (self.avg_gain, self.avg_loss)
    }

    /// Whether the warm-up window has filled.
    pub fn is_ready(&self) -> (r: bool)
        requires
            self.wf(),
        ensures
            r == rsi_ready(self@, self.spec_period()),
    {
        self.initialized
    }
}

/// Total gains and losses are non-negative and bounded by the number of
/// changes times the price range.
pub proof fn lemma_total_changes_bounds(s: Seq<int>)
    requires
        prices_bounded(s),
    ensures
        0 <= total_gains(s),
        0 <= total_losses(s),
        s.len() >= 1 ==> total_gains(s) <= (s.len() - 1) * SCALE,
        s.len() >= 1 ==> total_losses(s) <= (s.len() - 1) * SCALE,
    decreases s.len(),
{
    if s.len() < 2 {
    } else {
        assert(prices_bounded(s.drop_last())) by {
            assert(forall|i: int|
                0 <= i < s.len() - 1 ==> s.drop_last()[i] == #[trigger] s[i]);
        }
        lemma_total_changes_bounds(s.drop_last());
        assert(0 <= s[s.len() - 2] <= SCALE);
        assert(0 <= s[s.len() - 1] <= SCALE);
        assert((s.len() - 2) * SCALE + SCALE == (s.len() - 1) * SCALE) by (nonlinear_arith);
    }
}

/// The Wilder averages stay within the price range `[0, SCALE]`.
pub proof fn lemma_avgs_bounds(s: Seq<int>, p: nat)
    requires
        prices_bounded(s),
        1 <= p <= 1000000,
        rsi_ready(s, p),
    ensures
        0 <= avg_gain_of(s, p) <= SCALE,
        0 <= avg_loss_of(s, p) <= SCALE,
    decreases s.len(),
{
    if s.len() <= p + 1 {
        lemma_total_changes_bounds(s);
        lemma_div_up_nonneg(total_gains(s), p as int);
        lemma_div_up_nonneg(total_losses(s), p as int);
        assert((s.len() - 1) * SCALE <= (SCALE as int) * (p as int)) by (nonlinear_arith)
            requires
                s.len() <= p + 1,
                1 <= p,
        ;
        lemma_div_up_at_most(total_gains(s), p as int, SCALE as int);
        lemma_div_up_at_most(total_losses(s), p as int, SCALE as int);
    } else {
        let t = s.drop_last();
        assert(prices_bounded(t)) by {
            assert(forall|i: int| 0 <= i < t.len() ==> t[i] == #[trigger] s[i]);
        }
        lemma_avgs_bounds(t, p);
        let g = gain_of(s[s.len() - 2], s[s.len() - 1]);
        let l = loss_of(s[s.len() - 2], s[s.len() - 1]);
        assert(0 <= s[s.len() - 2] <= SCALE);
        assert(0 <= s[s.len() - 1] <= SCALE);
        assert(0 <= g <= SCALE && 0 <= l <= SCALE);
        assert(avg_gain_of(t, p) * (p - 1) + g <= (SCALE as int) * (p as int)) by (nonlinear_arith)
            requires
                0 <= avg_gain_of(t, p) <= SCALE,
                0 <= g <= SCALE,
                1 <= p,
        ;
        assert(avg_gain_of(t, p) * (p - 1) + g >= 0) by (nonlinear_arith)
            requires
                0 <= avg_gain_of(t, p),
                0 <= g,
                1 <= p,
        ;
        assert(avg_loss_of(t, p) * (p - 1) + l <= (SCALE as int) * (p as int)) by (nonlinear_arith)
            requires
                0 <= avg_loss_of(t, p) <= SCALE,
                0 <= l <= SCALE,
                1 <= p,
        ;
        assert(avg_loss_of(t, p) * (p - 1) + l >= 0) by (nonlinear_arith)
            requires
                0 <= avg_loss_of(t, p),
                0 <= l,
                1 <= p,
        ;
        lemma_div_up_nonneg(avg_gain_of(t, p) * (p - 1) + g, p as int);
        lemma_div_up_at_most(avg_gain_of(t, p) * (p - 1) + g, p as int, SCALE as int);
        lemma_div_up_nonneg(avg_loss_of(t, p) * (p - 1) + l, p as int);
        lemma_div_up_at_most(avg_loss_of(t, p) * (p - 1) + l, p as int, SCALE as int);
    }
}

/// Sum of a sequence of fixed-point values.
pub open spec fn sum_of(s: Seq<int>) -> int
    decreases s.len(),
{
    if s.len() == 0 {
        0
    } else {
        sum_of(s.drop_last()) + s.last()
    }
}

/// All values of a signed stream have magnitude at most `SCALE`.
pub open spec fn values_abs_bounded(s: Seq<int>) -> bool {
    forall|i: int| 0 <= i < s.len() ==> -SCALE <= #[trigger] s[i] <= SCALE
}

/// One exponential-smoothing update with factor `2 / (n + 1)`, over
/// non-negative operands (floor division).
pub open spec fn ema_step(ema: int, price: int, n: nat) -> int {
    (2 * price + (n - 1) * ema) / (n + 1) as int
}

/// One exponential-smoothing update with factor `2 / (n + 1)`, over signed
/// operands (truncating division).
pub open spec fn ema_step_trunc(ema: int, v: int, n: nat) -> int {
    crate::num::div_trunc(2 * v + (n - 1) * ema, (n + 1) as int)
}

/// Exponential moving average with smoothing length `n` after feeding `s`:
/// seeded by the simple average of the first `seed` prices, then updated
/// exponentially.  Meaningful once `s.len() >= seed`.
pub open spec fn ema_of(s: Seq<int>, n: nat, seed: nat) -> int
    decreases s.len(),
{
    if s.len() <= seed {
        sum_of(s) / (seed as int)
    } else {
        ema_step(ema_of(s.drop_last(), n, seed), s.last(), n)
    }
}

/// The MACD calculator is warmed up once `slow` prices have been fed.
pub open spec fn macd_ready(s: Seq<int>, slow: nat) -> bool {
    s.len() >= slow
}

/// MACD reading after feeding `s`: fast EMA minus slow EMA, both seeded from
/// the simple average of the first `slow` prices.
pub open spec fn macd_of(s: Seq<int>, fast: nat, slow: nat) -> int {
    ema_of(s, fast, slow) - ema_of(s, slow, slow)
}

/// The sequence of MACD readings produced while feeding `s`, one per price
/// from the moment the calculator warmed up.
pub open spec fn macd_series(s: Seq<int>, fast: nat, slow: nat) -> Seq<int> {
    if s.len() < slow {
        Seq::empty()
    } else {
        Seq::new((s.len() - slow + 1) as nat, |i: int| macd_of(s.take(slow + i), fast, slow))
    }
}

/// Exponential moving average of a MACD series (the signal line), seeded by
/// the simple average of the first `sig` readings, with the truncating
/// division of the executable code.
pub open spec fn signal_fold(ms: Seq<int>, sig: nat) -> int
    decreases ms.len(),
{
    if ms.len() <= sig {
        crate::num::div_trunc(sum_of(ms), sig as int)
    } else {
        ema_step_trunc(signal_fold(ms.drop_last(), sig), ms.last(), sig)
    }
}

/// The signal line is available once `sig` MACD readings exist.
pub open spec fn signal_ready(s: Seq<int>, slow: nat, sig: nat) -> bool {
    s.len() >= slow && s.len() - slow + 1 >= sig
}

/// Signal-line reading after feeding the price sequence `s`.
pub open spec fn signal_of(s: Seq<int>, fast: nat, slow: nat, sig: nat) -> int {
    signal_fold(macd_series(s, fast, slow), sig)
}

/// The sum of a bounded non-negative stream is non-negative and bounded by
/// its length times the price range.
pub proof fn lemma_sum_bounds(s: Seq<int>)
    requires
        prices_bounded(s),
    ensures
        0 <= sum_of(s) <= s.len() * SCALE,
    decreases s.len(),
{
    if s.len() == 0 {
    } else {
        let t = s.drop_last();
        assert(prices_bounded(t)) by {
            assert(forall|i: int| 0 <= i < t.len() ==> t[i] == #[trigger] s[i]);
        }
        lemma_sum_bounds(t);
        assert(0 <= s[s.len() - 1] <= SCALE);
        assert((s.len() - 1) * SCALE + SCALE == s.len() * SCALE) by (nonlinear_arith);
    }
}

/// The sum of a stream of bounded magnitude has magnitude bounded by the
/// length times that bound.
pub proof fn lemma_sum_abs_bounds(s: Seq<int>)
    requires
        values_abs_bounded(s),
    ensures
        -(s.len() * SCALE) <= sum_of(s) <= s.len() * SCALE,
    decreases s.len(),
{
    if s.len() == 0 {
    } else {
        let t = s.drop_last();
        assert(values_abs_bounded(t)) by {
            assert(forall|i: int| 0 <= i < t.len() ==> t[i] == #[trigger] s[i]);
        }
        lemma_sum_abs_bounds(t);
        assert(-SCALE <= s[s.len() - 1] <= SCALE);
        assert((s.len() - 1) * SCALE + SCALE == s.len() * SCALE) by (nonlinear_arith);
    }
}

/// An exponential moving average of unit-interval prices stays in the unit
/// interval.
pub proof fn lemma_ema_bounds(s: Seq<int>, n: nat, seed: nat)
    requires
        prices_bounded(s),
        1 <= n <= 1000000,
        1 <= seed <= 1000000,
        s.len() >= seed,
    ensures
        0 <= ema_of(s, n, seed) <= SCALE,
    decreases s.len(),
{
    if s.len() <= seed {
        lemma_sum_bounds(s);
        vstd::arithmetic::div_mod::lemma_div_pos_is_pos(sum_of(s), seed as int);
        assert(s.len() * SCALE <= (SCALE as int) * (seed as int)) by (nonlinear_arith)
            requires
                s.len() <= seed,
        ;
        crate::num::lemma_div_at_most(sum_of(s), seed as int, SCALE as int);
    } else {
        let t = s.drop_last();
        assert(prices_bounded(t)) by {
            assert(forall|i: int| 0 <= i < t.len() ==> t[i] == #[trigger] s[i]);
        }
        lemma_ema_bounds(t, n, seed);
        let e = ema_of(t, n, seed);
        let x = s.last();
        assert(0 <= x <= SCALE);
        assert(0 <= 2 * x + (n - 1) * e) by (nonlinear_arith)
            requires
                0 <= x,
                0 <= e,
                1 <= n,
        ;
        assert(2 * x + (n - 1) * e <= (SCALE as int) * (n + 1)) by (nonlinear_arith)
            requires
                0 <= x <= SCALE,
                0 <= e <= SCALE,
                1 <= n,
        ;
        vstd::arithmetic::div_mod::lemma_div_pos_is_pos(2 * x + (n - 1) * e, n + 1 as int);
        crate::num::lemma_div_at_most(2 * x + (n - 1) * e, (n + 1) as int, SCALE as int);
    }
}

/// A MACD reading has magnitude at most the price range.
pub proof fn lemma_macd_bounds(s: Seq<int>, fast: nat, slow: nat)
    requires
        prices_bounded(s),
        1 <= fast <= 1000000,
        1 <= slow <= 1000000,
        macd_ready(s, slow),
    ensures
        -SCALE <= macd_of(s, fast, slow) <= SCALE,
{
    lemma_ema_bounds(s, fast, slow);
    lemma_ema_bounds(s, slow, slow);
}

/// Every reading of a MACD series over bounded prices is itself bounded.
pub proof fn lemma_macd_series_bounded(s: Seq<int>, fast: nat, slow: nat)
    requires
        prices_bounded(s),
        1 <= fast <= 1000000,
        1 <= slow <= 1000000,
    ensures
        values_abs_bounded(macd_series(s, fast, slow)),
{
    let ms = macd_series(s, fast, slow);
    assert forall|i: int| 0 <= i < ms.len() implies -SCALE <= #[trigger] ms[i] <= SCALE by {
        let t = s.take(slow + i);
        assert(prices_bounded(t)) by {
            assert(forall|j: int| 0 <= j < t.len() ==> t[j] == #[trigger] s[j]);
        }
        lemma_macd_bounds(t, fast, slow);
    }
}

/// A signal-line reading over a bounded MACD series is itself bounded.
pub proof fn lemma_signal_fold_bounds(ms: Seq<int>, sig: nat)
    requires
        values_abs_bounded(ms),
        1 <= sig <= 1000000,
        ms.len() >= sig,
    ensures
        -SCALE <= signal_fold(ms, sig) <= SCALE,
    decreases ms.len(),
{
    if ms.len() <= sig {
        lemma_sum_abs_bounds(ms);
        assert(ms.len() * SCALE <= (SCALE as int) * (sig as int)) by (nonlinear_arith)
            requires
                ms.len() <= sig,
        ;
        crate::num::lemma_div_trunc_abs_at_most(sum_of(ms), sig as int, SCALE as int);
    } else {
        let t = ms.drop_last();
        assert(values_abs_bounded(t)) by {
            assert(forall|i: int| 0 <= i < t.len() ==> t[i] == #[trigger] ms[i]);
        }
        lemma_signal_fold_bounds(t, sig);
        let e = signal_fold(t, sig);
        let x = ms.last();
        assert(-SCALE <= x <= SCALE);
        assert(-((SCALE as int) * ((sig + 1) as int)) <= 2 * x + (sig - 1) * e <= (SCALE as int) * (
        (sig + 1) as int)) by (nonlinear_arith)
            requires
                -SCALE <= x <= SCALE,
                -SCALE <= e <= SCALE,
                1 <= sig,
        ;
        crate::num::lemma_div_trunc_abs_at_most(2 * x + (sig - 1) * e, (sig + 1) as int, SCALE as int);
    }
}

/// Pushing one more price extends the MACD series by exactly the reading on
/// the extended sequence.
pub proof fn lemma_macd_series_push(s: Seq<int>, x: int, fast: nat, slow: nat)
    requires
        1 <= slow,
    ensures
        s.len() + 1 < slow ==> macd_series(s.push(x), fast, slow) == Seq::<int>::empty(),
        s.len() + 1 >= slow ==> macd_series(s.push(x), fast, slow) == macd_series(s, fast, slow)
            .push(macd_of(s.push(x), fast, slow)),
{
    let s1 = s.push(x);
    if s1.len() < slow {
    } else {
        let ms0 = macd_series(s, fast, slow);
        let ms1 = macd_series(s1, fast, slow);
        assert(s1.take(s1.len() as int) =~= s1);
        assert forall|i: int| 0 <= i < ms1.len() - 1 implies #[trigger] ms1[i] == ms0[i] by {
            assert(s1.take(slow + i) =~= s.take(slow + i));
        }
        assert(ms1 =~= ms0.push(macd_of(s1, fast, slow)));
    }
}

/// Sum of a vector of unit-interval prices.
fn sum_price_vec(w: &Vec<i64>) -> (r: i64)
    requires
        forall|j: int| 0 <= j < w@.len() ==> 0 <= #[trigger] w@[j] <= SCALE,
        w@.len() <= 1000001,
    ensures
        r == sum_of(w@.map_values(|e: i64| e as int)),
        0 <= r,
{
    let ghost wm = w@.map_values(|e: i64| e as int);
    let mut sum: i64 = 0;
    let mut i: usize = 0;
    while i < w.len()
        invariant
            0 <= i <= w.len(),
            wm == w@.map_values(|e: i64| e as int),
            wm.len() == w@.len(),
            forall|j: int| 0 <= j < w@.len() ==> 0 <= #[trigger] w@[j] <= SCALE,
            w@.len() <= 1000001,
            sum == sum_of(wm.take(i as int)),
            0 <= sum <= i * SCALE,
        decreases w.len() - i,
    {
        proof {
            assert(wm.take(i + 1).drop_last() =~= wm.take(i as int));
            assert(wm.take(i + 1).last() == wm[i as int]);
            assert(wm[i as int] == w@[i as int] as int);
            assert((i as int) * SCALE + SCALE == (i + 1) * SCALE) by (nonlinear_arith);
            assert((i + 1) * SCALE <= 1000001 * 1000000int) by (nonlinear_arith)
                requires
                    i + 1 <= 1000001,
            ;
        }
        sum = sum + w[i];
        i = i + 1;
    }
    proof {
        assert(wm.take(wm.len() as int) =~= wm);
    }
    sum
}

/// Sum of a vector of bounded signed readings.
fn sum_signed_vec(w: &Vec<i64>) -> (r: i64)
    requires
        forall|j: int| 0 <= j < w@.len() ==> -SCALE <= #[trigger] w@[j] <= SCALE,
        w@.len() <= 1000001,
    ensures
        r == sum_of(w@.map_values(|e: i64| e as int)),
{
    let ghost wm = w@.map_values(|e: i64| e as int);
    let mut sum: i64 = 0;
    let mut i: usize = 0;
    while i < w.len()
        invariant
            0 <= i <= w.len(),
            wm == w@.map_values(|e: i64| e as int),
            wm.len() == w@.len(),
            forall|j: int| 0 <= j < w@.len() ==> -SCALE <= #[trigger] w@[j] <= SCALE,
            w@.len() <= 1000001,
            sum == sum_of(wm.take(i as int)),
            -(i * SCALE) <= sum <= i * SCALE,
        decreases w.len() - i,
    {
        proof {
            assert(wm.take(i + 1).drop_last() =~= wm.take(i as int));
            assert(wm.take(i + 1).last() == wm[i as int]);
            assert(wm[i as int] == w@[i as int] as int);
            assert((i as int) * SCALE + SCALE == (i + 1) * SCALE) by (nonlinear_arith);
            assert((i + 1) * SCALE <= 1000001 * 1000000int) by (nonlinear_arith)
                requires
                    i + 1 <= 1000001,
            ;
        }
        sum = sum + w[i];
        i = i + 1;
    }
    proof {
        assert(wm.take(wm.len() as int) =~= wm);
    }
    sum
}

/// Rolling MACD calculator, optionally with a signal line.
pub struct RollingMACD {
    fast_period: usize,
    slow_period: usize,
    signal_period: Option<usize>,
    prices: Vec<i64>,
    ema_fast: i64,
    ema_slow: i64,
    macd_history: Vec<i64>,
    signal_line: i64,
    signal_initialized: bool,
    initialized: bool,
    hist: Ghost<Seq<int>>,
}

impl View for RollingMACD {
    type V = Seq<int>;

    /// The model of the calculator is the sequence of prices fed so far.
    closed spec fn view(&self) -> Seq<int> {
        self.hist@
    }
}

impl RollingMACD {
    /// The configured fast EMA length.
    pub closed spec fn spec_fast(&self) -> nat {
        self.fast_period as nat
    }

    /// The configured slow EMA length.
    pub closed spec fn spec_slow(&self) -> nat {
        self.slow_period as nat
    }

    /// The configured signal-line length, if the signal line is enabled.
    pub closed spec fn spec_signal(&self) -> Option<nat> {
        match self.signal_period {
            Some(n) => Some(n as nat),
            None => None,
        }
    }

    pub closed spec fn wf(&self) -> bool {
        let s = self.hist@;
        let fast = self.fast_period as nat;
        let slow = self.slow_period as nat;
        &&& 1 <= self.fast_period <= 1000000
        &&& 1 <= self.slow_period <= 1000000
        &&& prices_bounded(s)
        &&& self.prices@.map_values(|e: i64| e as int) == window_of(s, slow + 1)
        &&& (self.initialized <==> s.len() >= slow)
        &&& (self.initialized ==> {
            &&& self.ema_fast == ema_of(s, fast, slow)
            &&& self.ema_slow == ema_of(s, slow, slow)
        })
        &&& match self.signal_period {
            Some(sigp) => {
                let sig = sigp as nat;
                let ms = macd_series(s, fast, slow);
                &&& 1 <= sigp <= 1000000
                &&& self.macd_history@.map_values(|e: i64| e as int) == window_of(ms, sig + 1)
                &&& (self.signal_initialized <==> ms.len() >= sig)
                &&& (self.signal_initialized ==> self.signal_line == signal_fold(ms, sig))
            },
            None => {
                &&& self.macd_history@ == Seq::<i64>::empty()
                &&& !self.signal_initialized
            },
        }
    }

    pub fn new(fast_period: usize, slow_period: usize) -> (r: RollingMACD)
        requires
            1 <= fast_period <= 1000000,
            1 <= slow_period <= 1000000,
        ensures
            r.wf(),
            r@ == Seq::<int>::empty(),
            r.spec_fast() == fast_period as nat,
            r.spec_slow() == slow_period as nat,
            r.spec_signal() is None,
    {
        let r = RollingMACD {
            fast_period,
            slow_period,
            signal_period: None,
            prices: Vec::new(),
            ema_fast: 0,
            ema_slow: 0,
            macd_history: Vec::new(),
            signal_line: 0,
            signal_initialized: false,
            initialized: false,
            hist: Ghost(Seq::empty()),
        };
        proof {
            assert(r.prices@.map_values(|e: i64| e as int) =~= window_of(
                r.hist@,
                (slow_period + 1) as nat,
            ));
        }
        r
    }

    pub fn new_with_signal(fast_period: usize, slow_period: usize, signal_period: usize) -> (r:
        RollingMACD)
        requires
            1 <= fast_period <= 1000000,
            1 <= slow_period <= 1000000,
            1 <= signal_period <= 1000000,
        ensures
            r.wf(),
            r@ == Seq::<int>::empty(),
            r.spec_fast() == fast_period as nat,
            r.spec_slow() == slow_period as nat,
            r.spec_signal() == Some(signal_period as nat),
    {
        let r = RollingMACD {
            fast_period,
            slow_period,
            signal_period: Some(signal_period),
            prices: Vec::new(),
            ema_fast: 0,
            ema_slow: 0,
            macd_history: Vec::new(),
            signal_line: 0,
            signal_initialized: false,
            initialized: false,
            hist: Ghost(Seq::empty()),
        };
        proof {
            assert(r.prices@.map_values(|e: i64| e as int) =~= window_of(
                r.hist@,
                (slow_period + 1) as nat,
            ));
            assert(macd_series(r.hist@, fast_period as nat, slow_period as nat)
                =~= Seq::<int>::empty());
            assert(r.macd_history@.map_values(|e: i64| e as int) =~= window_of(
                Seq::<int>::empty(),
                (signal_period + 1) as nat,
            ));
        }
        r
    }

    /// Add a new price, updating the EMAs and, when enabled, the signal line.
    pub fn add_price(&mut self, price: i64)
        requires
            old(self).wf(),
            0 <= price <= SCALE,
        ensures
            final(self).wf(),
            final(self)@ == old(self)@.push(price as int),
            final(self).spec_fast() == old(self).spec_fast(),
            final(self).spec_slow() == old(self).spec_slow(),
            final(self).spec_signal() == old(self).spec_signal(),
    {
        let ghost s0 = self.hist@;
        let ghost s1 = self.hist@.push(price as int);
        let ghost fast = self.fast_period as nat;
        let ghost slow = self.slow_period as nat;
        proof {
            assert(s1.drop_last() =~= s0);
            assert forall|i: int| 0 <= i < s1.len() implies 0 <= #[trigger] s1[i] <= SCALE by {
                if i < s0.len() {
                    assert(0 <= s0[i] <= SCALE);
                }
            }
            lemma_window_push(s0, price as int, slow + 1);
            lemma_map_push(self.prices@, price);
            lemma_macd_series_push(s0, price as int, fast, slow);
        }
        self.prices.push(price);
        self.hist = Ghost(s1);
        proof {
            assert(self.prices@.map_values(|e: i64| e as int) == window_of(s0, slow + 1).push(
                price as int,
            ));
        }

        if !self.initialized {
            if self.prices.len() >= self.slow_period {
                proof {
                    assert(window_of(s1, slow + 1).len() == self.prices@.len());
                    assert(s0.len() < slow);
                    assert(s1.len() == slow);
                    assert(window_of(s1, slow + 1) =~= s1);
                }
                proof {
                    assert(self.prices@.map_values(|e: i64| e as int) == s1);
                    assert forall|j: int| 0 <= j < self.prices@.len() implies 0 <= #[trigger] self
                        .prices@[j] <= SCALE by {
                        assert(self.prices@[j] as int == s1[j]);
                    }
                }
                let sum = sum_price_vec(&self.prices);
                let sma = udiv_i64(sum, self.slow_period as i64);
                proof {
                    lemma_sum_bounds(s1);
                    assert(sma == ema_of(s1, fast, slow));
                    assert(sma == ema_of(s1, slow, slow));
                }
                self.ema_fast = sma;
                self.ema_slow = sma;
                self.initialized = true;
            }
        } else {
            proof {
                lemma_ema_bounds(s0, fast, slow);
                lemma_ema_bounds(s0, slow, slow);
                assert(0 <= 2 * price + (self.fast_period - 1) * self.ema_fast <= 2000000000000int)
                    by (nonlinear_arith)
                    requires
                        0 <= price <= 1000000,
                        0 <= self.ema_fast <= 1000000,
                        1 <= self.fast_period <= 1000000,
                ;
                assert(0 <= 2 * price + (self.slow_period - 1) * self.ema_slow <= 2000000000000int)
                    by (nonlinear_arith)
                    requires
                        0 <= price <= 1000000,
                        0 <= self.ema_slow <= 1000000,
                        1 <= self.slow_period <= 1000000,
                ;
                assert(s1.len() > slow);
            }
            let pe = self.fast_period as i64;
            self.ema_fast = udiv_i64(2 * price + (pe - 1) * self.ema_fast, pe + 1);
            let ps = self.slow_period as i64;
            self.ema_slow = udiv_i64(2 * price + (ps - 1) * self.ema_slow, ps + 1);
        }

        if self.initialized {
            proof {
                lemma_ema_bounds(s1, fast, slow);
                lemma_ema_bounds(s1, slow, slow);
            }
            let macd_value = self.ema_fast - self.ema_slow;
            let has_signal = self.signal_period.is_some();
            if has_signal {
                let sigp: usize = match self.signal_period {
                    Some(v) => v,
                    None => 1,
                };
                let ghost sig = sigp as nat;
                let ghost ms0 = macd_series(s0, fast, slow);
                let ghost ms1 = macd_series(s1, fast, slow);
                proof {
                    assert(ms1 == ms0.push(macd_value as int));
                    lemma_window_push(ms0, macd_value as int, sig + 1);
                    lemma_map_push(self.macd_history@, macd_value);
                }
                self.macd_history.push(macd_value);
                if self.macd_history.len() > sigp + 1 {
                    proof {
                        assert(ms0.len() >= sig + 1);
                        lemma_map_remove0(self.macd_history@);
                    }
                    let _ = self.macd_history.remove(0);
                } else {
                    proof {
                        assert(ms0.len() < sig + 1);
                    }
                }
                if !self.signal_initialized {
                    if self.macd_history.len() >= sigp {
                        proof {
                            assert(window_of(ms1, sig + 1).len() == self.macd_history@.len());
                            assert(ms0.len() < sig);
                            assert(ms1.len() == sig);
                            assert(window_of(ms1, sig + 1) =~= ms1);
                        }
                        proof {
                            lemma_macd_series_bounded(s1, fast, slow);
                            assert(self.macd_history@.map_values(|e: i64| e as int) == ms1);
                            assert forall|j: int| 0 <= j < self.macd_history@.len() implies -SCALE
                                <= #[trigger] self.macd_history@[j] <= SCALE by {
                                assert(self.macd_history@[j] as int == ms1[j]);
                            }
                        }
                        let sum = sum_signed_vec(&self.macd_history);
                        proof {
                            lemma_sum_abs_bounds(ms1);
                        }
                        let seed = crate::num::div_trunc_i64(sum, sigp as i64);
                        proof {
                            assert(sum == sum_of(ms1));
                            assert(signal_fold(ms1, sig) == crate::num::div_trunc(
                                sum_of(ms1),
                                sig as int,
                            ));
                        }
                        self.signal_line = seed;
                        self.signal_initialized = true;
                    }
                } else {
                    proof {
                        assert(ms0.len() >= sig);
                        assert(ms1.len() > sig);
                        lemma_macd_series_bounded(s0, fast, slow);
                        lemma_signal_fold_bounds(ms0, sig);
                        assert(-2000000000000int <= 2 * macd_value + (sigp - 1) * self.signal_line
                            <= 2000000000000int) by (nonlinear_arith)
                            requires
                                -2000000 <= macd_value <= 2000000,
                                -1000000 <= self.signal_line <= 1000000,
                                1 <= sigp <= 1000000,
                        ;
                    }
                    let sl = crate::num::div_trunc_i64(
                        2 * macd_value + (sigp as i64 - 1) * self.signal_line,
                        sigp as i64 + 1,
                    );
                    proof {
                        assert(ms1.drop_last() =~= ms0);
                        assert(ms1.last() == macd_value as int);
                        assert(signal_fold(ms1, sig) == ema_step_trunc(
                            signal_fold(ms0, sig),
                            macd_value as int,
                            sig,
                        ));
                        assert(sl == ema_step_trunc(signal_fold(ms0, sig), macd_value as int, sig));
                    }
                    self.signal_line = sl;
                }
            }
        } else {
            proof {
                assert(s1.len() < slow);
                assert(macd_series(s1, fast, slow) =~= Seq::<int>::empty());
                match self.signal_period {
                    Some(sigp) => {
                        assert(self.macd_history@.map_values(|e: i64| e as int) =~= window_of(
                            Seq::<int>::empty(),
                            (sigp + 1) as nat,
                        ));
                    },
                    None => {},
                }
            }
        }

        if self.prices.len() > self.slow_period + 1 {
            proof {
                assert(s0.len() >= slow + 1);
                lemma_map_remove0(self.prices@);
            }
            let _ = self.prices.remove(0);
        } else {
            proof {
                assert(s0.len() < slow + 1);
            }
        }
    }

    /// Current MACD reading (fast EMA minus slow EMA).
    pub fn get_macd(&self) -> (r: Option<i64>)
        requires
            self.wf(),
        ensures
            r is Some <==> macd_ready(self@, self.spec_slow()),
            r matches Some(v) ==> v as int == macd_of(self@, self.spec_fast(), self.spec_slow()),
    {
        if !self.initialized {
            return None;
        }
        proof {
            lemma_ema_bounds(self.hist@, self.fast_period as nat, self.slow_period as nat);
            lemma_ema_bounds(self.hist@, self.slow_period as nat, self.slow_period as nat);
        }
        Some(self.ema_fast - self.ema_slow)
    }

    /// Current signal-line reading, if the signal line is enabled and warmed
    /// up.
    pub fn get_signal_line(&self) -> (r: Option<i64>)
        requires
            self.wf(),
        ensures
            r is Some <==> (self.spec_signal() matches Some(sig) && signal_ready(
                self@,
                self.spec_slow(),
                sig,
            )),
            r matches Some(v) ==> v as int == signal_of(
                self@,
                self.spec_fast(),
                self.spec_slow(),
                self.spec_signal()->0,
            ),
    {
        if self.signal_period.is_some() && self.signal_initialized {
            Some(self.signal_line)
        } else {
            None
        }
    }

    /// Histogram: MACD minus signal line, when both are available.
    pub fn get_histogram(&self) -> (r: Option<i64>)
        requires
            self.wf(),
        ensures
            r is Some <==> (self.spec_signal() matches Some(sig) && signal_ready(
                self@,
                self.spec_slow(),
                sig,
            )),
            r matches Some(v) ==> v as int == macd_of(self@, self.spec_fast(), self.spec_slow())
                - signal_of(self@, self.spec_fast(), self.spec_slow(), self.spec_signal()->0),
    {
        let m = self.get_macd();
        let s = self.get_signal_line();
        match (m, s) {
            (Some(mv), Some(sv)) => {
                proof {
                    lemma_ema_bounds(self.hist@, self.fast_period as nat, self.slow_period as nat);
                    lemma_ema_bounds(self.hist@, self.slow_period as nat, self.slow_period as nat);
                    let ms = macd_series(
                        self.hist@,
                        self.fast_period as nat,
                        self.slow_period as nat,
                    );
                    lemma_macd_series_bounded(
                        self.hist@,
                        self.fast_period as nat,
                        self.slow_period as nat,
                    );
                    lemma_signal_fold_bounds(ms, self.spec_signal()->0);
                }
                Some(mv - sv)
            },
            _ => None,
        }
    }

    /// Whether the slow warm-up window has filled.
    pub fn is_ready(&self) -> (r: bool)
        requires
            self.wf(),
        ensures
            r == macd_ready(self@, self.spec_slow()),
    {
        self.initialized
    }

    /// Whether the signal line is enabled and warmed up.
    pub fn is_signal_ready(&self) -> (r: bool)
        requires
            self.wf(),
        ensures
            r == (self.spec_signal() matches Some(sig) && signal_ready(
                self@,
                self.spec_slow(),
                sig,
            )),
    {
        self.signal_period.is_some() && self.signal_initialized
    }
}

/// The momentum calculator needs `period + 1` prices: the oldest and newest
/// of its window.
pub open spec fn momentum_ready(s: Seq<int>, period: nat) -> bool {
    s.len() >= period + 1
}

/// Percentage change between the price `period` samples ago and the newest
/// price, in fixed-point percent (2.0% is `2 * SCALE`).
pub open spec fn momentum_of(s: Seq<int>, period: nat) -> int {
    crate::num::div_trunc(
        (s[s.len() - 1] - s[s.len() - 1 - period]) * 100 * SCALE,
        s[s.len() - 1 - period],
    )
}

/// Rolling momentum calculator over a bounded trailing window.
pub struct RollingMomentum {
    period: usize,
    prices: Vec<i64>,
    hist: Ghost<Seq<int>>,
}

impl View for RollingMomentum {
    type V = Seq<int>;

    /// The model of the calculator is the sequence of prices fed so far.
    closed spec fn view(&self) -> Seq<int> {
        self.hist@
    }
}

impl RollingMomentum {
    /// The configured window length.
    pub closed spec fn spec_period(&self) -> nat {
        self.period as nat
    }

    pub closed spec fn wf(&self) -> bool {
        let s = self.hist@;
        let p = self.period as nat;
        &&& 1 <= self.period <= 1000000
        &&& prices_bounded(s)
        &&& self.prices@.map_values(|e: i64| e as int) == window_of(s, p + 1)
    }

    pub fn new(period: usize) -> (r: RollingMomentum)
        requires
            1 <= period <= 1000000,
        ensures
            r.wf(),
            r@ == Seq::<int>::empty(),
            r.spec_period() == period as nat,
    {
        let r = RollingMomentum { period, prices: Vec::new(), hist: Ghost(Seq::empty()) };
        proof {
            assert(r.prices@.map_values(|e: i64| e as int) =~= window_of(
                r.hist@,
                (period + 1) as nat,
            ));
        }
        r
    }

    /// Add a new price to the window.
    pub fn add_price(&mut self, price: i64)
        requires
            old(self).wf(),
            0 <= price <= SCALE,
        ensures
            final(self).wf(),
            final(self)@ == old(self)@.push(price as int),
            final(self).spec_period() == old(self).spec_period(),
    {
        let ghost s0 = self.hist@;
        let ghost s1 = self.hist@.push(price as int);
        let ghost p = self.period as nat;
        proof {
            assert forall|i: int| 0 <= i < s1.len() implies 0 <= #[trigger] s1[i] <= SCALE by {
                if i < s0.len() {
                    assert(0 <= s0[i] <= SCALE);
                }
            }
            lemma_window_push(s0, price as int, p + 1);
            lemma_map_push(self.prices@, price);
        }
        self.prices.push(price);
        self.hist = Ghost(s1);
        if self.prices.len() > self.period + 1 {
            proof {
                assert(s0.len() >= p + 1);
                lemma_map_remove0(self.prices@);
            }
            let _ = self.prices.remove(0);
        } else {
            proof {
                assert(s0.len() < p + 1);
            }
        }
    }

    /// Current momentum reading; undefined until the window is full or when
    /// the oldest price in the window is zero.
    pub fn get_momentum(&self) -> (r: Option<i64>)
        requires
            self.wf(),
        ensures
            r is Some <==> (momentum_ready(self@, self.spec_period()) && self@[self@.len() - 1
                - self.spec_period()] != 0),
            r matches Some(v) ==> v as int == momentum_of(self@, self.spec_period()),
    {
        proof {
            let w = self.prices@.map_values(|e: i64| e as int);
            assert(w.len() == self.prices@.len());
            assert(w == window_of(self.hist@, (self.period + 1) as nat));
        }
        if self.prices.len() < self.period + 1 {
            return None;
        }
        let ghost s = self.hist@;
        let ghost p = self.period as nat;
        let ghost w = self.prices@.map_values(|e: i64| e as int);
        let cur = self.prices[self.prices.len() - 1];
        let past = self.prices[0];
        proof {
            assert(w.len() == p + 1);
            assert(s.len() >= p + 1);
            assert(w[0] == s[s.len() - (p + 1)]);
            assert(w[w.len() - 1] == s[s.len() - 1]);
            assert(past as int == s[s.len() - 1 - p]);
            assert(cur as int == s[s.len() - 1]);
            assert(0 <= past <= SCALE && 0 <= cur <= SCALE);
        }
        if past == 0 {
            return None;
        }
        proof {
            assert(-1000000 <= cur - past <= 1000000);
        }
        let delta: i64 = (cur - past) * 100 * SCALE;
        let r = crate::num::div_trunc_i64(delta, past);
        Some(r)
    }

    /// Whether the window has filled.
    pub fn is_ready(&self) -> (r: bool)
        requires
            self.wf(),
        ensures
            r == momentum_ready(self@, self.spec_period()),
    {
        proof {
            let w = self.prices@.map_values(|e: i64| e as int);
            assert(w.len() == self.prices@.len());
            assert(w == window_of(self.hist@, (self.period + 1) as nat));
        }
        self.prices.len() >= self.period + 1
    }
}

/// RSI over a whole price slice at once, seeding from the first `period`
/// changes and Wilder-smoothing the rest: the batch counterpart of
/// `RollingRSI`, used to compute the same reading for the instrument side
/// that is not tracked incrementally.
pub fn calculate_rsi(prices: &Vec<i64>, period: usize) -> (r: Option<i64>)
    requires
        1 <= period <= 1000000,
        forall|j: int| 0 <= j < prices@.len() ==> 0 <= #[trigger] prices@[j] <= SCALE,
    ensures
        r is Some <==> prices@.len() >= period + 1,
        r matches Some(v) ==> v as int == rsi_of(
            prices@.map_values(|e: i64| e as int),
            period as nat,
        ),
{
    let ghost m = prices@.map_values(|e: i64| e as int);
    if prices.len() < period + 1 {
        return None;
    }
    let mut calc = RollingRSI::new(period);
    let mut i: usize = 0;
    while i < prices.len()
        invariant
            0 <= i <= prices.len(),
            calc.wf(),
            calc.spec_period() == period as nat,
            calc@ == m.take(i as int),
            m == prices@.map_values(|e: i64| e as int),
            m.len() == prices@.len(),
            forall|j: int| 0 <= j < prices@.len() ==> 0 <= #[trigger] prices@[j] <= SCALE,
        decreases prices.len() - i,
    {
        proof {
            assert(m.take(i + 1) =~= m.take(i as int).push(m[i as int]));
            assert(m[i as int] == prices@[i as int] as int);
        }
        calc.add_price(prices[i]);
        i = i + 1;
    }
    proof {
        assert(m.take(m.len() as int) =~= m);
    }
    calc.get_rsi()
}

/// MACD over a whole price slice at once: the batch counterpart of
/// `RollingMACD`.
pub fn macd_from_prices(prices: &Vec<i64>, fast: usize, slow: usize) -> (r: Option<i64>)
    requires
        1 <= fast <= 1000000,
        1 <= slow <= 1000000,
        forall|j: int| 0 <= j < prices@.len() ==> 0 <= #[trigger] prices@[j] <= SCALE,
    ensures
        r is Some <==> prices@.len() >= slow,
        r matches Some(v) ==> v as int == macd_of(
            prices@.map_values(|e: i64| e as int),
            fast as nat,
            slow as nat,
        ),
{
    let ghost m = prices@.map_values(|e: i64| e as int);
    let mut calc = RollingMACD::new(fast, slow);
    let mut i: usize = 0;
    while i < prices.len()
        invariant
            0 <= i <= prices.len(),
            calc.wf(),
            calc.spec_fast() == fast as nat,
            calc.spec_slow() == slow as nat,
            calc@ == m.take(i as int),
            m == prices@.map_values(|e: i64| e as int),
            m.len() == prices@.len(),
            forall|j: int| 0 <= j < prices@.len() ==> 0 <= #[trigger] prices@[j] <= SCALE,
        decreases prices.len() - i,
    {
        proof {
            assert(m.take(i + 1) =~= m.take(i as int).push(m[i as int]));
            assert(m[i as int] == prices@[i as int] as int);
        }
        calc.add_price(prices[i]);
        i = i + 1;
    }
    proof {
        assert(m.take(m.len() as int) =~= m);
    }
    calc.get_macd()
}

/// Momentum over a whole price slice at once: the batch counterpart of
/// `RollingMomentum`.
pub fn momentum_from_prices(prices: &Vec<i64>, period: usize) -> (r: Option<i64>)
    requires
        1 <= period <= 1000000,
        forall|j: int| 0 <= j < prices@.len() ==> 0 <= #[trigger] prices@[j] <= SCALE,
    ensures
        r is Some <==> (momentum_ready(prices@.map_values(|e: i64| e as int), period as nat)
            && prices@.map_values(|e: i64| e as int)[prices@.len() - 1 - period] != 0),
        r matches Some(v) ==> v as int == momentum_of(
            prices@.map_values(|e: i64| e as int),
            period as nat,
        ),
{
    let ghost m = prices@.map_values(|e: i64| e as int);
    let mut calc = RollingMomentum::new(period);
    let mut i: usize = 0;
    while i < prices.len()
        invariant
            0 <= i <= prices.len(),
            calc.wf(),
            calc.spec_period() == period as nat,
            calc@ == m.take(i as int),
            m == prices@.map_values(|e: i64| e as int),
            m.len() == prices@.len(),
            forall|j: int| 0 <= j < prices@.len() ==> 0 <= #[trigger] prices@[j] <= SCALE,
        decreases prices.len() - i,
    {
        proof {
            assert(m.take(i + 1) =~= m.take(i as int).push(m[i as int]));
            assert(m[i as int] == prices@[i as int] as int);
        }
        calc.add_price(prices[i]);
        i = i + 1;
    }
    proof {
        assert(m.take(m.len() as int) =~= m);
    }
    calc.get_momentum()
}

/// MACD and signal line over a whole price slice at once: the batch
/// counterpart of a `RollingMACD` built with a signal line.
pub fn macd_signal_from_prices(prices: &Vec<i64>, fast: usize, slow: usize, sig: usize) -> (r: (
    Option<i64>,
    Option<i64>,
))
    requires
        1 <= fast <= 1000000,
        1 <= slow <= 1000000,
        1 <= sig <= 1000000,
        forall|j: int| 0 <= j < prices@.len() ==> 0 <= #[trigger] prices@[j] <= SCALE,
    ensures
        r.0 is Some <==> prices@.len() >= slow,
        r.0 matches Some(v) ==> v as int == macd_of(
            prices@.map_values(|e: i64| e as int),
            fast as nat,
            slow as nat,
        ),
        r.1 is Some <==> signal_ready(
            prices@.map_values(|e: i64| e as int),
            slow as nat,
            sig as nat,
        ),
        r.1 matches Some(v) ==> v as int == signal_of(
            prices@.map_values(|e: i64| e as int),
            fast as nat,
            slow as nat,
            sig as nat,
        ),
{
    let ghost m = prices@.map_values(|e: i64| e as int);
    let mut calc = RollingMACD::new_with_signal(fast, slow, sig);
    let mut i: usize = 0;
    while i < prices.len()
        invariant
            0 <= i <= prices.len(),
            calc.wf(),
            calc.spec_fast() == fast as nat,
            calc.spec_slow() == slow as nat,
            calc.spec_signal() == Some(sig as nat),
            calc@ == m.take(i as int),
            m == prices@.map_values(|e: i64| e as int),
            m.len() == prices@.len(),
            forall|j: int| 0 <= j < prices@.len() ==> 0 <= #[trigger] prices@[j] <= SCALE,
        decreases prices.len() - i,
    {
        proof {
            assert(m.take(i + 1) =~= m.take(i as int).push(m[i as int]));
            assert(m[i as int] == prices@[i as int] as int);
        }
        calc.add_price(prices[i]);
        i = i + 1;
    }
    proof {
        assert(m.take(m.len() as int) =~= m);
    }
    let mv = calc.get_macd();
    let sv = calc.get_signal_line();
    (mv, sv)
}

/// Law: every reading in the MACD series of a stream equals the batch
/// recomputation over exactly the prices the calculator had seen when it
/// produced that reading: incremental and batch computation agree at every
/// tick, for any stream of length at least `slow`.
pub proof fn lemma_macd_series_pointwise(s: Seq<int>, fast: nat, slow: nat, i: int)
    requires
        1 <= slow,
        s.len() >= slow,
        0 <= i < s.len() - slow + 1,
    ensures
        macd_series(s, fast, slow)[i] == macd_of(s.take(slow + i), fast, slow),
{
}

/// Law: updating a warmed-up MACD with one more price yields exactly the
/// reading that a batch recomputation over the extended sequence yields, for
/// any sequence of length at least `slow`.  Together with the contracts of
/// `RollingMACD::add_price` and `macd_from_prices`, feeding a stream one
/// price at a time and feeding it all at once always agree.
pub proof fn lemma_macd_incremental_step(s: Seq<int>, x: int, fast: nat, slow: nat)
    requires
        1 <= slow,
        s.len() >= slow,
    ensures
        macd_of(s.push(x), fast, slow) == ema_step(ema_of(s, fast, slow), x, fast) - ema_step(
            ema_of(s, slow, slow),
            x,
            slow,
        ),
{
    assert(s.push(x).drop_last() =~= s);
}

/// Whether the sequence never falls from one sample to the next.
pub open spec fn nondecreasing(s: Seq<int>) -> bool {
    forall|i: int| 0 <= i < s.len() - 1 ==> #[trigger] s[i] <= s[i + 1]
}

/// Whether the sequence never rises from one sample to the next.
pub open spec fn nonincreasing(s: Seq<int>) -> bool {
    forall|i: int| 0 <= i < s.len() - 1 ==> #[trigger] s[i] >= s[i + 1]
}

/// Whether the sequence strictly rises somewhere.
pub open spec fn has_rise(s: Seq<int>) -> bool {
    exists|i: int| 0 <= i < s.len() - 1 && #[trigger] s[i] < s[i + 1]
}

/// Whether the sequence strictly falls somewhere.
pub open spec fn has_fall(s: Seq<int>) -> bool {
    exists|i: int| 0 <= i < s.len() - 1 && #[trigger] s[i] > s[i + 1]
}

/// An RSI reading always lies between 0 and 100.
pub proof fn lemma_rsi_range(s: Seq<int>, p: nat)
    requires
        prices_bounded(s),
        1 <= p <= 1000000,
        rsi_ready(s, p),
    ensures
        0 <= rsi_of(s, p) <= 100 * SCALE,
{
    lemma_avgs_bounds(s, p);
    let g = avg_gain_of(s, p);
    let l = avg_loss_of(s, p);
    if g == 0 && l == 0 {
    } else if l == 0 {
    } else if g == 0 {
    } else {
        vstd::arithmetic::div_mod::lemma_div_pos_is_pos(100 * SCALE * g, g + l);
        assert(100 * (SCALE as int) * g <= (100 * (SCALE as int)) * (g + l)) by (nonlinear_arith)
            requires
                g >= 0,
                l >= 0,
        ;
        crate::num::lemma_div_at_most(100 * SCALE * g, g + l, 100 * SCALE);
    }
}

/// A perfectly flat price sequence has no gains and no losses.
pub proof fn lemma_totals_flat(s: Seq<int>)
    requires
        forall|i: int| 0 <= i < s.len() ==> #[trigger] s[i] == s[0],
    ensures
        total_gains(s) == 0,
        total_losses(s) == 0,
    decreases s.len(),
{
    if s.len() < 2 {
    } else {
        let t = s.drop_last();
        assert(forall|i: int| 0 <= i < t.len() ==> #[trigger] t[i] == t[0]);
        lemma_totals_flat(t);
        assert(s[s.len() - 2] == s[0] && s[s.len() - 1] == s[0]);
    }
}

/// The Wilder averages of a perfectly flat sequence are both zero.
pub proof fn lemma_avgs_flat(s: Seq<int>, p: nat)
    requires
        1 <= p,
        forall|i: int| 0 <= i < s.len() ==> #[trigger] s[i] == s[0],
    ensures
        avg_gain_of(s, p) == 0,
        avg_loss_of(s, p) == 0,
    decreases s.len(),
{
    if s.len() <= p + 1 {
        lemma_totals_flat(s);
        crate::num::lemma_div_up_zero(p as int);
    } else {
        let t = s.drop_last();
        assert(forall|i: int| 0 <= i < t.len() ==> #[trigger] t[i] == t[0]);
        lemma_avgs_flat(t, p);
        assert(s[s.len() - 2] == s[0] && s[s.len() - 1] == s[0]);
        assert(gain_of(s[s.len() - 2], s[s.len() - 1]) == 0);
        assert(loss_of(s[s.len() - 2], s[s.len() - 1]) == 0);
        crate::num::lemma_div_up_zero(p as int);
    }
}

/// On a perfectly flat price sequence the RSI reads exactly the neutral 50.
pub proof fn lemma_rsi_flat(s: Seq<int>, p: nat)
    requires
        1 <= p,
        rsi_ready(s, p),
        forall|i: int| 0 <= i < s.len() ==> #[trigger] s[i] == s[0],
    ensures
        rsi_of(s, p) == 50 * SCALE,
{
    lemma_avgs_flat(s, p);
}

/// A non-decreasing sequence accumulates no losses, and accumulates at least
/// one micro-unit of gain as soon as it strictly rises somewhere.
#[verifier::rlimit(50)]
pub proof fn lemma_totals_monotone_up(s: Seq<int>)
    requires
        nondecreasing(s),
    ensures
        total_losses(s) == 0,
        total_gains(s) >= 0,
        has_rise(s) ==> total_gains(s) >= 1,
    decreases s.len(),
{
    if s.len() < 2 {
    } else {
        let t = s.drop_last();
        assert(nondecreasing(t)) by {
            assert(forall|i: int| 0 <= i < t.len() ==> t[i] == #[trigger] s[i]);
        }
        lemma_totals_monotone_up(t);
        assert(s[s.len() - 2] <= s[s.len() - 1]);
        if has_rise(s) {
            let i = choose|i: int| 0 <= i < s.len() - 1 && #[trigger] s[i] < s[i + 1];
            if i < s.len() - 2 {
                assert(t[i] < t[i + 1]);
                assert(has_rise(t));
            } else {
                assert(gain_of(s[s.len() - 2], s[s.len() - 1]) >= 1);
            }
        }
    }
}

/// Over a non-decreasing stream the Wilder average loss is exactly zero, and
/// the average gain is strictly positive once any strict rise occurred
/// (for smoothing periods of at least two samples).
pub proof fn lemma_avgs_monotone_up(s: Seq<int>, p: nat)
    requires
        2 <= p,
        nondecreasing(s),
    ensures
        avg_loss_of(s, p) == 0,
        avg_gain_of(s, p) >= 0,
        has_rise(s) ==> avg_gain_of(s, p) >= 1,
    decreases s.len(),
{
    if s.len() <= p + 1 {
        lemma_totals_monotone_up(s);
        crate::num::lemma_div_up_zero(p as int);
        crate::num::lemma_div_up_nonneg(total_gains(s), p as int);
        if has_rise(s) {
            crate::num::lemma_div_up_pos(total_gains(s), p as int);
        }
    } else {
        let t = s.drop_last();
        assert(nondecreasing(t)) by {
            assert(forall|i: int| 0 <= i < t.len() ==> t[i] == #[trigger] s[i]);
        }
        lemma_avgs_monotone_up(t, p);
        assert(s[s.len() - 2] <= s[s.len() - 1]);
        let g = gain_of(s[s.len() - 2], s[s.len() - 1]);
        assert(loss_of(s[s.len() - 2], s[s.len() - 1]) == 0);
        crate::num::lemma_div_up_zero(p as int);
        assert(avg_loss_of(s, p) == div_up(avg_loss_of(t, p) * (p - 1) + 0, p as int));
        assert(avg_loss_of(t, p) * (p - 1) == 0) by (nonlinear_arith)
            requires
                avg_loss_of(t, p) == 0,
        ;
        assert(avg_gain_of(t, p) * (p - 1) + g >= 0) by (nonlinear_arith)
            requires
                avg_gain_of(t, p) >= 0,
                g >= 0,
                2 <= p,
        ;
        crate::num::lemma_div_up_nonneg(avg_gain_of(t, p) * (p - 1) + g, p as int);
        if has_rise(s) {
            let i = choose|i: int| 0 <= i < s.len() - 1 && #[trigger] s[i] < s[i + 1];
            if i < s.len() - 2 {
                assert(t[i] < t[i + 1]);
                assert(has_rise(t));
                assert(avg_gain_of(t, p) * (p - 1) + g >= 1) by (nonlinear_arith)
                    requires
                        avg_gain_of(t, p) >= 1,
                        g >= 0,
                        2 <= p,
                ;
            } else {
                assert(g >= 1);
                assert(avg_gain_of(t, p) * (p - 1) + g >= 1) by (nonlinear_arith)
                    requires
                        avg_gain_of(t, p) >= 0,
                        g >= 1,
                        2 <= p,
                ;
            }
            crate::num::lemma_div_up_pos(avg_gain_of(t, p) * (p - 1) + g, p as int);
        }
    }
}

/// A non-increasing sequence accumulates no gains, and accumulates at least
/// one micro-unit of loss as soon as it strictly falls somewhere.
#[verifier::rlimit(50)]
pub proof fn lemma_totals_monotone_down(s: Seq<int>)
    requires
        nonincreasing(s),
    ensures
        total_gains(s) == 0,
        total_losses(s) >= 0,
        has_fall(s) ==> total_losses(s) >= 1,
    decreases s.len(),
{
    if s.len() < 2 {
    } else {
        let t = s.drop_last();
        assert(nonincreasing(t)) by {
            assert(forall|i: int| 0 <= i < t.len() ==> t[i] == #[trigger] s[i]);
        }
        lemma_totals_monotone_down(t);
        assert(s[s.len() - 2] >= s[s.len() - 1]);
        if has_fall(s) {
            let i = choose|i: int| 0 <= i < s.len() - 1 && #[trigger] s[i] > s[i + 1];
            if i < s.len() - 2 {
                assert(t[i] > t[i + 1]);
                assert(has_fall(t));
            } else {
                assert(loss_of(s[s.len() - 2], s[s.len() - 1]) >= 1);
            }
        }
    }
}

/// Over a non-increasing stream the Wilder average gain is exactly zero, and
/// the average loss is strictly positive once any strict fall occurred
/// (for smoothing periods of at least two samples).
pub proof fn lemma_avgs_monotone_down(s: Seq<int>, p: nat)
    requires
        2 <= p,
        nonincreasing(s),
    ensures
        avg_gain_of(s, p) == 0,
        avg_loss_of(s, p) >= 0,
        has_fall(s) ==> avg_loss_of(s, p) >= 1,
    decreases s.len(),
{
    if s.len() <= p + 1 {
        lemma_totals_monotone_down(s);
        crate::num::lemma_div_up_zero(p as int);
        crate::num::lemma_div_up_nonneg(total_losses(s), p as int);
        if has_fall(s) {
            crate::num::lemma_div_up_pos(total_losses(s), p as int);
        }
    } else {
        let t = s.drop_last();
        assert(nonincreasing(t)) by {
            assert(forall|i: int| 0 <= i < t.len() ==> t[i] == #[trigger] s[i]);
        }
        lemma_avgs_monotone_down(t, p);
        assert(s[s.len() - 2] >= s[s.len() - 1]);
        let l = loss_of(s[s.len() - 2], s[s.len() - 1]);
        assert(gain_of(s[s.len() - 2], s[s.len() - 1]) == 0);
        crate::num::lemma_div_up_zero(p as int);
        assert(avg_gain_of(t, p) * (p - 1) == 0) by (nonlinear_arith)
            requires
                avg_gain_of(t, p) == 0,
        ;
        assert(avg_loss_of(t, p) * (p - 1) + l >= 0) by (nonlinear_arith)
            requires
                avg_loss_of(t, p) >= 0,
                l >= 0,
                2 <= p,
        ;
        crate::num::lemma_div_up_nonneg(avg_loss_of(t, p) * (p - 1) + l, p as int);
        if has_fall(s) {
            let i = choose|i: int| 0 <= i < s.len() - 1 && #[trigger] s[i] > s[i + 1];
            if i < s.len() - 2 {
                assert(t[i] > t[i + 1]);
                assert(has_fall(t));
                assert(avg_loss_of(t, p) * (p - 1) + l >= 1) by (nonlinear_arith)
                    requires
                        avg_loss_of(t, p) >= 1,
                        l >= 0,
                        2 <= p,
                ;
            } else {
                assert(l >= 1);
                assert(avg_loss_of(t, p) * (p - 1) + l >= 1) by (nonlinear_arith)
                    requires
                        avg_loss_of(t, p) >= 0,
                        l >= 1,
                        2 <= p,
                ;
            }
            crate::num::lemma_div_up_pos(avg_loss_of(t, p) * (p - 1) + l, p as int);
        }
    }
}

/// On a monotonically non-decreasing sequence that rises at least once, a
/// warmed-up RSI reads exactly 100 (a sequence without any strict rise is
/// flat and reads 50 instead).
pub proof fn lemma_rsi_monotone_up(s: Seq<int>, p: nat)
    requires
        2 <= p,
        rsi_ready(s, p),
        nondecreasing(s),
        has_rise(s),
    ensures
        rsi_of(s, p) == 100 * SCALE,
{
    lemma_avgs_monotone_up(s, p);
}

/// On a monotonically non-increasing sequence that falls at least once, a
/// warmed-up RSI reads exactly 0.
pub proof fn lemma_rsi_monotone_down(s: Seq<int>, p: nat)
    requires
        2 <= p,
        rsi_ready(s, p),
        nonincreasing(s),
        has_fall(s),
    ensures
        rsi_of(s, p) == 0,
{
    lemma_avgs_monotone_down(s, p);
}

} // verus!
