//! OHLCV (Open, High, Low, Close, Volume) data types.
//!
//! Prices and volumes in [`Bar`] are IEEE-754 doubles carried as `u64` bit
//! patterns; derived floating-point quantities (typical price, range, true
//! range) are computed outside the verified core. [`PreciseBar`] holds the
//! same sample in exact fixed-point for order calculations.

use vstd::prelude::*;

use crate::fixed::{d_clip, f64_bits_finite, f64_bits_scaled, Dec};
use crate::timeframe::Timeframe;

verus! {

/// Compact OHLCV bar; prices are f64 bit patterns.
#[derive(Debug, Clone, Copy, PartialEq, Eq, Structural, Hash)]
pub struct Bar {
    /// Unix timestamp in milliseconds
    pub timestamp: i64,
    /// Opening price
    pub open: u64,
    /// Highest price
    pub high: u64,
    /// Lowest price
    pub low: u64,
    /// Closing price
    pub close: u64,
    /// Trading volume
    pub volume: u64,
    /// Volume-weighted average price (optional)
    pub vwap: Option<u64>,
}

impl Bar {
    /// Create a new bar.
    pub fn new(timestamp: i64, open: u64, high: u64, low: u64, close: u64, volume: u64) -> (r:
        Bar)
        ensures
            r == (Bar { timestamp, open, high, low, close, volume, vwap: None }),
    {
        Bar { timestamp, open, high, low, close, volume, vwap: None }
    }

    /// Create a new bar with VWAP.
    pub fn with_vwap(self, vwap: u64) -> (r: Bar)
        ensures
            r == (Bar { vwap: Some(vwap), ..self }),
    {
        Bar { vwap: Some(vwap), ..self }
    }

    /// Check if the bar is bullish (close above open), by the exact
    /// IEEE-754 ordering of the encoded prices.
    pub fn is_bullish(&self) -> (r: bool)
        ensures
            r == crate::fcmp::f64_lt(self.open, self.close),
    {
        crate::fcmp::gt_bits(self.close, self.open)
    }

    /// Check if the bar is bearish (close below open).
    pub fn is_bearish(&self) -> (r: bool)
        ensures
            r == crate::fcmp::f64_lt(self.close, self.open),
    {
        crate::fcmp::lt_bits(self.close, self.open)
    }
}

impl Default for Bar {
    fn default() -> (r: Bar)
        ensures
            r == (Bar {
                timestamp: 0,
                open: 0,
                high: 0,
                low: 0,
                close: 0,
                volume: 0,
                vwap: None,
            }),
    {
        Bar { timestamp: 0, open: 0, high: 0, low: 0, close: 0, volume: 0, vwap: None }
    }
}

/// High-precision bar for order calculations, in exact fixed-point.
#[derive(Debug, Clone, PartialEq)]
pub struct PreciseBar {
    /// Unix timestamp in milliseconds
    pub timestamp: i64,
    /// Opening price
    pub open: Dec,
    /// Highest price
    pub high: Dec,
    /// Lowest price
    pub low: Dec,
    /// Closing price
    pub close: Dec,
    /// Trading volume
    pub volume: Dec,
}

/// The fixed-point reading of one f64 bit pattern: the exact value,
/// saturated into range, or zero when the bits are not finite — the
/// documented conversion fallback.
pub open spec fn spec_bits_to_dec(bits: u64) -> int {
    if f64_bits_finite(bits) {
        d_clip(f64_bits_scaled(bits))
    } else {
        0
    }
}

/// Decode one f64 bit pattern, falling back to zero when it is not finite.
pub fn bits_to_dec(bits: u64) -> (r: Dec)
    ensures
        r@ == spec_bits_to_dec(bits),
{
    match Dec::from_f64_bits(bits) {
        Some(d) => d,
        None => Dec::zero(),
    }
}

impl PreciseBar {
    /// Convert a fast bar to the exact fixed-point form. Each finite field
    /// converts exactly (saturated into the representable range);
    /// non-finite fields fall back to zero.
    pub fn from_bar(bar: &Bar) -> (r: PreciseBar)
        ensures
            r.timestamp == bar.timestamp,
            r.open@ == spec_bits_to_dec(bar.open),
            r.high@ == spec_bits_to_dec(bar.high),
            r.low@ == spec_bits_to_dec(bar.low),
            r.close@ == spec_bits_to_dec(bar.close),
            r.volume@ == spec_bits_to_dec(bar.volume),
    {
        PreciseBar {
            timestamp: bar.timestamp,
            open: bits_to_dec(bar.open),
            high: bits_to_dec(bar.high),
            low: bits_to_dec(bar.low),
            close: bits_to_dec(bar.close),
            volume: bits_to_dec(bar.volume),
        }
    }

    /// The conversion is lossless within the representable range: for a
    /// finite bit pattern whose exact scaled value lies in range, the
    /// fixed-point reading is that exact value, with nothing lost.
    pub proof fn lemma_conversion_lossless(bits: u64)
        requires
            f64_bits_finite(bits),
            crate::fixed::d_in_range(f64_bits_scaled(bits)),
        ensures
            spec_bits_to_dec(bits) == f64_bits_scaled(bits),
    {
    }
}

/// What a run of pushes leaves in a bounded series: each bar in turn,
/// evicting the front at capacity.
pub open spec fn spec_push_all(s: Seq<Bar>, capacity: usize, bars: Seq<Bar>) -> Seq<Bar>
    decreases bars.len(),
{
    if bars.len() == 0 {
        s
    } else {
        let t = spec_push_all(s, capacity, bars.drop_last());
        if capacity > 0 && t.len() >= capacity {
            t.subrange(1, t.len() as int).push(bars.last())
        } else {
            t.push(bars.last())
        }
    }
}

/// Time-series container for bars, optimized for sequential access.
#[derive(Debug, Clone)]
pub struct BarSeries {
    /// Symbol identifier
    pub symbol: String,
    /// Timeframe of the bars
    pub timeframe: Timeframe,
    /// Bars stored in a deque for efficient push/pop
    pub bars: std::collections::VecDeque<Bar>,
    /// Maximum capacity (0 = unlimited)
    pub capacity: usize,
}

impl BarSeries {
    /// The bars, oldest first.
    pub open spec fn view(&self) -> Seq<Bar> {
        self.bars@
    }

    /// The bounded-capacity invariant: with a positive capacity the series
    /// never holds more than `capacity` bars.
    pub open spec fn wf(&self) -> bool {
        self.spec_capacity() == 0 || self@.len() <= self.spec_capacity()
    }

    /// The configured capacity (0 = unlimited).
    pub open spec fn spec_capacity(&self) -> usize {
        self.capacity
    }

    /// Create a new empty bar series.
    pub fn new(symbol: String, timeframe: Timeframe) -> (r: BarSeries)
        ensures
            r.wf(),
            r@.len() == 0,
            r.symbol == symbol,
            r.timeframe == timeframe,
            r.spec_capacity() == 0,
    {
        BarSeries {
            symbol,
            timeframe,
            bars: std::collections::VecDeque::new(),
            capacity: 0,
        }
    }

    /// Create a bar series with a maximum capacity.
    /// When capacity is reached, oldest bars are removed.
    pub fn with_capacity(symbol: String, timeframe: Timeframe, capacity: usize) -> (r: BarSeries)
        ensures
            r.wf(),
            r@.len() == 0,
            r.symbol == symbol,
            r.timeframe == timeframe,
            r.spec_capacity() == capacity,
    {
        BarSeries {
            symbol,
            timeframe,
            bars: std::collections::VecDeque::with_capacity(capacity),
            capacity,
        }
    }

    /// Push a new bar, removing the oldest if at capacity: the new bar is
    /// always at the back, and a bounded series never grows past its
    /// capacity.
    pub fn push(&mut self, bar: Bar)
        requires
            old(self).wf(),
        ensures
            final(self).wf(),
            final(self)@ == if old(self).spec_capacity() > 0 && old(self)@.len() >= old(
                self,
            ).spec_capacity() {
                old(self)@.subrange(1, old(self)@.len() as int).push(bar)
            } else {
                old(self)@.push(bar)
            },
            final(self)@.len() > 0,
            final(self)@.last() == bar,
            final(self).symbol == old(self).symbol,
            final(self).timeframe == old(self).timeframe,
            final(self).spec_capacity() == old(self).spec_capacity(),
    {
        if self.capacity > 0 && self.bars.len() >= self.capacity {
            self.bars.pop_front();
        }
        self.bars.push_back(bar);
    }

    /// Push multiple bars, oldest first: the result is exactly the run of
    /// single pushes, with front eviction at capacity.
    pub fn extend(&mut self, bars: &Vec<Bar>)
        requires
            old(self).wf(),
        ensures
            final(self).wf(),
            final(self).symbol == old(self).symbol,
            final(self).timeframe == old(self).timeframe,
            final(self).spec_capacity() == old(self).spec_capacity(),
            final(self)@ == spec_push_all(old(self)@, old(self).spec_capacity(), bars@),
            bars@.len() > 0 ==> final(self)@.len() > 0 && final(self)@.last() == bars@.last(),
    {
        let mut i: usize = 0;
        while i < bars.len()
            invariant
                i <= bars@.len(),
                self.wf(),
                self.symbol == old(self).symbol,
                self.timeframe == old(self).timeframe,
                self.spec_capacity() == old(self).spec_capacity(),
                self@ == spec_push_all(old(self)@, old(self).spec_capacity(), bars@.take(i as int)),
                i > 0 ==> self@.len() > 0 && self@.last() == bars@[i - 1],
            decreases bars@.len() - i,
        {
            proof {
                assert(bars@.take(i + 1 as int).drop_last() =~= bars@.take(i as int));
                assert(bars@.take(i + 1 as int).last() == bars@[i as int]);
            }
            self.push(bars[i]);
            i += 1;
        }
        proof {
            assert(bars@.take(bars@.len() as int) =~= bars@);
        }
    }

    /// Get the number of bars.
    pub fn len(&self) -> (r: usize)
        ensures
            r == self@.len(),
    {
        self.bars.len()
    }

    /// Check if the series is empty.
    pub fn is_empty(&self) -> (r: bool)
        ensures
            r == (self@.len() == 0),
    {
        self.bars.len() == 0
    }

    /// Get the last N bars, oldest first.
    pub fn last_n(&self, n: usize) -> (r: Vec<Bar>)
        ensures
            r@ == self@.subrange(
                if self@.len() >= n {
                    self@.len() - n
                } else {
                    0
                },
                self@.len() as int,
            ),
    {
        let len = self.bars.len();
        let start = if len >= n {
            len - n
        } else {
            0
        };
        let mut v: Vec<Bar> = Vec::new();
        let mut i: usize = start;
        while i < len
            invariant
                start <= i <= len,
                len == self@.len(),
                v@ == self@.subrange(start as int, i as int),
            decreases len - i,
        {
            proof {
                assert(self@.subrange(start as int, i + 1 as int) =~= self@.subrange(
                    start as int,
                    i as int,
                ).push(self@[i as int]));
            }
            v.push(self.bars[i]);
            i += 1;
        }
        v
    }

    /// Get the last bar.
    pub fn last(&self) -> (r: Option<Bar>)
        ensures
            match r {
                Some(b) => self@.len() > 0 && b == self@.last(),
                None => self@.len() == 0,
            },
    {
        if self.bars.len() == 0 {
            None
        } else {
            Some(self.bars[self.bars.len() - 1])
        }
    }

    /// Get a bar by index (0 = oldest).
    pub fn get(&self, index: usize) -> (r: Option<Bar>)
        ensures
            match r {
                Some(b) => index < self@.len() && b == self@[index as int],
                None => index >= self@.len(),
            },
    {
        if index < self.bars.len() {
            Some(self.bars[index])
        } else {
            None
        }
    }

    /// Extract close prices as a vector of f64 bit patterns.
    pub fn closes(&self) -> (r: Vec<u64>)
        ensures
            r@.len() == self@.len(),
            forall|i: int| 0 <= i < r@.len() ==> r@[i] == (#[trigger] self@[i]).close,
    {
        let mut v: Vec<u64> = Vec::new();
        let mut i: usize = 0;
        while i < self.bars.len()
            invariant
                i <= self@.len(),
                v@.len() == i,
                forall|j: int| 0 <= j < i ==> v@[j] == (#[trigger] self@[j]).close,
            decreases self@.len() - i,
        {
            v.push(self.bars[i].close);
            i += 1;
        }
        v
    }

    /// Extract open prices as a vector of f64 bit patterns.
    pub fn opens(&self) -> (r: Vec<u64>)
        ensures
            r@.len() == self@.len(),
            forall|i: int| 0 <= i < r@.len() ==> r@[i] == (#[trigger] self@[i]).open,
    {
        let mut v: Vec<u64> = Vec::new();
        let mut i: usize = 0;
        while i < self.bars.len()
            invariant
                i <= self@.len(),
                v@.len() == i,
                forall|j: int| 0 <= j < i ==> v@[j] == (#[trigger] self@[j]).open,
            decreases self@.len() - i,
        {
            v.push(self.bars[i].open);
            i += 1;
        }
        v
    }

    /// Extract high prices as a vector of f64 bit patterns.
    pub fn highs(&self) -> (r: Vec<u64>)
        ensures
            r@.len() == self@.len(),
            forall|i: int| 0 <= i < r@.len() ==> r@[i] == (#[trigger] self@[i]).high,
    {
        let mut v: Vec<u64> = Vec::new();
        let mut i: usize = 0;
        while i < self.bars.len()
            invariant
                i <= self@.len(),
                v@.len() == i,
                forall|j: int| 0 <= j < i ==> v@[j] == (#[trigger] self@[j]).high,
            decreases self@.len() - i,
        {
            v.push(self.bars[i].high);
            i += 1;
        }
        v
    }

    /// Extract low prices as a vector of f64 bit patterns.
    pub fn lows(&self) -> (r: Vec<u64>)
        ensures
            r@.len() == self@.len(),
            forall|i: int| 0 <= i < r@.len() ==> r@[i] == (#[trigger] self@[i]).low,
    {
        let mut v: Vec<u64> = Vec::new();
        let mut i: usize = 0;
        while i < self.bars.len()
            invariant
                i <= self@.len(),
                v@.len() == i,
                forall|j: int| 0 <= j < i ==> v@[j] == (#[trigger] self@[j]).low,
            decreases self@.len() - i,
        {
            v.push(self.bars[i].low);
            i += 1;
        }
        v
    }

    /// Extract volumes as a vector of f64 bit patterns.
    pub fn volumes(&self) -> (r: Vec<u64>)
        ensures
            r@.len() == self@.len(),
            forall|i: int| 0 <= i < r@.len() ==> r@[i] == (#[trigger] self@[i]).volume,
    {
        let mut v: Vec<u64> = Vec::new();
        let mut i: usize = 0;
        while i < self.bars.len()
            invariant
                i <= self@.len(),
                v@.len() == i,
                forall|j: int| 0 <= j < i ==> v@[j] == (#[trigger] self@[j]).volume,
            decreases self@.len() - i,
        {
            v.push(self.bars[i].volume);
            i += 1;
        }
        v
    }

    /// Clear all bars.
    pub fn clear(&mut self)
        ensures
            final(self).wf(),
            final(self)@.len() == 0,
            final(self).symbol == old(self).symbol,
            final(self).timeframe == old(self).timeframe,
            final(self).spec_capacity() == old(self).spec_capacity(),
    {
        self.bars.clear();
    }
}

} // verus!
