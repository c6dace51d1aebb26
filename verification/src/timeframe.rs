//! Timeframe definitions for market data.

use vstd::assert_seqs_equal;
use vstd::prelude::*;

verus! {

/// Timeframe for bars/candles.
#[derive(Debug, Clone, Copy, PartialEq, Eq, Structural, Hash)]
pub enum Timeframe {
    /// 1 minute bars
    Minute1,
    /// 5 minute bars
    Minute5,
    /// 15 minute bars
    Minute15,
    /// 30 minute bars
    Minute30,
    /// 1 hour bars
    Hour1,
    /// 4 hour bars
    Hour4,
    /// Daily bars
    Daily,
    /// Weekly bars
    Weekly,
    /// Monthly bars
    Monthly,
}

impl Default for Timeframe {
    fn default() -> (r: Self)
        ensures
            r == Timeframe::Daily,
    {
        Timeframe::Daily
    }
}

impl Timeframe {
    /// The duration of the timeframe in seconds.
    pub open spec fn spec_secs(self) -> int {
        match self {
            Timeframe::Minute1 => 60,
            Timeframe::Minute5 => 300,
            Timeframe::Minute15 => 900,
            Timeframe::Minute30 => 1800,
            Timeframe::Hour1 => 3600,
            Timeframe::Hour4 => 14400,
            Timeframe::Daily => 86400,
            Timeframe::Weekly => 604800,
            Timeframe::Monthly => 2592000,
        }
    }

    /// Get the duration of the timeframe in seconds.
    pub fn as_secs(&self) -> (r: u64)
        ensures
            r as int == self.spec_secs(),
    {
        match self {
            Timeframe::Minute1 => 60,
            Timeframe::Minute5 => 300,
            Timeframe::Minute15 => 900,
            Timeframe::Minute30 => 1800,
            Timeframe::Hour1 => 3600,
            Timeframe::Hour4 => 14400,
            Timeframe::Daily => 86400,
            Timeframe::Weekly => 604800,
            // Approximate (30 days)
            Timeframe::Monthly => 2592000,
        }
    }

    /// Get the duration of the timeframe in milliseconds.
    pub fn as_millis(&self) -> (r: u64)
        ensures
            r as int == self.spec_secs() * 1000,
    {
        self.as_secs() * 1000
    }

    /// Check if this is an intraday timeframe.
    pub fn is_intraday(&self) -> (r: bool)
        ensures
            r == (self.spec_secs() < 86400),
    {
        match self {
            Timeframe::Minute1
            | Timeframe::Minute5
            | Timeframe::Minute15
            | Timeframe::Minute30
            | Timeframe::Hour1
            | Timeframe::Hour4 => true,
            _ => false,
        }
    }

    /// Get all available timeframes, shortest first.
    pub fn all() -> (r: Vec<Timeframe>)
        ensures
            r@ == seq![
                Timeframe::Minute1,
                Timeframe::Minute5,
                Timeframe::Minute15,
                Timeframe::Minute30,
                Timeframe::Hour1,
                Timeframe::Hour4,
                Timeframe::Daily,
                Timeframe::Weekly,
                Timeframe::Monthly,
            ],
    {
        let mut v: Vec<Timeframe> = Vec::new();
        v.push(Timeframe::Minute1);
        v.push(Timeframe::Minute5);
        v.push(Timeframe::Minute15);
        v.push(Timeframe::Minute30);
        v.push(Timeframe::Hour1);
        v.push(Timeframe::Hour4);
        v.push(Timeframe::Daily);
        v.push(Timeframe::Weekly);
        v.push(Timeframe::Monthly);
        proof {
            assert_seqs_equal!(v@, seq![
                Timeframe::Minute1,
                Timeframe::Minute5,
                Timeframe::Minute15,
                Timeframe::Minute30,
                Timeframe::Hour1,
                Timeframe::Hour4,
                Timeframe::Daily,
                Timeframe::Weekly,
                Timeframe::Monthly,
            ]);
        }
        v
    }

    /// The canonical display form of the timeframe.
    pub fn canonical_str(&self) -> (r: &'static str)
        ensures
            r@ == self.spec_canonical(),
    {
        match self {
            Timeframe::Minute1 => "1m",
            Timeframe::Minute5 => "5m",
            Timeframe::Minute15 => "15m",
            Timeframe::Minute30 => "30m",
            Timeframe::Hour1 => "1h",
            Timeframe::Hour4 => "4h",
            Timeframe::Daily => "1d",
            Timeframe::Weekly => "1w",
            Timeframe::Monthly => "1M",
        }
    }

    /// The canonical form, as a character sequence.
    pub open spec fn spec_canonical(self) -> Seq<char> {
        match self {
            Timeframe::Minute1 => "1m"@,
            Timeframe::Minute5 => "5m"@,
            Timeframe::Minute15 => "15m"@,
            Timeframe::Minute30 => "30m"@,
            Timeframe::Hour1 => "1h"@,
            Timeframe::Hour4 => "4h"@,
            Timeframe::Daily => "1d"@,
            Timeframe::Weekly => "1w"@,
            Timeframe::Monthly => "1M"@,
        }
    }

    /// Which timeframe an input string denotes, if any. Aliases are
    /// matched exactly; `"1m"` is one minute and `"1M"` one month.
    pub open spec fn spec_parse(s: Seq<char>) -> Option<Timeframe> {
        if s == "1M"@ || s == "month"@ || s == "monthly"@ {
            Some(Timeframe::Monthly)
        } else if s == "1m"@ || s == "1min"@ || s == "minute"@ {
            Some(Timeframe::Minute1)
        } else if s == "5m"@ || s == "5min"@ {
            Some(Timeframe::Minute5)
        } else if s == "15m"@ || s == "15min"@ {
            Some(Timeframe::Minute15)
        } else if s == "30m"@ || s == "30min"@ {
            Some(Timeframe::Minute30)
        } else if s == "1h"@ || s == "1hour"@ || s == "hour"@ {
            Some(Timeframe::Hour1)
        } else if s == "4h"@ || s == "4hour"@ {
            Some(Timeframe::Hour4)
        } else if s == "1d"@ || s == "day"@ || s == "daily"@ {
            Some(Timeframe::Daily)
        } else if s == "1w"@ || s == "week"@ || s == "weekly"@ {
            Some(Timeframe::Weekly)
        } else {
            None
        }
    }

    /// Parse a timeframe from its display form or a spelled-out alias.
    /// Returns the offending input on failure.
    pub fn parse_str(s: &str) -> (r: Result<Timeframe, String>)
        ensures
            match r {
                Ok(tf) => Timeframe::spec_parse(s@) == Some(tf),
                Err(e) => Timeframe::spec_parse(s@) == None::<Timeframe> && e@ == s@,
            },
    {
        proof {
            reveal_strlit("1M");
            reveal_strlit("month");
            reveal_strlit("monthly");
            reveal_strlit("1m");
            reveal_strlit("1min");
            reveal_strlit("minute");
            reveal_strlit("5m");
            reveal_strlit("5min");
            reveal_strlit("15m");
            reveal_strlit("15min");
            reveal_strlit("30m");
            reveal_strlit("30min");
            reveal_strlit("1h");
            reveal_strlit("1hour");
            reveal_strlit("hour");
            reveal_strlit("4h");
            reveal_strlit("4hour");
            reveal_strlit("1d");
            reveal_strlit("day");
            reveal_strlit("daily");
            reveal_strlit("1w");
            reveal_strlit("week");
            reveal_strlit("weekly");
        }
        if str_eq(s, "1M") || str_eq(s, "month") || str_eq(s, "monthly") {
            Ok(Timeframe::Monthly)
        } else if str_eq(s, "1m") || str_eq(s, "1min") || str_eq(s, "minute") {
            Ok(Timeframe::Minute1)
        } else if str_eq(s, "5m") || str_eq(s, "5min") {
            Ok(Timeframe::Minute5)
        } else if str_eq(s, "15m") || str_eq(s, "15min") {
            Ok(Timeframe::Minute15)
        } else if str_eq(s, "30m") || str_eq(s, "30min") {
            Ok(Timeframe::Minute30)
        } else if str_eq(s, "1h") || str_eq(s, "1hour") || str_eq(s, "hour") {
            Ok(Timeframe::Hour1)
        } else if str_eq(s, "4h") || str_eq(s, "4hour") {
            Ok(Timeframe::Hour4)
        } else if str_eq(s, "1d") || str_eq(s, "day") || str_eq(s, "daily") {
            Ok(Timeframe::Daily)
        } else if str_eq(s, "1w") || str_eq(s, "week") || str_eq(s, "weekly") {
            Ok(Timeframe::Weekly)
        } else {
            Err(s.to_owned())
        }
    }

    /// The round trip from a timeframe through its canonical form and back
    /// is the identity: parsing `canonical_str` yields the same timeframe.
    pub proof fn lemma_canonical_round_trip(tf: Timeframe)
        ensures
            Timeframe::spec_parse(tf.spec_canonical()) == Some(tf),
    {
        reveal_strlit("1M");
        reveal_strlit("month");
        reveal_strlit("monthly");
        reveal_strlit("1m");
        reveal_strlit("1min");
        reveal_strlit("minute");
        reveal_strlit("5m");
        reveal_strlit("5min");
        reveal_strlit("15m");
        reveal_strlit("15min");
        reveal_strlit("30m");
        reveal_strlit("30min");
        reveal_strlit("1h");
        reveal_strlit("1hour");
        reveal_strlit("hour");
        reveal_strlit("4h");
        reveal_strlit("4hour");
        reveal_strlit("1d");
        reveal_strlit("day");
        reveal_strlit("daily");
        reveal_strlit("1w");
        reveal_strlit("week");
        reveal_strlit("weekly");
        assert("1M"@.len() == 2 && "1M"@[0] == '1' && "1M"@[1] == 'M');
        assert("1m"@.len() == 2 && "1m"@[0] == '1' && "1m"@[1] == 'm');
        assert("5m"@.len() == 2 && "5m"@[0] == '5' && "5m"@[1] == 'm');
        assert("15m"@.len() == 3 && "15m"@[0] == '1' && "15m"@[1] == '5');
        assert("30m"@.len() == 3 && "30m"@[0] == '3' && "30m"@[1] == '0');
        assert("1h"@.len() == 2 && "1h"@[0] == '1' && "1h"@[1] == 'h');
        assert("4h"@.len() == 2 && "4h"@[0] == '4' && "4h"@[1] == 'h');
        assert("1d"@.len() == 2 && "1d"@[0] == '1' && "1d"@[1] == 'd');
        assert("1w"@.len() == 2 && "1w"@[0] == '1' && "1w"@[1] == 'w');
        assert("month"@.len() == 5);
        assert("monthly"@.len() == 7);
        assert("1min"@.len() == 4);
        assert("minute"@.len() == 6);
        assert("5min"@.len() == 4);
        assert("15min"@.len() == 5);
        assert("30min"@.len() == 5);
        assert("1hour"@.len() == 5);
        assert("hour"@.len() == 4);
        assert("4hour"@.len() == 5);
        assert("day"@.len() == 3);
        assert("daily"@.len() == 5);
        assert("week"@.len() == 4);
        assert("weekly"@.len() == 6);
    }
}

/// Compare two string slices for equality of contents.
pub fn str_eq(a: &str, b: &str) -> (r: bool)
    ensures
        r == (a@ == b@),
{
    let sa: String = a.to_owned();
    let sb: String = b.to_owned();
    sa == sb
}

} // verus!
