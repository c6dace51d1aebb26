//! Historical data handling: timestamp parsing for CSV records, record
//! conversion and chronological sorting. Reading the file itself is I/O
//! and happens outside the verified core, which receives plain record
//! values.

use vstd::prelude::*;
use vstd::string::StrSliceExecFns;

use crate::bar::Bar;
use crate::errors::DataError;

verus! {

/// What `chrono::NaiveDateTime::parse_from_str` yields for an input and a
/// format, converted to epoch milliseconds: a function of the two strings
/// alone.
pub uninterp spec fn parsed_datetime_ms(s: Seq<char>, fmt: Seq<char>) -> Option<i64>;

/// What `chrono::NaiveDate::parse_from_str` yields for an input and a
/// format, taken at midnight UTC in epoch milliseconds: a function of the
/// two strings alone.
pub uninterp spec fn parsed_date_ms(s: Seq<char>, fmt: Seq<char>) -> Option<i64>;

/// Relies on chrono: `NaiveDateTime::parse_from_str` parses a date-time
/// by a format string, deterministically; `and_utc().timestamp_millis()`
/// converts the result to epoch milliseconds.
#[verifier::external_body]
fn parse_datetime_with(s: &str, fmt: &str) -> (r: Option<i64>)
    ensures
        r == parsed_datetime_ms(s@, fmt@),
{
    chrono::NaiveDateTime::parse_from_str(s, fmt).ok().map(|dt| dt.and_utc().timestamp_millis())
}

/// Relies on chrono: `NaiveDate::parse_from_str` parses a pure date by a
/// format string, deterministically; midnight UTC of that date is
/// converted to epoch milliseconds.
#[verifier::external_body]
fn parse_date_with(s: &str, fmt: &str) -> (r: Option<i64>)
    ensures
        r == parsed_date_ms(s@, fmt@),
{
    chrono::NaiveDate::parse_from_str(s, fmt).ok().and_then(|d| d.and_hms_opt(0, 0, 0)).map(
        |dt| dt.and_utc().timestamp_millis(),
    )
}

/// The value of an ASCII digit string (most significant digit first), or
/// nothing if any character is not a digit or the string is empty.
pub open spec fn spec_digits_value(s: Seq<char>) -> Option<int>
    decreases s.len(),
{
    if s.len() == 0 {
        None
    } else if s.len() == 1 {
        spec_digit(s[0])
    } else {
        match (spec_digits_value(s.drop_last()), spec_digit(s.last())) {
            (Some(hi), Some(d)) => Some(hi * 10 + d),
            _ => None,
        }
    }
}

/// The value of one ASCII digit character.
pub open spec fn spec_digit(c: char) -> Option<int> {
    if '0' <= c <= '9' {
        Some(c as int - '0' as int)
    } else {
        None
    }
}

/// Parse a non-empty ASCII digit string into a number. Values beyond
/// `u64` yield nothing.
pub fn parse_u64_digits(s: &str) -> (r: Option<u64>)
    ensures
        match r {
            Some(v) => spec_digits_value(s@) == Some(v as int),
            None => spec_digits_value(s@) is None || match spec_digits_value(s@) {
                Some(v) => v > u64::MAX,
                None => true,
            },
        },
{
    let len = s.unicode_len();
    if len == 0 {
        return None;
    }
    let mut acc: u64 = 0;
    let mut i: usize = 0;
    while i < len
        invariant
            i <= len,
            len == s@.len(),
            i > 0 ==> spec_digits_value(s@.take(i as int)) == Some(acc as int),
            i == 0 ==> acc == 0,
        decreases len - i,
    {
        let c = s.get_char(i);
        let cu: u32 = c as u32;
        let d: u64 = if cu >= 48 && cu <= 57 {
            (cu as u64) - 48
        } else {
            proof {
                lemma_digits_value_bad(s@, i as int);
                assert(s@.take(s@.len() as int) =~= s@);
            }
            return None;
        };
        if acc > 0xFFFF_FFFF_FFFF_FFFFu64 / 10 || (acc == 0xFFFF_FFFF_FFFF_FFFFu64 / 10 && d
            > 0xFFFF_FFFF_FFFF_FFFFu64 % 10) {
            // The value no longer fits in u64.
            proof {
                lemma_digits_value_grows(s@, i as int, acc as int, d as int);
                assert(s@.take(s@.len() as int) =~= s@);
            }
            return None;
        }
        let ghost prev = acc;
        acc = acc * 10 + d;
        i += 1;
        proof {
            if i > 1 {
                assert(s@.take(i as int).drop_last() =~= s@.take(i - 1 as int));
                assert(s@.take(i as int).last() == s@[i - 1 as int]);
            } else {
                assert(s@.take(1int).len() == 1);
                assert(s@.take(1int)[0] == s@[0]);
            }
        }
    }
    proof {
        assert(s@.take(len as int) =~= s@);
    }
    Some(acc)
}

/// If the prefix up to a non-digit character parses at all, the whole
/// string does not parse.
proof fn lemma_digits_value_bad(s: Seq<char>, i: int)
    requires
        0 <= i < s.len(),
        spec_digit(s[i]) is None,
    ensures
        spec_digits_value(s.take(s.len() as int)) is None,
    decreases s.len() - i,
{
    lemma_digits_value_bad_aux(s, i, s.len() as int);
}

/// A non-digit inside any prefix poisons that prefix's value.
proof fn lemma_digits_value_bad_aux(s: Seq<char>, i: int, n: int)
    requires
        0 <= i < n <= s.len(),
        spec_digit(s[i]) is None,
    ensures
        spec_digits_value(s.take(n)) is None,
    decreases n,
{
    if n == i + 1 {
        if n == 1 {
        } else {
            assert(s.take(n).last() == s[i]);
        }
    } else {
        lemma_digits_value_bad_aux(s, i, n - 1);
        assert(s.take(n).drop_last() =~= s.take(n - 1));
        if s.take(n).len() == 1 {
        }
    }
}

/// Once the accumulated value would overflow, the full value is beyond
/// `u64`: appending digits never shrinks the value.
proof fn lemma_digits_value_grows(s: Seq<char>, i: int, acc: int, d: int)
    requires
        0 <= i < s.len(),
        i > 0 ==> spec_digits_value(s.take(i)) == Some(acc),
        i == 0 ==> acc == 0,
        spec_digit(s[i]) == Some(d),
        acc * 10 + d > u64::MAX,
    ensures
        match spec_digits_value(s.take(s.len() as int)) {
            Some(v) => v > u64::MAX,
            None => true,
        },
    decreases s.len() - i,
{
    lemma_digits_prefix_monotone(s, i + 1, s.len() as int);
    if i > 0 {
        assert(s.take(i + 1).drop_last() =~= s.take(i));
        assert(s.take(i + 1).last() == s[i]);
    } else {
        assert(s.take(1int).len() == 1);
        assert(s.take(1int)[0] == s[0]);
    }
}

/// A longer digit prefix has at least the value of a shorter one.
proof fn lemma_digits_prefix_monotone(s: Seq<char>, m: int, n: int)
    requires
        0 < m <= n <= s.len(),
    ensures
        match (spec_digits_value(s.take(m)), spec_digits_value(s.take(n))) {
            (Some(v), Some(w)) => w >= v,
            (None, Some(_)) => false,
            _ => true,
        },
    decreases n - m,
{
    if m < n {
        lemma_digits_prefix_monotone(s, m, n - 1);
        assert(s.take(n).drop_last() =~= s.take(n - 1));
        if s.take(n).len() == 1 {
        }
        lemma_digits_value_nonneg(s.take(n - 1));
        match (spec_digits_value(s.take(n - 1)), spec_digit(s.take(n).last())) {
            (Some(hi), Some(d)) => {
                assert(hi * 10 + d >= hi) by (nonlinear_arith)
                    requires
                        d >= 0,
                        hi >= 0,
                ;
            },
            _ => {},
        }
    }
}

/// A digit string's value is never negative.
proof fn lemma_digits_value_nonneg(s: Seq<char>)
    ensures
        match spec_digits_value(s) {
            Some(v) => v >= 0,
            None => true,
        },
    decreases s.len(),
{
    if s.len() > 1 {
        lemma_digits_value_nonneg(s.drop_last());
        match (spec_digits_value(s.drop_last()), spec_digit(s.last())) {
            (Some(hi), Some(d)) => {
                assert(hi * 10 + d >= 0) by (nonlinear_arith)
                    requires
                        hi >= 0,
                        d >= 0,
                ;
            },
            _ => {},
        }
    }
}

/// The date formats tried, in order.
pub open spec fn spec_date_formats() -> Seq<Seq<char>> {
    seq!["%Y-%m-%d"@, "%Y-%m-%d %H:%M:%S"@, "%Y/%m/%d"@, "%m/%d/%Y"@, "%d-%m-%Y"@]
}

/// What parsing a timestamp string yields: the first format that parses
/// it (as a date-time, then as a pure date at midnight UTC), else the
/// numeric reading — seconds when at most ten digits, milliseconds
/// beyond.
pub open spec fn spec_parse_timestamp(s: Seq<char>) -> Option<int> {
    if parsed_datetime_ms(s, "%Y-%m-%d"@) is Some {
        Some(parsed_datetime_ms(s, "%Y-%m-%d"@)->Some_0 as int)
    } else if parsed_date_ms(s, "%Y-%m-%d"@) is Some {
        Some(parsed_date_ms(s, "%Y-%m-%d"@)->Some_0 as int)
    } else if parsed_datetime_ms(s, "%Y-%m-%d %H:%M:%S"@) is Some {
        Some(parsed_datetime_ms(s, "%Y-%m-%d %H:%M:%S"@)->Some_0 as int)
    } else if parsed_date_ms(s, "%Y-%m-%d %H:%M:%S"@) is Some {
        Some(parsed_date_ms(s, "%Y-%m-%d %H:%M:%S"@)->Some_0 as int)
    } else if parsed_datetime_ms(s, "%Y/%m/%d"@) is Some {
        Some(parsed_datetime_ms(s, "%Y/%m/%d"@)->Some_0 as int)
    } else if parsed_date_ms(s, "%Y/%m/%d"@) is Some {
        Some(parsed_date_ms(s, "%Y/%m/%d"@)->Some_0 as int)
    } else if parsed_datetime_ms(s, "%m/%d/%Y"@) is Some {
        Some(parsed_datetime_ms(s, "%m/%d/%Y"@)->Some_0 as int)
    } else if parsed_date_ms(s, "%m/%d/%Y"@) is Some {
        Some(parsed_date_ms(s, "%m/%d/%Y"@)->Some_0 as int)
    } else if parsed_datetime_ms(s, "%d-%m-%Y"@) is Some {
        Some(parsed_datetime_ms(s, "%d-%m-%Y"@)->Some_0 as int)
    } else if parsed_date_ms(s, "%d-%m-%Y"@) is Some {
        Some(parsed_date_ms(s, "%d-%m-%Y"@)->Some_0 as int)
    } else {
        match spec_digits_value(s) {
            Some(v) => if v <= u64::MAX {
                if v > 10_000_000_000 {
                    Some(v)
                } else {
                    Some(v * 1000)
                }
            } else {
                None
            },
            None => None,
        }
    }
}

/// Parse a timestamp string: the listed date formats are tried in order
/// (each first as a date-time, then as a pure date at midnight UTC), and
/// a purely numeric field is read as epoch seconds when it has at most
/// ten digits and as epoch milliseconds beyond that. An unreadable field
/// is an error carrying the offending text. Numeric values beyond the
/// representable range are rejected.
pub fn parse_timestamp(date_str: &str) -> (r: Result<i64, DataError>)
    ensures
        match r {
            Ok(ts) => spec_parse_timestamp(date_str@) == Some(ts as int) || (
            spec_parse_timestamp(date_str@) is Some && spec_parse_timestamp(
                date_str@,
            )->Some_0 > i64::MAX),
            Err(e) => e matches DataError::ParseError(t) && t@ == date_str@ && (
            spec_parse_timestamp(date_str@) is None || spec_parse_timestamp(
                date_str@,
            )->Some_0 > i64::MAX),
        },
{
    if let Some(ts) = parse_datetime_with(date_str, "%Y-%m-%d") {
        return Ok(ts);
    }
    if let Some(ts) = parse_date_with(date_str, "%Y-%m-%d") {
        return Ok(ts);
    }
    if let Some(ts) = parse_datetime_with(date_str, "%Y-%m-%d %H:%M:%S") {
        return Ok(ts);
    }
    if let Some(ts) = parse_date_with(date_str, "%Y-%m-%d %H:%M:%S") {
        return Ok(ts);
    }
    if let Some(ts) = parse_datetime_with(date_str, "%Y/%m/%d") {
        return Ok(ts);
    }
    if let Some(ts) = parse_date_with(date_str, "%Y/%m/%d") {
        return Ok(ts);
    }
    if let Some(ts) = parse_datetime_with(date_str, "%m/%d/%Y") {
        return Ok(ts);
    }
    if let Some(ts) = parse_date_with(date_str, "%m/%d/%Y") {
        return Ok(ts);
    }
    if let Some(ts) = parse_datetime_with(date_str, "%d-%m-%Y") {
        return Ok(ts);
    }
    if let Some(ts) = parse_date_with(date_str, "%d-%m-%Y") {
        return Ok(ts);
    }

    // Try parsing as a numeric epoch: seconds up to ten digits,
    // milliseconds beyond.
    if let Some(v) = parse_u64_digits(date_str) {
        if v > 10_000_000_000u64 {
            if v <= 0x7FFF_FFFF_FFFF_FFFFu64 {
                return Ok(v as i64);
            }
        } else {
            return Ok((v * 1000) as i64);
        }
    }

    Err(DataError::ParseError(date_str.to_owned()))
}

/// Sort bars by timestamp, stably: the result is ordered and holds
/// exactly the input bars.
#[verifier::rlimit(100)]
pub fn sort_bars(v: &mut Vec<Bar>)
    ensures
        forall|i: int, j: int|
            0 <= i < j < final(v)@.len() ==> final(v)@[i].timestamp <= final(v)@[j].timestamp,
        final(v)@.to_multiset() == old(v)@.to_multiset(),
        final(v)@.len() == old(v)@.len(),
{
    proof {
        broadcast use vstd::seq_lib::group_seq_properties;
        broadcast use vstd::seq_lib::to_multiset_insert;

    }
    if v.len() <= 1 {
        return ;
    }
    let mut i: usize = 1;
    while i < v.len()
        invariant
            1 <= i <= v@.len(),
            forall|a: int, b: int| 0 <= a < b < i ==> v@[a].timestamp <= v@[b].timestamp,
            v@.to_multiset() == old(v)@.to_multiset(),
            v@.len() == old(v)@.len(),
        decreases v@.len() - i,
    {
        proof {
            broadcast use vstd::seq_lib::group_seq_properties;
            broadcast use vstd::seq_lib::to_multiset_insert;

        }
        let ts = v[i].timestamp;
        let mut j: usize = 0;
        while j < i && v[j].timestamp <= ts
            invariant
                j <= i < v@.len(),
                ts == v@[i as int].timestamp,
                forall|k: int| 0 <= k < j ==> (#[trigger] v@[k]).timestamp <= ts,
            decreases i - j,
        {
            j += 1;
        }
        if j < i {
            proof {
                broadcast use vstd::seq_lib::group_seq_properties;
                broadcast use vstd::seq_lib::to_multiset_insert;

            }
            let ghost pre = v@;
            let x = v.remove(i);
            let ghost mid = v@;
            v.insert(j, x);
            proof {
                assert(mid.to_multiset() =~= pre.to_multiset().remove(pre[i as int]));
                assert(v@.to_multiset() =~= mid.to_multiset().insert(x));
                assert(pre.to_multiset().contains(pre[i as int])) by {
                    assert(pre[i as int] == x);
                    assert(pre.contains(x));
                }
                assert(v@.to_multiset() =~= pre.to_multiset());
                assert forall|a: int, b: int|
                    0 <= a < b < i + 1 implies v@[a].timestamp <= v@[b].timestamp by {
                    if b < j {
                    } else if b == j {
                        assert(v@[b] == x);
                        assert(pre[a] == v@[a]);
                    } else {
                        assert(v@[b] == pre[b - 1]);
                        if a < j {
                            assert(v@[a] == pre[a]);
                        } else if a == j {
                            assert(v@[a] == x);
                        } else {
                            assert(v@[a] == pre[a - 1]);
                        }
                    }
                }
            }
        }
        i += 1;
    }
}

/// Build a bar from one parsed CSV record: the timestamp text and the
/// OHLCV fields as f64 bit patterns (a missing volume reads as zero bits
/// upstream).
pub fn bar_from_record(
    date_str: &str,
    open: u64,
    high: u64,
    low: u64,
    close: u64,
    volume: u64,
) -> (r: Result<Bar, DataError>)
    ensures
        match r {
            Ok(b) => {
                &&& spec_parse_timestamp(date_str@) is Some
                &&& b.open == open
                &&& b.high == high
                &&& b.low == low
                &&& b.close == close
                &&& b.volume == volume
                &&& b.vwap is None
            },
            Err(e) => e matches DataError::ParseError(_),
        },
{
    let timestamp = parse_timestamp(date_str)?;
    Ok(Bar::new(timestamp, open, high, low, close, volume))
}

} // verus!
