//! Strategy registry for dynamic strategy lookup.
//!
//! The registry maps string keys to a name and a description. Building a
//! strategy from a serialized configuration document is glue outside the
//! verified core; it deserializes into the typed configurations here and
//! calls their constructors after validation.

use vstd::prelude::*;

use crate::timeframe::str_eq;

verus! {

/// Information about a registered strategy.
#[derive(Debug, Clone, PartialEq)]
pub struct StrategyInfo {
    /// Registry key
    pub key: String,
    /// Strategy name
    pub name: String,
    /// Strategy description
    pub description: String,
}

/// Registry of the built-in strategies.
#[derive(Debug, Clone, PartialEq)]
pub struct StrategyRegistry {
    /// The registered strategies, in registration order
    pub entries: Vec<StrategyInfo>,
}

/// Whether a key sequence is one of the four built-in registry keys.
pub open spec fn spec_builtin_key(key: Seq<char>) -> bool {
    key == "ma_crossover"@ || key == "mean_reversion"@ || key == "momentum"@ || key == "rsi"@
}

impl StrategyRegistry {
    /// Create a new strategy registry with all built-in strategies.
    pub fn new() -> (r: StrategyRegistry)
        ensures
            r.entries@.len() == 4,
            r.entries@[0].key@ == "ma_crossover"@,
            r.entries@[1].key@ == "mean_reversion"@,
            r.entries@[2].key@ == "momentum"@,
            r.entries@[3].key@ == "rsi"@,
    {
        let mut entries: Vec<StrategyInfo> = Vec::new();
        entries.push(
            StrategyInfo {
                key: "ma_crossover".to_owned(),
                name: "MA Crossover".to_owned(),
                description: "signals on fast/slow moving average crossovers".to_owned(),
            },
        );
        entries.push(
            StrategyInfo {
                key: "mean_reversion".to_owned(),
                name: "Mean Reversion".to_owned(),
                description: "trades reversions to the mean using Bollinger Bands".to_owned(),
            },
        );
        entries.push(
            StrategyInfo {
                key: "momentum".to_owned(),
                name: "Momentum".to_owned(),
                description: "follows strong trends using momentum and RSI confirmation"
                    .to_owned(),
            },
        );
        entries.push(
            StrategyInfo {
                key: "rsi".to_owned(),
                name: "RSI Strategy".to_owned(),
                description: "trades RSI overbought/oversold reversals".to_owned(),
            },
        );
        StrategyRegistry { entries }
    }

    /// List all available strategies.
    pub fn list(&self) -> (r: &Vec<StrategyInfo>)
        ensures
            r == self.entries,
    {
        &self.entries
    }

    /// Get strategy info by key.
    pub fn get(&self, name: &str) -> (r: Option<&StrategyInfo>)
        ensures
            match r {
                Some(info) => exists|i: int|
                    0 <= i < self.entries@.len() && self.entries@[i] == *info && info.key@
                        == name@,
                None => forall|i: int|
                    0 <= i < self.entries@.len() ==> (#[trigger] self.entries@[i]).key@ != name@,
            },
    {
        let mut i: usize = 0;
        while i < self.entries.len()
            invariant
                i <= self.entries@.len(),
                forall|j: int| 0 <= j < i ==> (#[trigger] self.entries@[j]).key@ != name@,
            decreases self.entries@.len() - i,
        {
            if str_eq(self.entries[i].key.as_str(), name) {
                return Some(&self.entries[i]);
            }
            i += 1;
        }
        None
    }

    /// Check if a strategy exists under the key.
    pub fn has_strategy(&self, name: &str) -> (r: bool)
        ensures
            r == exists|i: int|
                0 <= i < self.entries@.len() && (#[trigger] self.entries@[i]).key@ == name@,
    {
        match self.get(name) {
            Some(_) => true,
            None => false,
        }
    }

    /// Get all strategy keys, in registration order.
    pub fn names(&self) -> (r: Vec<String>)
        ensures
            r@.len() == self.entries@.len(),
            forall|i: int|
                0 <= i < r@.len() ==> r@[i]@ == (#[trigger] self.entries@[i]).key@,
    {
        let mut v: Vec<String> = Vec::new();
        let mut i: usize = 0;
        while i < self.entries.len()
            invariant
                i <= self.entries@.len(),
                v@.len() == i,
                forall|j: int|
                    0 <= j < i ==> v@[j]@ == (#[trigger] self.entries@[j]).key@,
            decreases self.entries@.len() - i,
        {
            v.push(self.entries[i].key.clone());
            i += 1;
        }
        v
    }
}

} // verus!
