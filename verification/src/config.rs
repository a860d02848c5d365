//! The read-only configuration the process loads at startup: the preset
//! catalogue and the map of known apps to their API keys.
//!
//! Both maps are small association lists keyed by name; `lookup` is the one
//! verified way to read them.
use vstd::prelude::*;

use crate::resource::EphemeronService;
use crate::resource::keys_distinct;
use crate::resource::keys_unique;
use crate::text::str_eq;

verus! {

/// The configuration shared by the API handlers.
#[derive(Debug, PartialEq)]
pub struct Config {
    /// Predefined services, selected by callers by name.
    pub presets: Vec<(String, EphemeronService)>,
    /// Map of known apps to their API keys.
    pub apps: Vec<(String, String)>,
}

impl Config {
    /// The configuration is well formed: both maps carry pairwise distinct
    /// keys, as the loaded map files do.
    pub open spec fn wf(self) -> bool {
        keys_unique(self.presets@) && keys_unique(self.apps@)
    }

    /// Decide whether the configuration is well formed.
    pub fn is_wf(&self) -> (r: bool)
        ensures
            r == self.wf(),
    {
        keys_distinct(&self.presets) && keys_distinct(&self.apps)
    }
}

/// The value under the first entry whose key reads `key`.
pub open spec fn spec_lookup<T>(entries: Seq<(String, T)>, key: Seq<char>) -> Option<T>
    decreases entries.len(),
{
    if entries.len() == 0 {
        None
    } else if entries[0].0@ == key {
        Some(entries[0].1)
    } else {
        spec_lookup(entries.subrange(1, entries.len() as int), key)
    }
}

/// Look a key up in an association list.
pub fn lookup<'a, T>(entries: &'a Vec<(String, T)>, key: &str) -> (r: Option<&'a T>)
    ensures
        match r {
            Some(v) => spec_lookup(entries@, key@) == Some(*v),
            None => spec_lookup(entries@, key@) is None,
        },
{
    let n: usize = entries.len();
    let mut i: usize = 0;
    proof {
        assert(entries@.subrange(0, n as int) =~= entries@);
    }
    while i < n
        invariant
            n == entries@.len(),
            i <= n,
            spec_lookup(entries@, key@) == spec_lookup(
                entries@.subrange(i as int, n as int),
                key@,
            ),
        decreases n - i,
    {
        let hit = str_eq(entries[i].0.as_str(), key);
        proof {
            let rest = entries@.subrange(i as int, n as int);
            assert(rest[0] == entries@[i as int]);
            assert(rest.subrange(1, rest.len() as int) =~= entries@.subrange(
                i as int + 1,
                n as int,
            ));
        }
        if hit {
            return Some(&entries[i].1);
        }
        i = i + 1;
    }
    proof {
        assert(entries@.subrange(n as int, n as int).len() == 0);
    }
    None
}

} // verus!
