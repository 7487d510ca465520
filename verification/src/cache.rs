//! A small cache of parsed duration expressions, for columns in which few
//! distinct expressions repeat.

use vstd::prelude::*;
use vstd::string::*;
use vstd::utf8::encode_utf8;
use crate::duration::{parse_spec, Duration};

verus! {

/// The greatest number of expressions that a cache holds.
pub const MAX_CACHED: usize = 64;

/// The greatest `r` whose square is at most `n`.
pub fn integer_sqrt(n: usize) -> (r: usize)
    ensures
        r * r <= n < (r + 1) * (r + 1),
{
    let mut r: usize = 0;
    loop
        invariant
            r * r <= n,
            r <= 0xFFFF_FFFF,
        ensures
            r * r <= n < (r + 1) * (r + 1),
        decreases 0xFFFF_FFFF - r,
    {
        let next: u128 = r as u128 + 1;
        assert(next * next <= 0x1_0000_0000 * 0x1_0000_0000) by (nonlinear_arith)
            requires
                0 <= next <= 0x1_0000_0000,
        ;
        let square: u128 = next * next;
        if r == 0xFFFF_FFFF || square > n as u128 {
            break ;
        }
        r = r + 1;
    }
    r
}

/// A cache of the durations that expressions denote. It holds a bounded
/// number of expressions; when it is full, the oldest entry is replaced.
pub struct DurationCache {
    capacity: usize,
    keys: Vec<String>,
    values: Vec<Option<Duration>>,
    next: usize,
}

impl DurationCache {
    /// Every entry holds what its expression denotes.
    pub closed spec fn wf(&self) -> bool {
        &&& 1 <= self.capacity <= MAX_CACHED
        &&& self.keys@.len() == self.values@.len()
        &&& self.keys@.len() <= self.capacity
        &&& self.next < self.capacity
        &&& forall|i: int|
            0 <= i < self.keys@.len() ==> (#[trigger] self.values@[i]) == parse_spec(
                encode_utf8(self.keys@[i]@),
            )
        &&& forall|i: int|
            0 <= i < self.values@.len() ==> ((#[trigger] self.values@[i]) matches Some(d)
                ==> d.wf())
    }

    /// An empty cache for a column of `rows` rows: it holds up to the
    /// square root of `rows` expressions, at least one and at most
    /// [`MAX_CACHED`].
    pub fn new(rows: usize) -> (cache: DurationCache)
        ensures
            cache.wf(),
    {
        let root: usize = integer_sqrt(rows);
        let capacity: usize = if root < 1 {
            1
        } else if root > MAX_CACHED {
            MAX_CACHED
        } else {
            root
        };
        DurationCache { capacity, keys: Vec::new(), values: Vec::new(), next: 0 }
    }

    /// The duration that `text` denotes, parsed only where the cache does
    /// not hold it.
    pub fn get_or_insert(&mut self, text: &str) -> (r: Option<Duration>)
        requires
            old(self).wf(),
        ensures
            final(self).wf(),
            r == parse_spec(encode_utf8(text@)),
            r matches Some(d) ==> d.wf(),
    {
        let key: String = text.to_owned();
        let mut i: usize = 0;
        while i < self.keys.len()
            invariant
                self.wf(),
                key@ == text@,
                i <= self.keys@.len(),
            decreases self.keys@.len() - i,
        {
            if self.keys[i] == key {
                return self.values[i];
            }
            i = i + 1;
        }
        let parsed: Option<Duration> = Duration::parse_bytes(text.as_bytes());
        if self.keys.len() < self.capacity {
            self.keys.push(key);
            self.values.push(parsed);
        } else {
            let slot: usize = self.next;
            self.keys.set(slot, key);
            self.values.set(slot, parsed);
            self.next = if slot + 1 < self.capacity {
                slot + 1
            } else {
                0
            };
        }
        parsed
    }
}

} // verus!
