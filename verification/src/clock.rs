//! The hash clock: a sequential chain of hashes that stands in for elapsed
//! time. Each tick hashes the current hash together with the current count,
//! so a run of ticks can be recomputed and checked by anyone who knows where
//! it started.

use crate::digest::{hash_hex, hash_text};
use crate::encoding::{append_bytes, append_decimal, decimal_text, zero_text, zeros};
use vstd::prelude::*;
use vstd::utf8::encode_utf8;

verus! {

/// The advisory pacing hint of a new clock, in hashes per second.
pub const DEFAULT_TICK_RATE: u64 = 1_000_000;

/// The number of characters in a stored hash.
pub const HASH_CHARS: usize = 64;

/// The bytes that one tick hashes: the UTF-8 bytes of the current hash,
/// followed by the current count in decimal text.
pub open spec fn tick_input(hash: Seq<char>, count: nat) -> Seq<u8> {
    encode_utf8(hash) + decimal_text(count)
}

/// The hash that a tick produces from the state `(hash, count)`.
pub open spec fn tick_hash(hash: Seq<char>, count: nat) -> Seq<char> {
    hash_text(tick_input(hash, count))
}

/// The state of a hash clock as a mathematical value.
pub struct ClockView {
    pub current_hash: Seq<char>,
    pub count: nat,
    pub tick_rate: nat,
}

impl ClockView {
    /// The clock before its first tick.
    pub open spec fn initial() -> ClockView {
        ClockView { current_hash: zeros(64), count: 0, tick_rate: 1_000_000 }
    }

    /// The clock after one more tick.
    pub open spec fn tick(self) -> ClockView {
        ClockView {
            current_hash: tick_hash(self.current_hash, self.count),
            count: self.count + 1,
            tick_rate: self.tick_rate,
        }
    }

    /// The clock after `n` more ticks.
    pub open spec fn ticks(self, n: nat) -> ClockView
        decreases n,
    {
        if n == 0 {
            self
        } else {
            self.ticks((n - 1) as nat).tick()
        }
    }
}

/// Whether the stamp `(hash, count)` is what one tick makes of the clock
/// state `(previous_hash, count - 1)`.
pub open spec fn stamp_follows(previous_hash: Seq<char>, hash: Seq<char>, count: nat) -> bool {
    count >= 1 && hash == tick_hash(previous_hash, (count - 1) as nat)
}

/// A recorded tick as a mathematical value: the hash and the count.
pub type StampView = (Seq<char>, u64);

/// The recorded ticks of `entries` as mathematical values, in order.
pub open spec fn stamp_views(entries: Seq<(String, u64)>) -> Seq<StampView> {
    entries.map_values(|e: (String, u64)| (e.0@, e.1))
}

/// The hash that entry `i` of a tick sequence was computed from.
pub open spec fn previous_hash_at(start_hash: Seq<char>, entries: Seq<StampView>, i: int) -> Seq<
    char,
> {
    if i == 0 {
        start_hash
    } else {
        entries[i - 1].0
    }
}

/// Whether entry `i` continues the tick sequence: it is one tick after the
/// hash before it, and its count is one more than the count before it.
pub open spec fn entry_follows(start_hash: Seq<char>, entries: Seq<StampView>, i: int) -> bool {
    &&& stamp_follows(previous_hash_at(start_hash, entries, i), entries[i].0, entries[i].1 as nat)
    &&& i > 0 ==> entries[i].1 == entries[i - 1].1 + 1
}

/// Whether `entries` is an unbroken run of ticks starting from `start_hash`:
/// no tick skipped, reordered or replayed.
pub open spec fn ticks_follow(start_hash: Seq<char>, entries: Seq<StampView>) -> bool {
    forall|i: int| 0 <= i < entries.len() ==> entry_follows(start_hash, entries, i)
}

/// The hash clock.
#[derive(Debug)]
pub struct PoHVerifier {
    pub current_hash: String,
    pub count: u64,
    pub tick_rate: u64,
}

impl View for PoHVerifier {
    type V = ClockView;

    open spec fn view(&self) -> ClockView {
        ClockView {
            current_hash: self.current_hash@,
            count: self.count as nat,
            tick_rate: self.tick_rate as nat,
        }
    }
}

/// Computes the hash of the tick that leaves the state `(hash, count)`.
pub fn compute_tick(hash: &str, count: u64) -> (next: String)
    ensures
        next@ == tick_hash(hash@, count as nat),
        next@.len() == 64,
{
    let mut input: Vec<u8> = Vec::new();
    append_bytes(&mut input, hash.as_bytes());
    append_decimal(&mut input, count);
    hash_hex(input.as_slice())
}

impl PoHVerifier {
    /// A clock that has not ticked: 64 zero characters, count zero.
    pub fn new() -> (clock: PoHVerifier)
        ensures
            clock@ == ClockView::initial(),
    {
        PoHVerifier {
            current_hash: zero_text(HASH_CHARS),
            count: 0,
            tick_rate: DEFAULT_TICK_RATE,
        }
    }

    /// One tick: hashes the current hash with the current count, stores the
    /// result, raises the count by exactly one, and returns the new pair.
    pub fn generate_hash(&mut self) -> (stamp: (String, u64))
        requires
            old(self).count < u64::MAX,
        ensures
            final(self)@ == old(self)@.tick(),
            stamp.0@ == final(self)@.current_hash,
            stamp.0@.len() == 64,
            stamp.1 == old(self).count + 1,
    {
        let next = compute_tick(self.current_hash.as_str(), self.count);
        self.current_hash = next.clone();
        self.count = self.count + 1;
        (next, self.count)
    }

    /// Recomputes a run of ticks from `start_hash` and reports whether every
    /// entry is the tick that follows the one before it.
    pub fn verify(entries: &Vec<(String, u64)>, start_hash: &str) -> (ok: bool)
        ensures
            ok == ticks_follow(start_hash@, stamp_views(entries@)),
    {
        let ghost stamps = stamp_views(entries@);
        let mut i: usize = 0;
        while i < entries.len()
            invariant
                i <= entries.len(),
                stamps == stamp_views(entries@),
                forall|k: int| 0 <= k < i ==> entry_follows(start_hash@, stamps, k),
            decreases entries.len() - i,
        {
            let count: u64 = entries[i].1;
            if count == 0 {
                assert(!entry_follows(start_hash@, stamps, i as int));
                return false;
            }
            if i > 0 {
                if entries[i - 1].1 == u64::MAX || count != entries[i - 1].1 + 1 {
                    assert(!entry_follows(start_hash@, stamps, i as int));
                    return false;
                }
            }
            let expected = if i == 0 {
                compute_tick(start_hash, count - 1)
            } else {
                compute_tick(entries[i - 1].0.as_str(), count - 1)
            };
            if expected != entries[i].0 {
                assert(!entry_follows(start_hash@, stamps, i as int));
                return false;
            }
            i += 1;
        }
        true
    }
}

} // verus!
