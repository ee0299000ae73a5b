//! Time-ordered unique identifiers for records.
//!
//! An identifier renders a 64-bit key as a fixed-width decimal string, so the
//! lexicographic order of identifiers equals the numeric order of keys. Keys
//! are derived from the event-arrival clock (epoch milliseconds) with a
//! per-millisecond sequence component, and never repeat or decrease, which
//! makes identifiers usable as storage sort keys that approximate creation
//! time order.

use vstd::prelude::*;
use crate::text::{lex_lt, lemma_lex_ne, lemma_padded_lt, lemma_padded_len, pow10, spec_padded,
    u64_padded};

verus! {

/// Identifiers hold this many decimal digits; every 64-bit key fits.
pub const ID_WIDTH: usize = 20;

/// Upper bound on the clock input, so that `ms * 1_000_000` fits in 64 bits.
pub const MAX_ID_MS: u64 = 17_000_000_000_000;

/// The rendering of key `k` as an identifier string.
pub open spec fn spec_id(k: u64) -> Seq<char> {
    spec_padded(k as nat, ID_WIDTH as nat)
}

/// Generator of strictly increasing identifier keys.
pub struct IdGenerator {
    last: u64,
}

impl IdGenerator {
    /// The key handed out by the most recent generation, zero initially.
    pub closed spec fn key(self) -> u64 {
        self.last
    }

    pub fn new() -> (r: Self)
        ensures
            r.key() == 0,
    {
        IdGenerator { last: 0 }
    }

    /// Generate the next identifier: the key jumps to the current time slot
    /// when the clock has advanced past every key handed out so far, and
    /// otherwise takes the next sequence value, so keys strictly increase.
    pub fn next_id(&mut self, now_ms: u64) -> (id: String)
        requires
            now_ms <= MAX_ID_MS,
            old(self).key() < u64::MAX,
        ensures
            final(self).key() == if now_ms * 1_000_000 > old(self).key() {
                now_ms * 1_000_000
            } else {
                old(self).key() + 1
            },
            final(self).key() > old(self).key(),
            id@ == spec_id(final(self).key()),
            id@.len() == ID_WIDTH as nat,
    {
        let candidate: u64 = now_ms * 1_000_000;
        let key: u64 = if candidate > self.last {
            candidate
        } else {
            self.last + 1
        };
        self.last = key;
        let id = u64_padded(key, ID_WIDTH);
        proof {
            lemma_padded_len(key as nat, ID_WIDTH as nat);
        }
        id
    }
}

/// Every 64-bit value fits in `ID_WIDTH` decimal digits.
pub proof fn lemma_u64_fits_id_width(k: u64)
    ensures
        (k as nat) < pow10(ID_WIDTH as nat),
{
    reveal_with_fuel(pow10, 21);
    assert(pow10(20) > 0xffff_ffff_ffff_ffff);
}

/// Any run of generations yields pairwise distinct identifiers, lexically
/// increasing in generation order: the strictly increasing keys of the run
/// render to strictly increasing identifier strings.
pub proof fn lemma_id_run_distinct(keys: Seq<u64>)
    requires
        forall|i: int, j: int| 0 <= i < j < keys.len() ==> keys[i] < keys[j],
    ensures
        forall|i: int, j: int|
            #![trigger spec_id(keys[i]), spec_id(keys[j])]
            0 <= i < j < keys.len() ==> lex_lt(spec_id(keys[i]), spec_id(keys[j])) && spec_id(
                keys[i],
            ) != spec_id(keys[j]),
{
    assert forall|i: int, j: int|
        #![trigger spec_id(keys[i]), spec_id(keys[j])]
        0 <= i < j < keys.len() implies lex_lt(spec_id(keys[i]), spec_id(keys[j])) && spec_id(
        keys[i],
    ) != spec_id(keys[j]) by {
        lemma_id_time_ordered(keys[i], keys[j]);
    }
}

/// Identifiers are time-ordered: a smaller key renders to a lexicographically
/// smaller identifier, and distinct keys render to distinct identifiers — so
/// successive generations yield distinct, lexically increasing identifiers.
pub proof fn lemma_id_time_ordered(k1: u64, k2: u64)
    requires
        k1 < k2,
    ensures
        lex_lt(spec_id(k1), spec_id(k2)),
        spec_id(k1) != spec_id(k2),
{
    lemma_u64_fits_id_width(k2);
    lemma_padded_lt(k1 as nat, k2 as nat, ID_WIDTH as nat);
    lemma_lex_ne(spec_id(k1), spec_id(k2));
}

} // verus!
