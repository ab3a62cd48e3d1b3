//! The two timed passes of a benchmark run.
//!
//! Each pass walks the key batch in order, times one container operation per
//! key against the monotonic clock, and accumulates the elapsed nanoseconds.
//! The clock readings are outside the logic; what each pass does to the
//! container and to the checksum is verified for every possible reading.

use crate::clock::{accumulate_ns, clock_elapsed, clock_now, duration_nanos};
use crate::containers::KeyedContainer;
use crate::model::{after_inserts, found_sum, keys_view, lemma_take_step};
use vstd::prelude::*;

verus! {

/// The value every key is mapped to: fixed, so that the lookup checksum
/// counts successful lookups.
pub const STORED_VALUE: u64 = 1;

/// The timed insert pass: inserts every key of the batch in order, each
/// mapped to `STORED_VALUE`, timing each insert; the total elapsed
/// nanoseconds come back.
pub fn timed_insert_pass<M: KeyedContainer>(m: &mut M, keys: &Vec<Vec<u8>>) -> (total_ns: u128)
    ensures
        final(m).contents() == after_inserts(old(m).contents(), keys_view(keys@), STORED_VALUE),
{
    let ghost base = old(m).contents();
    let ghost kv = keys_view(keys@);
    let mut total: u128 = 0;
    let n = keys.len();
    for i in 0..n
        invariant
            n == keys.len(),
            kv == keys_view(keys@),
            kv.len() == n,
            m.contents() == after_inserts(base, kv.take(i as int), STORED_VALUE),
    {
        let started = clock_now();
        m.insert(&keys[i], STORED_VALUE);
        let elapsed = clock_elapsed(&started);
        total = accumulate_ns(total, duration_nanos(&elapsed));
        proof {
            lemma_take_step(kv, i as int);
            assert(kv[i as int] == keys@[i as int]@);
        }
    }
    proof {
        assert(kv.take(n as int) =~= kv);
    }
    total
}

/// The timed lookup pass: looks every key of the batch up in order, timing
/// each lookup, and accumulates the values found into a checksum, so that no
/// lookup result goes unobserved. The total elapsed nanoseconds and the
/// checksum come back.
///
/// The container holds nothing but `STORED_VALUE`, as the insert pass leaves
/// it; the checksum therefore counts the lookups that found their key, and
/// cannot overflow.
pub fn timed_lookup_pass<M: KeyedContainer>(m: &M, keys: &Vec<Vec<u8>>) -> (r: (u128, u64))
    requires
        forall|s: Seq<u8>|
            m.contents().dom().contains(s) ==> #[trigger] m.contents()[s] == STORED_VALUE,
    ensures
        r.1 as int == found_sum(m.contents(), keys_view(keys@)),
{
    let ghost kv = keys_view(keys@);
    let mut total: u128 = 0;
    let mut checksum: u64 = 0;
    let n = keys.len();
    for i in 0..n
        invariant
            n == keys.len(),
            kv == keys_view(keys@),
            kv.len() == n,
            forall|s: Seq<u8>|
                m.contents().dom().contains(s) ==> #[trigger] m.contents()[s] == STORED_VALUE,
            checksum as int == found_sum(m.contents(), kv.take(i as int)),
            checksum <= i,
    {
        let started = clock_now();
        let found = m.get(&keys[i]);
        if let Some(value) = found {
            checksum = checksum + value;
        }
        let elapsed = clock_elapsed(&started);
        total = accumulate_ns(total, duration_nanos(&elapsed));
        proof {
            lemma_take_step(kv, i as int);
            assert(kv[i as int] == keys@[i as int]@);
        }
    }
    proof {
        assert(kv.take(n as int) =~= kv);
    }
    (total, checksum)
}

} // verus!
