//! The mathematical model of one benchmark run: what a batch of keys is, what
//! the container holds after the insert pass, and what checksum the lookup
//! pass accumulates.

use vstd::prelude::*;

verus! {

/// The byte sequences of a key batch, one per key, in order.
pub open spec fn keys_view(keys: Seq<Vec<u8>>) -> Seq<Seq<u8>> {
    keys.map_values(|k: Vec<u8>| k@)
}

/// The contents of a container after inserting every key of `ks` in order,
/// each mapped to `value`, on top of the starting contents `base`. A repeated
/// key overwrites the entry it collides with.
pub open spec fn after_inserts(
    base: Map<Seq<u8>, u64>,
    ks: Seq<Seq<u8>>,
    value: u64,
) -> Map<Seq<u8>, u64>
    decreases ks.len(),
{
    if ks.len() == 0 {
        base
    } else {
        after_inserts(base, ks.drop_last(), value).insert(ks.last(), value)
    }
}

/// The checksum a lookup pass accumulates over `ks` against contents `m`: the
/// sum of the values found, in order; a key that is absent adds nothing.
pub open spec fn found_sum(m: Map<Seq<u8>, u64>, ks: Seq<Seq<u8>>) -> int
    decreases ks.len(),
{
    if ks.len() == 0 {
        0
    } else {
        found_sum(m, ks.drop_last()) + (if m.dom().contains(ks.last()) {
            m[ks.last()] as int
        } else {
            0
        })
    }
}

/// Stepping a prefix of a batch: taking one more element appends exactly the
/// element at the old boundary.
pub proof fn lemma_take_step(ks: Seq<Seq<u8>>, i: int)
    requires
        0 <= i < ks.len(),
    ensures
        ks.take(i + 1).drop_last() =~= ks.take(i),
        ks.take(i + 1).last() == ks[i],
{
}

/// The keys present after an insert pass are the starting keys together with
/// the keys of the batch.
pub proof fn lemma_after_inserts_dom(base: Map<Seq<u8>, u64>, ks: Seq<Seq<u8>>, value: u64)
    ensures
        after_inserts(base, ks, value).dom() =~= base.dom() + ks.to_set(),
    decreases ks.len(),
{
    if ks.len() == 0 {
        assert forall|x: Seq<u8>| !ks.to_set().contains(x) by {
            assert(!ks.contains(x));
        }
    } else {
        lemma_after_inserts_dom(base, ks.drop_last(), value);
        assert(ks.drop_last().to_set().insert(ks.last()) =~= ks.to_set()) by {
            assert forall|x: Seq<u8>|
                ks.to_set().contains(x) implies ks.drop_last().to_set().insert(
                ks.last(),
            ).contains(x) by {
                let i = choose|i: int| 0 <= i < ks.len() && ks[i] == x;
                if i < ks.len() - 1 {
                    assert(ks.drop_last()[i] == x);
                    assert(ks.drop_last().contains(x));
                }
            }
            assert forall|x: Seq<u8>|
                ks.drop_last().to_set().insert(ks.last()).contains(x) implies ks.to_set().contains(
                x,
            ) by {
                if x == ks.last() {
                    assert(ks[ks.len() - 1] == x);
                } else {
                    let i = choose|i: int|
                        0 <= i < ks.drop_last().len() && ks.drop_last()[i] == x;
                    assert(ks[i] == x);
                }
                assert(ks.contains(x));
            }
        }
    }
}

/// Round trip: every key of the batch is present afterwards and maps to the
/// inserted value, whether or not it collided with an earlier key.
pub proof fn lemma_after_inserts_round_trip(base: Map<Seq<u8>, u64>, ks: Seq<Seq<u8>>, value: u64)
    ensures
        forall|i: int|
            0 <= i < ks.len() ==> after_inserts(base, ks, value).dom().contains(#[trigger] ks[i])
                && after_inserts(base, ks, value)[ks[i]] == value,
    decreases ks.len(),
{
    if ks.len() > 0 {
        lemma_after_inserts_round_trip(base, ks.drop_last(), value);
        assert forall|i: int|
            0 <= i < ks.len() implies after_inserts(base, ks, value).dom().contains(
            #[trigger] ks[i],
        ) && after_inserts(base, ks, value)[ks[i]] == value by {
            if i < ks.len() - 1 {
                assert(ks.drop_last()[i] == ks[i]);
            } else {
                assert(ks[i] == ks.last());
            }
        }
    }
}

/// A pass that inserts one fixed value into a container holding nothing but
/// that value leaves only that value behind.
pub proof fn lemma_after_inserts_values(base: Map<Seq<u8>, u64>, ks: Seq<Seq<u8>>, value: u64)
    requires
        forall|s: Seq<u8>| base.dom().contains(s) ==> #[trigger] base[s] == value,
    ensures
        forall|s: Seq<u8>|
            after_inserts(base, ks, value).dom().contains(s) ==> #[trigger] after_inserts(
                base,
                ks,
                value,
            )[s] == value,
    decreases ks.len(),
{
    if ks.len() > 0 {
        lemma_after_inserts_values(base, ks.drop_last(), value);
        let prev = after_inserts(base, ks.drop_last(), value);
        let cur = after_inserts(base, ks, value);
        assert forall|s: Seq<u8>| cur.dom().contains(s) implies #[trigger] cur[s] == value by {
            if s != ks.last() {
                assert(prev.dom().contains(s));
                assert(prev[s] == value);
            }
        }
    }
}

/// A batch without duplicate keys inserted into an empty container fills it
/// with exactly one entry per key.
pub proof fn lemma_distinct_keys_fill(ks: Seq<Seq<u8>>, value: u64)
    requires
        ks.no_duplicates(),
    ensures
        after_inserts(Map::<Seq<u8>, u64>::empty(), ks, value).dom().finite(),
        after_inserts(Map::<Seq<u8>, u64>::empty(), ks, value).dom().len() == ks.len(),
{
    broadcast use vstd::seq_lib::seq_to_set_is_finite;

    lemma_after_inserts_dom(Map::<Seq<u8>, u64>::empty(), ks, value);
    ks.unique_seq_to_set();
    assert(Map::<Seq<u8>, u64>::empty().dom() + ks.to_set() =~= ks.to_set());
}

/// A batch of zero-length keys inserted into an empty container collides down
/// to a single entry: the empty key, mapped to the inserted value.
pub proof fn lemma_zero_size_keys_collide(ks: Seq<Seq<u8>>, value: u64)
    requires
        ks.len() > 0,
        forall|i: int| 0 <= i < ks.len() ==> #[trigger] ks[i].len() == 0,
    ensures
        after_inserts(Map::<Seq<u8>, u64>::empty(), ks, value).dom().finite(),
        after_inserts(Map::<Seq<u8>, u64>::empty(), ks, value).dom().len() == 1,
        after_inserts(Map::<Seq<u8>, u64>::empty(), ks, value).dom().contains(Seq::<u8>::empty()),
        after_inserts(Map::<Seq<u8>, u64>::empty(), ks, value)[Seq::<u8>::empty()] == value,
{
    lemma_after_inserts_dom(Map::<Seq<u8>, u64>::empty(), ks, value);
    lemma_after_inserts_round_trip(Map::<Seq<u8>, u64>::empty(), ks, value);
    assert(ks[0] =~= Seq::<u8>::empty());
    assert(ks.to_set() =~= set![Seq::<u8>::empty()]) by {
        assert forall|x: Seq<u8>| ks.to_set().contains(x) implies x == Seq::<u8>::empty() by {
            let i = choose|i: int| 0 <= i < ks.len() && ks[i] == x;
            assert(ks[i].len() == 0);
            assert(x =~= Seq::<u8>::empty());
        }
        assert(ks.contains(ks[0]));
    }
    assert(Map::<Seq<u8>, u64>::empty().dom() + ks.to_set() =~= set![Seq::<u8>::empty()]);
    assert(set![Seq::<u8>::empty()].len() == 1);
}

/// Checksum law: when every key of the batch is present and maps to `1`, the
/// lookup checksum is exactly the number of keys looked up.
pub proof fn lemma_found_sum_all_found(m: Map<Seq<u8>, u64>, ks: Seq<Seq<u8>>)
    requires
        forall|i: int|
            0 <= i < ks.len() ==> m.dom().contains(#[trigger] ks[i]) && m[ks[i]] == 1,
    ensures
        found_sum(m, ks) == ks.len(),
    decreases ks.len(),
{
    if ks.len() > 0 {
        assert forall|i: int|
            0 <= i < ks.drop_last().len() implies m.dom().contains(#[trigger] ks.drop_last()[i])
            && m[ks.drop_last()[i]] == 1 by {
            assert(ks.drop_last()[i] == ks[i]);
        }
        lemma_found_sum_all_found(m, ks.drop_last());
        assert(ks[ks.len() - 1] == ks.last());
    }
}

} // verus!
