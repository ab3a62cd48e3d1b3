//! The driver: sweeps the fixed list of key sizes and, for each, runs the
//! full pipeline once per container variant — the general map first, the FNV
//! map second, each over a freshly generated key batch.

use crate::containers::{no_entries, FnvMap, GeneralMap, KeyedContainer};
use crate::keygen::{fresh_rng, generate_keys};
use crate::model::{
    found_sum, keys_view, lemma_after_inserts_round_trip, lemma_after_inserts_values,
    lemma_found_sum_all_found,
};
use crate::passes::{timed_insert_pass, timed_lookup_pass, STORED_VALUE};
use crate::report::{ContainerVariant, PassOperation, PassReport};
use vstd::prelude::*;

verus! {

/// How many keys every batch holds.
pub const KEY_COUNT: usize = 10000;

/// The fixed key-size sweep, in bytes, smallest first.
pub open spec fn sweep_sizes_spec() -> Seq<usize> {
    seq![
        1usize,
        2usize,
        4usize,
        8usize,
        16usize,
        32usize,
        64usize,
        128usize,
        256usize,
        512usize,
        1024usize,
    ]
}

/// The key-size sweep as a vector, matching `sweep_sizes_spec`.
pub fn sweep_sizes() -> (sizes: Vec<usize>)
    ensures
        sizes@ == sweep_sizes_spec(),
{
    let sizes: Vec<usize> = vec![1, 2, 4, 8, 16, 32, 64, 128, 256, 512, 1024];
    proof {
        assert(sizes@ =~= sweep_sizes_spec());
    }
    sizes
}

/// What the two reports of one pipeline run say: the insert report and the
/// lookup report carry the run's variant, key size and count, each average is
/// the total over the count, only the lookup report carries a checksum, and
/// that checksum equals the count — every lookup found its key.
pub open spec fn pass_pair_ok(
    ins: PassReport,
    look: PassReport,
    variant: ContainerVariant,
    key_size: usize,
    n: usize,
) -> bool {
    &&& ins.variant == variant
    &&& ins.operation == PassOperation::Insert
    &&& ins.key_size == key_size
    &&& ins.count == n
    &&& ins.average_ns == ins.total_ns / (n as u128)
    &&& ins.checksum == None::<u64>
    &&& look.variant == variant
    &&& look.operation == PassOperation::Lookup
    &&& look.key_size == key_size
    &&& look.count == n
    &&& look.average_ns == look.total_ns / (n as u128)
    &&& look.checksum == Some(n as u64)
}

/// One pipeline run for one container variant at one key size: a fresh empty
/// container, a fresh random batch, the timed insert pass, the timed lookup
/// pass, and one report per pass.
pub fn run_variant<M: KeyedContainer>(
    rng: &mut rand::rngs::ThreadRng,
    variant: ContainerVariant,
    n: usize,
    key_size: usize,
) -> (r: (PassReport, PassReport))
    requires
        n >= 1,
    ensures
        pass_pair_ok(r.0, r.1, variant, key_size, n),
{
    let mut m = M::with_capacity(n);
    let keys = generate_keys(rng, n, key_size);
    let total_insert_ns = timed_insert_pass(&mut m, &keys);
    proof {
        lemma_after_inserts_values(no_entries(), keys_view(keys@), STORED_VALUE);
        lemma_after_inserts_round_trip(no_entries(), keys_view(keys@), STORED_VALUE);
    }
    let (total_lookup_ns, checksum) = timed_lookup_pass(&m, &keys);
    proof {
        lemma_found_sum_all_found(m.contents(), keys_view(keys@));
        assert(found_sum(m.contents(), keys_view(keys@)) == n);
    }
    let insert_report = PassReport::new(
        variant,
        PassOperation::Insert,
        key_size,
        n,
        total_insert_ns,
        None,
    );
    let lookup_report = PassReport::new(
        variant,
        PassOperation::Lookup,
        key_size,
        n,
        total_lookup_ns,
        Some(checksum),
    );
    (insert_report, lookup_report)
}

/// What the four reports of one sweep slot say: the general variant's insert
/// and lookup reports come first, the FNV variant's second, all four at the
/// slot's key size and over `KEY_COUNT` keys.
pub open spec fn sweep_slot_ok(rs: Seq<PassReport>, j: int) -> bool {
    &&& pass_pair_ok(
        rs[4 * j],
        rs[4 * j + 1],
        ContainerVariant::General,
        sweep_sizes_spec()[j],
        KEY_COUNT,
    )
    &&& pass_pair_ok(
        rs[4 * j + 2],
        rs[4 * j + 3],
        ContainerVariant::Fnv,
        sweep_sizes_spec()[j],
        KEY_COUNT,
    )
}

/// The whole sweep: for each key size in order, one pipeline run per
/// container variant, each over a freshly generated batch. Exactly four
/// reports per key size come back, in the fixed order.
pub fn run_sweep() -> (reports: Vec<PassReport>)
    ensures
        reports@.len() == 4 * sweep_sizes_spec().len(),
        forall|j: int| 0 <= j < sweep_sizes_spec().len() ==> #[trigger] sweep_slot_ok(reports@, j),
{
    let mut rng = fresh_rng();
    let sizes = sweep_sizes();
    let mut reports: Vec<PassReport> = Vec::new();
    let n_sizes = sizes.len();
    for j in 0..n_sizes
        invariant
            sizes@ == sweep_sizes_spec(),
            n_sizes == sizes@.len(),
            reports@.len() == 4 * j,
            forall|p: int| 0 <= p < j ==> #[trigger] sweep_slot_ok(reports@, p),
    {
        let ghost before = reports@;
        let key_size = sizes[j];
        let (general_insert, general_lookup) = run_variant::<GeneralMap>(
            &mut rng,
            ContainerVariant::General,
            KEY_COUNT,
            key_size,
        );
        reports.push(general_insert);
        reports.push(general_lookup);
        let (fnv_insert, fnv_lookup) = run_variant::<FnvMap>(
            &mut rng,
            ContainerVariant::Fnv,
            KEY_COUNT,
            key_size,
        );
        reports.push(fnv_insert);
        reports.push(fnv_lookup);
        proof {
            assert forall|p: int| 0 <= p <= j implies #[trigger] sweep_slot_ok(reports@, p) by {
                if p < j {
                    assert(sweep_slot_ok(before, p));
                    assert(reports@[4 * p] == before[4 * p]);
                    assert(reports@[4 * p + 1] == before[4 * p + 1]);
                    assert(reports@[4 * p + 2] == before[4 * p + 2]);
                    assert(reports@[4 * p + 3] == before[4 * p + 3]);
                } else {
                    assert(reports@[4 * p] == general_insert);
                    assert(reports@[4 * p + 1] == general_lookup);
                    assert(reports@[4 * p + 2] == fnv_insert);
                    assert(reports@[4 * p + 3] == fnv_lookup);
                }
            }
        }
    }
    reports
}

} // verus!
