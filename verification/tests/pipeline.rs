use map_bench::containers::{FnvMap, GeneralMap};
use map_bench::driver::{run_sweep, run_variant, KEY_COUNT};
use map_bench::report::{ContainerVariant, PassOperation, PassReport};

#[test]
fn report_average_is_total_over_count() {
    let r = PassReport::new(
        ContainerVariant::General,
        PassOperation::Insert,
        16,
        4,
        1000,
        None,
    );
    assert_eq!(r.total_ns, 1000);
    assert_eq!(r.average_ns, 250);
    assert_eq!(r.checksum, None);
}

#[test]
fn report_average_rounds_down() {
    let r = PassReport::new(
        ContainerVariant::Fnv,
        PassOperation::Lookup,
        0,
        3,
        7,
        Some(3),
    );
    assert_eq!(r.average_ns, 2);
    assert_eq!(r.checksum, Some(3));
}

#[test]
fn full_run_distinct_keys() {
    // n = 10000 sixteen-byte keys: the container fills completely and the
    // lookup checksum counts every key.
    let mut rng = rand::thread_rng();
    let (ins, look) = run_variant::<GeneralMap>(&mut rng, ContainerVariant::General, 10000, 16);
    assert_eq!(ins.count, 10000);
    assert_eq!(ins.checksum, None);
    assert_eq!(look.checksum, Some(10000));
    assert_eq!(look.average_ns, look.total_ns / 10000);
}

#[test]
fn full_run_zero_size_keys() {
    // n = 10000 empty keys all collide, yet every lookup finds the single
    // entry and the checksum still counts every key.
    let mut rng = rand::thread_rng();
    let (ins, look) = run_variant::<FnvMap>(&mut rng, ContainerVariant::Fnv, 10000, 0);
    assert_eq!(ins.key_size, 0);
    assert_eq!(look.checksum, Some(10000));
}

#[test]
fn sweep_emits_forty_four_reports_in_order() {
    let reports = run_sweep();
    assert_eq!(reports.len(), 44);
    let sizes = [1usize, 2, 4, 8, 16, 32, 64, 128, 256, 512, 1024];
    for (j, key_size) in sizes.iter().enumerate() {
        let slot = &reports[4 * j..4 * j + 4];
        for r in slot {
            assert_eq!(r.key_size, *key_size);
            assert_eq!(r.count, KEY_COUNT);
            assert_eq!(r.average_ns, r.total_ns / KEY_COUNT as u128);
        }
        assert_eq!(slot[0].variant, ContainerVariant::General);
        assert_eq!(slot[0].operation, PassOperation::Insert);
        assert_eq!(slot[0].checksum, None);
        assert_eq!(slot[1].variant, ContainerVariant::General);
        assert_eq!(slot[1].operation, PassOperation::Lookup);
        assert_eq!(slot[1].checksum, Some(KEY_COUNT as u64));
        assert_eq!(slot[2].variant, ContainerVariant::Fnv);
        assert_eq!(slot[2].operation, PassOperation::Insert);
        assert_eq!(slot[2].checksum, None);
        assert_eq!(slot[3].variant, ContainerVariant::Fnv);
        assert_eq!(slot[3].operation, PassOperation::Lookup);
        assert_eq!(slot[3].checksum, Some(KEY_COUNT as u64));
    }
}
