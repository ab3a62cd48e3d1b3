use map_bench::containers::{FnvMap, GeneralMap, KeyedContainer};
use map_bench::keygen::generate_keys;
use map_bench::passes::{timed_insert_pass, timed_lookup_pass};

#[test]
fn generator_yields_exact_counts() {
    let mut rng = rand::thread_rng();
    let keys = generate_keys(&mut rng, 100, 16);
    assert_eq!(keys.len(), 100);
    for key in &keys {
        assert_eq!(key.len(), 16);
    }
}

#[test]
fn generator_accepts_zero_count() {
    let mut rng = rand::thread_rng();
    let keys = generate_keys(&mut rng, 0, 16);
    assert!(keys.is_empty());
}

#[test]
fn generator_accepts_zero_key_size() {
    let mut rng = rand::thread_rng();
    let keys = generate_keys(&mut rng, 5, 0);
    assert_eq!(keys.len(), 5);
    for key in &keys {
        assert!(key.is_empty());
    }
}

#[test]
fn empty_general_map_finds_nothing() {
    let m = GeneralMap::with_capacity(4);
    assert_eq!(m.len(), 0);
    assert_eq!(m.get(&vec![1u8, 2, 3]), None);
}

#[test]
fn empty_fnv_map_finds_nothing() {
    let m = FnvMap::with_capacity(4);
    assert_eq!(m.len(), 0);
    assert_eq!(m.get(&vec![1u8, 2, 3]), None);
}

#[test]
fn insert_then_get_general() {
    let mut m = GeneralMap::with_capacity(4);
    m.insert(&vec![9u8, 8, 7], 1);
    assert_eq!(m.len(), 1);
    assert_eq!(m.get(&vec![9u8, 8, 7]), Some(1));
    assert_eq!(m.get(&vec![9u8, 8, 6]), None);
}

#[test]
fn insert_then_get_fnv() {
    let mut m = FnvMap::with_capacity(4);
    m.insert(&vec![9u8, 8, 7], 1);
    assert_eq!(m.len(), 1);
    assert_eq!(m.get(&vec![9u8, 8, 7]), Some(1));
    assert_eq!(m.get(&vec![9u8, 8, 6]), None);
}

#[test]
fn insert_overwrites_colliding_key() {
    let mut m = GeneralMap::with_capacity(4);
    m.insert(&vec![5u8], 1);
    m.insert(&vec![5u8], 1);
    assert_eq!(m.len(), 1);
    assert_eq!(m.get(&vec![5u8]), Some(1));
}

#[test]
fn insert_pass_fills_distinct_keys() {
    // 16-byte random keys are collision-free in any realistic draw.
    let mut rng = rand::thread_rng();
    let keys = generate_keys(&mut rng, 1000, 16);
    let mut m = GeneralMap::with_capacity(1000);
    timed_insert_pass(&mut m, &keys);
    assert_eq!(m.len(), 1000);
}

#[test]
fn insert_pass_collapses_empty_keys() {
    let mut rng = rand::thread_rng();
    let keys = generate_keys(&mut rng, 1000, 0);
    let mut m = FnvMap::with_capacity(1000);
    timed_insert_pass(&mut m, &keys);
    assert_eq!(m.len(), 1);
    assert_eq!(m.get(&Vec::new()), Some(1));
}

#[test]
fn every_inserted_key_looks_up_as_one() {
    let mut rng = rand::thread_rng();
    let keys = generate_keys(&mut rng, 500, 8);
    let mut m = GeneralMap::with_capacity(500);
    timed_insert_pass(&mut m, &keys);
    for key in &keys {
        assert_eq!(m.get(key), Some(1));
    }
}

#[test]
fn lookup_pass_checksum_counts_every_key() {
    let mut rng = rand::thread_rng();
    let keys = generate_keys(&mut rng, 2000, 16);
    let mut m = FnvMap::with_capacity(2000);
    timed_insert_pass(&mut m, &keys);
    let (_total_ns, checksum) = timed_lookup_pass(&m, &keys);
    assert_eq!(checksum, 2000);
}

#[test]
fn lookup_pass_checksum_counts_collided_batch() {
    // All-empty keys collide into one entry, yet every lookup still finds it.
    let mut rng = rand::thread_rng();
    let keys = generate_keys(&mut rng, 2000, 0);
    let mut m = GeneralMap::with_capacity(2000);
    timed_insert_pass(&mut m, &keys);
    assert_eq!(m.len(), 1);
    let (_total_ns, checksum) = timed_lookup_pass(&m, &keys);
    assert_eq!(checksum, 2000);
}
