use beacon_mpc::ceremony::start;
use beacon_mpc::ceremony::Ceremony;
use beacon_mpc::ceremony::CeremonyError;
use beacon_mpc::ceremony::ParameterSet;
use blake2::Blake2b512;
use blake2::Digest;
use rand::RngCore;
use rand::SeedableRng;
use rand_chacha::ChaCha20Rng;

fn digest(byte: u8) -> Vec<u8> {
    vec![byte; 64]
}

#[test]
fn start_rejects_non_hex_beacon() {
    assert_eq!(start("not hex at all").unwrap_err(), CeremonyError::InvalidBeacon);
}

#[test]
fn start_rejects_odd_length_beacon() {
    assert_eq!(start("abc").unwrap_err(), CeremonyError::InvalidBeacon);
}

#[test]
fn start_rejects_wrong_length_beacon() {
    // Well-formed hex, but 31 bytes instead of 32.
    let hex = "00".repeat(31);
    assert_eq!(start(&hex).unwrap_err(), CeremonyError::InvalidBeacon);
}

#[test]
fn start_rejects_empty_placeholder_beacon() {
    // The unfilled build-time placeholder must be a startup error, not a
    // zero-length seed.
    assert_eq!(start("").unwrap_err(), CeremonyError::InvalidBeacon);
}

#[test]
fn start_decodes_all_zero_beacon() {
    let hex = "00".repeat(32);
    let (seed, _rng) = start(&hex).unwrap();
    assert_eq!(seed, vec![0u8; 32]);
}

#[test]
fn seeded_rng_is_deterministic_across_runs() {
    let hex = "000102030405060708090a0b0c0d0e0f101112131415161718191a1b1c1d1e1f";
    let (_, mut rng1) = start(hex).unwrap();
    let (_, mut rng2) = start(hex).unwrap();
    let mut out1 = [0u8; 128];
    let mut out2 = [0u8; 128];
    rng1.fill_bytes(&mut out1);
    rng2.fill_bytes(&mut out2);
    assert_eq!(out1, out2);
}

#[test]
fn seeded_rng_matches_an_independent_seeding() {
    // The generator handed out must be exactly the ChaCha stream of the
    // decoded seed, as an independent reimplementation would derive it.
    let hex = "000102030405060708090a0b0c0d0e0f101112131415161718191a1b1c1d1e1f";
    let (seed, mut rng) = start(hex).unwrap();
    let mut seed_arr = [0u8; 32];
    seed_arr.copy_from_slice(&seed);
    let mut independent = ChaCha20Rng::from_seed(seed_arr);
    let mut out1 = [0u8; 256];
    let mut out2 = [0u8; 256];
    rng.fill_bytes(&mut out1);
    independent.fill_bytes(&mut out2);
    assert_eq!(out1.to_vec(), out2.to_vec());
}

#[test]
fn different_seeds_give_different_streams() {
    let (_, mut rng1) = start(&"00".repeat(32)).unwrap();
    let (_, mut rng2) = start(&"01".repeat(32)).unwrap();
    let mut out1 = [0u8; 64];
    let mut out2 = [0u8; 64];
    rng1.fill_bytes(&mut out1);
    rng2.fill_bytes(&mut out2);
    assert_ne!(out1, out2);
}

#[test]
fn sets_contribute_in_fixed_order() {
    let mut c = Ceremony::new();
    assert_eq!(c.next_set(), Some(ParameterSet::Spend));
    c.record_digest(digest(1));
    assert_eq!(c.next_set(), Some(ParameterSet::Output));
    c.record_digest(digest(2));
    assert_eq!(c.next_set(), Some(ParameterSet::Mint));
    c.record_digest(digest(3));
    assert_eq!(c.next_set(), None);
    assert!(c.is_complete());
    assert_eq!(c.sets_recorded(), 3);
}

#[test]
fn incomplete_ceremony_has_no_hash() {
    let mut c = Ceremony::new();
    assert_eq!(c.try_binding_hash(), None);
    c.record_digest(digest(1));
    assert_eq!(c.try_binding_hash(), None);
    c.record_digest(digest(2));
    assert_eq!(c.try_binding_hash(), None);
    c.record_digest(digest(3));
    assert!(c.try_binding_hash().is_some());
}

#[test]
fn binding_hash_is_one_hash_of_the_concatenation() {
    // The binding hash is BLAKE2b-512 over the three digests concatenated in
    // order — no other transform in between.
    let d1 = digest(0xaa);
    let d2 = digest(0xbb);
    let d3 = digest(0xcc);
    let mut c = Ceremony::new();
    c.record_digest(d1.clone());
    c.record_digest(d2.clone());
    c.record_digest(d3.clone());
    let h = c.binding_hash();

    let mut reference = Blake2b512::new();
    reference.update(&d1);
    reference.update(&d2);
    reference.update(&d3);
    let expected = reference.finalize();
    assert_eq!(h, expected.to_vec());
    assert_eq!(h.len(), 64);
}

#[test]
fn binding_hash_is_deterministic() {
    let mut c1 = Ceremony::new();
    let mut c2 = Ceremony::new();
    for b in [7u8, 8u8, 9u8] {
        c1.record_digest(digest(b));
        c2.record_digest(digest(b));
    }
    assert_eq!(c1.binding_hash(), c2.binding_hash());
}

#[test]
fn reordering_sets_changes_the_hash() {
    let d1 = digest(0x01);
    let d2 = digest(0x02);
    let d3 = digest(0x03);
    let mut in_order = Ceremony::new();
    in_order.record_digest(d1.clone());
    in_order.record_digest(d2.clone());
    in_order.record_digest(d3.clone());
    let mut swapped = Ceremony::new();
    swapped.record_digest(d2);
    swapped.record_digest(d1);
    swapped.record_digest(d3);
    assert_ne!(in_order.binding_hash(), swapped.binding_hash());
}
