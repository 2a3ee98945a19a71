use otterbrix_bench::data::{
    bench_rng, encode_ids, lookup_ids, push_row_head, push_row_record, random_name, row_head,
    encode_rows, RowRecord, ALPHA_LEN, NAME_LEN, ROW_RECORD_BYTES,
    SEED,
};
use rand::{Rng, SeedableRng};
use rand_chacha::ChaCha8Rng;

const ALPHA: &[u8] = b"abcdefghijklmnopqrstuvwxyz0123456789";

fn reference_name(rng: &mut ChaCha8Rng, len: usize) -> String {
    let mut s = String::new();
    for _ in 0..len {
        let i = rng.gen_range(0..ALPHA.len());
        s.push(ALPHA[i] as char);
    }
    s
}

#[test]
fn names_follow_the_seeded_stream() {
    let mut ours = bench_rng();
    let mut reference = ChaCha8Rng::seed_from_u64(SEED);
    for _ in 0..50 {
        assert_eq!(random_name(&mut ours, NAME_LEN), reference_name(&mut reference, NAME_LEN));
    }
}

#[test]
fn names_are_sixteen_alphanumeric_bytes() {
    assert_eq!(ALPHA_LEN, ALPHA.len());
    let mut rng = bench_rng();
    let mut distinct = std::collections::HashSet::new();
    for _ in 0..100 {
        let name = random_name(&mut rng, NAME_LEN);
        assert_eq!(name.len(), 16);
        assert!(name.bytes().all(|b| b.is_ascii_lowercase() || b.is_ascii_digit()));
        distinct.insert(name);
    }
    assert!(distinct.len() > 1);
}

#[test]
fn empty_name_draws_nothing() {
    let mut rng = bench_rng();
    assert_eq!(random_name(&mut rng, 0), "");
}

#[test]
fn lookup_ids_follow_the_seeded_stream() {
    let ids = lookup_ids(200, 1000);
    let mut reference = ChaCha8Rng::seed_from_u64(SEED ^ 1);
    let expected: Vec<i64> = (0..200).map(|_| reference.gen_range(1..=1000i64)).collect();
    assert_eq!(ids, expected);
    assert!(ids.iter().all(|&id| (1..=1000).contains(&id)));
    assert!(ids.iter().any(|&id| id != ids[0]));
}

#[test]
fn lookup_ids_edge_cases() {
    assert!(lookup_ids(0, 0).is_empty());
    assert_eq!(lookup_ids(5, 1), vec![1, 1, 1, 1, 1]);
}

#[test]
fn encoded_ids_are_little_endian() {
    let bytes = encode_ids(&[1, -1, 0x0102030405060708]);
    let mut expected = Vec::new();
    for id in [1i64, -1, 0x0102030405060708] {
        expected.extend_from_slice(&id.to_le_bytes());
    }
    assert_eq!(bytes, expected);
    assert_eq!(encode_ids(&[]), Vec::<u8>::new());
}

#[test]
fn row_head_is_id_then_name() {
    let mut out = vec![9u8];
    push_row_head(&mut out, 42, "abcdefghij012345");
    let mut expected = vec![9u8];
    expected.extend_from_slice(&42i64.to_le_bytes());
    expected.extend_from_slice(b"abcdefghij012345");
    assert_eq!(out, expected);
    assert_eq!(out.len(), 1 + 24);
}

#[test]
fn row_heads_number_rows_from_one() {
    let mut ours = bench_rng();
    let mut reference = ChaCha8Rng::seed_from_u64(SEED);
    for index in 0..20usize {
        let head = row_head(&mut ours, index);
        assert_eq!(head.id, index as i64 + 1);
        assert_eq!(head.name, reference_name(&mut reference, NAME_LEN));
        // the row's x is drawn next from the same stream
        let _: f64 = ours.gen_range(-1.0e6..1.0e6);
        let _: f64 = reference.gen_range(-1.0e6..1.0e6);
    }
}

#[test]
fn bench_rng_is_the_generator_seeded_with_seed() {
    assert!(bench_rng() == ChaCha8Rng::seed_from_u64(SEED));
    assert!(bench_rng() == bench_rng());
    assert!(bench_rng() != ChaCha8Rng::seed_from_u64(SEED ^ 1));
}

#[test]
fn fewer_lookup_ids_are_a_prefix_of_more() {
    let long = lookup_ids(500, 1_000);
    for m in [0usize, 1, 7, 250, 500] {
        assert_eq!(lookup_ids(m, 1_000), long[..m].to_vec());
    }
    assert_eq!(lookup_ids(500, 1_000), long);
}

#[test]
fn names_advance_the_generator_by_one_draw_per_character() {
    let mut ours = bench_rng();
    let mut reference = ChaCha8Rng::seed_from_u64(SEED);
    let _ = random_name(&mut ours, 5);
    for _ in 0..5 {
        let _ = reference.gen_range(0..ALPHA_LEN);
    }
    assert!(ours == reference);
    let mut unchanged = bench_rng();
    assert_eq!(random_name(&mut unchanged, 0), "");
    assert!(unchanged == bench_rng());
}

#[test]
fn row_record_is_id_name_then_x_bits() {
    let x: f64 = -123_456.75;
    let mut out = vec![0xAAu8];
    push_row_record(&mut out, 7, "abcdefghij012345", x.to_bits());
    assert_eq!(out.len(), 1 + ROW_RECORD_BYTES);
    assert_eq!(&out[1..9], &7i64.to_le_bytes());
    assert_eq!(&out[9..25], b"abcdefghij012345");
    assert_eq!(&out[25..33], &x.to_le_bytes());
    let back = f64::from_bits(u64::from_le_bytes(out[25..33].try_into().unwrap()));
    assert_eq!(back.to_bits(), x.to_bits());
}

#[test]
fn row_file_is_the_records_in_order() {
    let mut rng = bench_rng();
    let mut records = Vec::new();
    let mut expected = Vec::new();
    for index in 0..3usize {
        let head = row_head(&mut rng, index);
        let x: f64 = (index as f64) * 1.5 - 2.25;
        push_row_record(&mut expected, head.id, &head.name, x.to_bits());
        records.push(RowRecord { id: head.id, name: head.name, x_bits: x.to_bits() });
    }
    let bytes = encode_rows(&records);
    assert_eq!(bytes, expected);
    assert_eq!(bytes.len(), 3 * ROW_RECORD_BYTES);
    for (k, r) in records.iter().enumerate() {
        let rec = &bytes[32 * k..32 * k + 32];
        assert_eq!(i64::from_le_bytes(rec[0..8].try_into().unwrap()), r.id);
        assert_eq!(&rec[8..24], r.name.as_bytes());
        assert_eq!(u64::from_le_bytes(rec[24..32].try_into().unwrap()), r.x_bits);
    }
    assert!(encode_rows(&[]).is_empty());
}
