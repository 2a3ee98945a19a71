//! The deterministic data set: rows `(id, name, x)` and lookup ids drawn
//! from ChaCha8 streams with fixed seeds, and the binary files that carry the
//! same streams to the C benchmarks.
use vstd::prelude::*;

use rand::{Rng, SeedableRng};
use rand_chacha::ChaCha8Rng;

use crate::paths::{ancestor_of, lemma_grandparent, path_join, path_join_of, path_parent};
use crate::text::{le_bytes, le_word, lemma_le_round_trip, push_char, push_le_bytes};
use vstd::string::StringSliceAdditionalSpecFns;

verus! {

/// The ChaCha8 generator of `rand_chacha`, carried through opaque: Verus
/// sees nothing of its state.
#[verifier::external_type_specification]
#[verifier::external_body]
pub struct ExChaCha8Rng(ChaCha8Rng);

/// Seed of the row stream; the lookup-id stream uses `SEED ^ 1`.
pub const SEED: u64 = 0xCAFE_BABE_DEAD_BEEF;

/// Length, in characters, of every generated name.
pub const NAME_LEN: usize = 16;

/// Number of characters names are drawn from.
pub const ALPHA_LEN: usize = 36;

/// Size in bytes of the id and name of a row record; the `x` column's eight
/// bytes follow them.
pub const ROW_HEAD_BYTES: usize = 24;

/// Size in bytes of a whole row record: id, name and `x`.
pub const ROW_RECORD_BYTES: usize = 32;

/// The generator that `SeedableRng::seed_from_u64` builds from a seed.
pub uninterp spec fn seeded_generator(seed: u64) -> ChaCha8Rng;

/// A ChaCha8 generator seeded from a 64-bit value.
///
/// Wraps `SeedableRng::seed_from_u64`. The rand_core source expands the seed
/// by a fixed PCG32 sequence into the 32-byte ChaCha key, with stream and
/// position zero, so the generator is a function of the seed alone: equal
/// seeds give equal generators (and `ChaCha8Rng`'s `==` compares exactly
/// that state). The contract names it `seeded_generator`; the key schedule
/// itself is not spelled out.
#[verifier::external_body]
fn seeded_rng(seed: u64) -> (r: ChaCha8Rng)
    ensures
        r == seeded_generator(seed),
{
    ChaCha8Rng::seed_from_u64(seed)
}

/// What `Rng::gen_range(low..high)` on `usize` draws from a generator in a
/// given state, and the state the generator is left in.
pub uninterp spec fn range_draw(rng: ChaCha8Rng, low: usize, high: usize) -> (usize, ChaCha8Rng);

/// What `Rng::gen_range(low..=high)` on `i64` draws from a generator in a
/// given state, and the state the generator is left in.
pub uninterp spec fn inclusive_draw(rng: ChaCha8Rng, low: i64, high: i64) -> (i64, ChaCha8Rng);

/// A value drawn from `low..high`.
///
/// Wraps `Rng::gen_range` on a half-open `usize` range. rand documents that
/// it returns a value of the range and panics when the range is empty; its
/// source (uniform integer sampling by widening multiply with rejection)
/// reads only the generator and the bounds, so the value and the generator
/// left behind are functions of the generator's state and the range, named
/// `range_draw`. The sampling algorithm itself is not spelled out.
#[verifier::external_body]
fn draw_below(rng: &mut ChaCha8Rng, low: usize, high: usize) -> (r: usize)
    requires
        low < high,
    ensures
        (r, *final(rng)) == range_draw(*old(rng), low, high),
        low <= r < high,
{
    rng.gen_range(low..high)
}

/// A value drawn from `low..=high`.
///
/// Wraps `Rng::gen_range` on an inclusive `i64` range. rand documents that
/// it returns a value of the range and panics when the range is empty; its
/// source reads only the generator and the bounds, so the value and the
/// generator left behind are functions of the generator's state and the
/// range, named `inclusive_draw`. The sampling algorithm is not spelled out.
#[verifier::external_body]
fn draw_between(rng: &mut ChaCha8Rng, low: i64, high: i64) -> (r: i64)
    requires
        low <= high,
    ensures
        (r, *final(rng)) == inclusive_draw(*old(rng), low, high),
        low <= r <= high,
{
    rng.gen_range(low..=high)
}

/// The generator the rows are drawn from, seeded with `SEED`.
pub fn bench_rng() -> (r: ChaCha8Rng)
    ensures
        r == seeded_generator(SEED),
{
    seeded_rng(SEED)
}

/// The `i`-th character names are drawn from: the lowercase letters, then
/// the digits.
pub open spec fn alpha_char(i: int) -> char {
    if i < 26 {
        ((97 + i) as u8) as char
    } else {
        ((48 + i - 26) as u8) as char
    }
}

/// The characters names are drawn from, in order.
pub open spec fn name_alphabet() -> Seq<char> {
    Seq::new(ALPHA_LEN as nat, |i: int| alpha_char(i))
}

/// Whether `c` may appear in a name: a lowercase ASCII letter or a digit.
pub open spec fn is_name_char(c: char) -> bool {
    ('a' <= c <= 'z') || ('0' <= c <= '9')
}

/// Whether `s` is a name of `len` characters.
pub open spec fn is_name(s: Seq<char>, len: nat) -> bool {
    &&& s.len() == len
    &&& forall|i: int| 0 <= i < s.len() ==> is_name_char(#[trigger] s[i])
}

/// The name alphabet holds exactly the lowercase ASCII letters and the
/// digits, each once, and all of them are ASCII characters.
pub proof fn lemma_name_alphabet()
    ensures
        name_alphabet().len() == ALPHA_LEN,
        forall|i: int| 0 <= i < ALPHA_LEN ==> is_name_char(#[trigger] name_alphabet()[i]),
        forall|c: char| is_name_char(c) ==> name_alphabet().contains(c),
        forall|i: int, j: int|
            0 <= i < j < ALPHA_LEN ==> #[trigger] name_alphabet()[i] != #[trigger] name_alphabet()[j],
        forall|c: char| is_name_char(c) ==> '\0' <= c <= '\u{7f}',
        name_alphabet()[0] == 'a',
        name_alphabet()[25] == 'z',
        name_alphabet()[26] == '0',
        name_alphabet()[35] == '9',
        forall|i: int|
            0 <= i < 35 && i != 25 ==> (#[trigger] name_alphabet()[i + 1]) as int == (
            name_alphabet()[i] as int) + 1,
{
    assert forall|c: char| is_name_char(c) implies name_alphabet().contains(c) by {
        let i: int = if c <= '9' {
            (c as int) - 48 + 26
        } else {
            (c as int) - 97
        };
        assert(name_alphabet()[i] == c);
    }
}

/// A name is ASCII, so its UTF-8 encoding has one byte per character: the
/// byte of each character is its code.
pub proof fn lemma_name_bytes(s: Seq<char>, len: nat)
    requires
        is_name(s, len),
    ensures
        vstd::utf8::encode_utf8(s).len() == len,
        forall|i: int|
            0 <= i < len ==> #[trigger] vstd::utf8::encode_utf8(s)[i] == s[i] as u8,
{
    assert(vstd::utf8::is_ascii_chars(s));
    vstd::utf8::is_ascii_chars_encode_utf8(s);
}

fn alpha_at(i: usize) -> (c: char)
    requires
        i < ALPHA_LEN,
    ensures
        c == alpha_char(i as int),
        is_name_char(c),
{
    if i < 26 {
        (97 + i as u8) as char
    } else {
        (48 + (i - 26) as u8) as char
    }
}

/// The name of `len` characters that `len` successive draws from
/// `0..ALPHA_LEN` give, each draw picking the alphabet character at its
/// position, and the generator after the last draw.
pub open spec fn name_draws(rng: ChaCha8Rng, len: nat) -> (Seq<char>, ChaCha8Rng)
    decreases len,
{
    if len == 0 {
        (Seq::empty(), rng)
    } else {
        let (s, next) = name_draws(rng, (len - 1) as nat);
        let (i, after) = range_draw(next, 0, ALPHA_LEN);
        (s.push(alpha_char(i as int)), after)
    }
}

/// A shorter name drawn from the same generator is a prefix of a longer
/// one, and a name of `len` draws has `len` characters.
pub proof fn lemma_name_draws_prefix(rng: ChaCha8Rng, m: nat, n: nat)
    requires
        m <= n,
    ensures
        name_draws(rng, n).0.len() == n,
        name_draws(rng, m).0 == name_draws(rng, n).0.take(m as int),
    decreases n,
{
    if n > 0 {
        if m == n {
            lemma_name_draws_prefix(rng, (n - 1) as nat, (n - 1) as nat);
        } else {
            lemma_name_draws_prefix(rng, m, (n - 1) as nat);
        }
    }
    assert(name_draws(rng, m).0 =~= name_draws(rng, n).0.take(m as int));
}

/// A name of `len` characters, each drawn uniformly from the alphabet: the
/// name and the generator left behind are those of `len` successive draws.
pub fn random_name(rng: &mut ChaCha8Rng, len: usize) -> (s: String)
    ensures
        (s@, *final(rng)) == name_draws(*old(rng), len as nat),
        is_name(s@, len as nat),
{
    let mut s = String::new();
    let mut k: usize = 0;
    while k < len
        invariant
            k <= len,
            is_name(s@, k as nat),
            (s@, *rng) == name_draws(*old(rng), k as nat),
        decreases len - k,
    {
        let i: usize = draw_below(rng, 0, ALPHA_LEN);
        push_char(&mut s, alpha_at(i));
        k = k + 1;
    }
    s
}

/// The id and name of a row: what the row stream holds before its `x`.
pub struct RowHead {
    pub id: i64,
    pub name: String,
}

/// The id and name of the row at `index` of the row stream, drawing the
/// name from `rng`: rows are numbered from id 1 in stream order.
pub fn row_head(rng: &mut ChaCha8Rng, index: usize) -> (r: RowHead)
    requires
        index < i64::MAX,
    ensures
        r.id == index + 1,
        r.name@ == name_draws(*old(rng), NAME_LEN as nat).0,
        *final(rng) == name_draws(*old(rng), NAME_LEN as nat).1,
        is_name(r.name@, NAME_LEN as nat),
{
    let name = random_name(rng, NAME_LEN);
    RowHead { id: index as i64 + 1, name }
}

/// The ids that `n` successive draws from `1..=max_id` give, and the
/// generator after the last draw.
pub open spec fn id_draws(rng: ChaCha8Rng, n: nat, max_id: i64) -> (Seq<i64>, ChaCha8Rng)
    decreases n,
{
    if n == 0 {
        (Seq::empty(), rng)
    } else {
        let (ids, next) = id_draws(rng, (n - 1) as nat, max_id);
        let (v, after) = inclusive_draw(next, 1, max_id);
        (ids.push(v), after)
    }
}

/// The first `n` lookup ids for ids up to `max_id`: drawn from the
/// generator seeded with `SEED ^ 1`, a stream of its own beside the rows.
pub open spec fn lookup_stream(n: nat, max_id: i64) -> Seq<i64> {
    id_draws(seeded_generator(SEED ^ 1), n, max_id).0
}

/// Fewer ids drawn from the same generator are a prefix of more ids, and
/// `n` draws give `n` ids.
pub proof fn lemma_id_draws_prefix(rng: ChaCha8Rng, m: nat, n: nat, max_id: i64)
    requires
        m <= n,
    ensures
        id_draws(rng, n, max_id).0.len() == n,
        id_draws(rng, m, max_id).0 == id_draws(rng, n, max_id).0.take(m as int),
    decreases n,
{
    if n > 0 {
        if m == n {
            lemma_id_draws_prefix(rng, (n - 1) as nat, (n - 1) as nat, max_id);
        } else {
            lemma_id_draws_prefix(rng, m, (n - 1) as nat, max_id);
        }
    }
    assert(id_draws(rng, m, max_id).0 =~= id_draws(rng, n, max_id).0.take(m as int));
}

/// The lookup ids are one fixed stream: asking for fewer ids gives a prefix
/// of what asking for more gives.
pub proof fn lemma_lookup_stream_prefix(m: nat, n: nat, max_id: i64)
    requires
        m <= n,
    ensures
        lookup_stream(n, max_id).len() == n,
        lookup_stream(m, max_id) == lookup_stream(n, max_id).take(m as int),
{
    lemma_id_draws_prefix(seeded_generator(SEED ^ 1), m, n, max_id);
}

/// `n` ids drawn uniformly from `1..=max_id`, from the stream seeded with
/// `SEED ^ 1`.
pub fn lookup_ids(n: usize, max_id: i64) -> (ids: Vec<i64>)
    requires
        n > 0 ==> max_id >= 1,
    ensures
        ids@ == lookup_stream(n as nat, max_id),
        ids@.len() == n,
        forall|i: int| 0 <= i < n ==> 1 <= #[trigger] ids@[i] <= max_id,
{
    let mut rng = seeded_rng(SEED ^ 1);
    let mut out: Vec<i64> = Vec::new();
    let mut k: usize = 0;
    while k < n
        invariant
            k <= n,
            n > 0 ==> max_id >= 1,
            out@.len() == k,
            forall|i: int| 0 <= i < k ==> 1 <= #[trigger] out@[i] <= max_id,
            (out@, rng) == id_draws(seeded_generator(SEED ^ 1), k as nat, max_id),
        decreases n - k,
    {
        out.push(draw_between(&mut rng, 1, max_id));
        k = k + 1;
    }
    out
}

/// Where the data files go: `data` under the benchmark root, two levels
/// above the crate's manifest directory.
pub open spec fn data_dir_of(manifest_dir: Seq<char>) -> Option<Seq<char>> {
    match ancestor_of(manifest_dir, 2) {
        Some(root) => Some(path_join_of(root, "data"@)),
        None => None,
    }
}

/// The directory the data files are written to.
pub fn data_dir(manifest_dir: &str) -> (r: String)
    requires
        data_dir_of(manifest_dir@) is Some,
    ensures
        Some(r@) == data_dir_of(manifest_dir@),
{
    proof {
        lemma_grandparent(manifest_dir@);
    }
    match path_parent(manifest_dir) {
        Some(parent) => match path_parent(parent.as_str()) {
            Some(root) => path_join(root.as_str(), "data"),
            None => String::new(),
        },
        None => String::new(),
    }
}

/// The directory the data files are written to, or `None` when the
/// manifest directory lies less than two levels deep.
pub fn try_data_dir(manifest_dir: &str) -> (r: Option<String>)
    ensures
        r.deep_view() == data_dir_of(manifest_dir@),
{
    proof {
        lemma_grandparent(manifest_dir@);
    }
    match path_parent(manifest_dir) {
        Some(parent) => match path_parent(parent.as_str()) {
            Some(_) => Some(data_dir(manifest_dir)),
            None => None,
        },
        None => None,
    }
}

/// The bytes of an id file: each id as eight little-endian bytes, in order.
pub open spec fn ids_bytes(ids: Seq<i64>) -> Seq<u8>
    decreases ids.len(),
{
    if ids.len() == 0 {
        Seq::empty()
    } else {
        ids_bytes(ids.drop_last()) + le_bytes(ids.last() as u64)
    }
}

/// An id file holds eight bytes per id, and the `k`-th eight bytes read
/// back as little-endian give the `k`-th id: the C benchmarks see exactly the
/// ids that were drawn.
pub proof fn lemma_ids_bytes_decode(ids: Seq<i64>, k: int)
    requires
        0 <= k < ids.len(),
    ensures
        ids_bytes(ids).len() == 8 * ids.len(),
        ids_bytes(ids).subrange(8 * k, 8 * k + 8) == le_bytes(ids[k] as u64),
        le_word(ids_bytes(ids).subrange(8 * k, 8 * k + 8)) == ids[k] as u64,
    decreases ids.len(),
{
    lemma_ids_bytes_len(ids);
    let init = ids.drop_last();
    lemma_ids_bytes_len(init);
    if k < ids.len() - 1 {
        lemma_ids_bytes_decode(init, k);
        assert(ids_bytes(ids).subrange(8 * k, 8 * k + 8) =~= ids_bytes(init).subrange(8 * k, 8 * k + 8));
        assert(init[k] == ids[k]);
    } else {
        assert(ids_bytes(ids).subrange(8 * k, 8 * k + 8) =~= le_bytes(ids.last() as u64));
    }
    lemma_le_round_trip(ids[k] as u64);
}

proof fn lemma_ids_bytes_len(ids: Seq<i64>)
    ensures
        ids_bytes(ids).len() == 8 * ids.len(),
    decreases ids.len(),
{
    if ids.len() > 0 {
        lemma_ids_bytes_len(ids.drop_last());
        lemma_le_round_trip(ids.last() as u64);
    }
}

/// The content of an id file.
pub fn encode_ids(ids: &[i64]) -> (out: Vec<u8>)
    ensures
        out@ == ids_bytes(ids@),
        out@.len() == 8 * ids@.len(),
{
    let mut out: Vec<u8> = Vec::new();
    let n: usize = ids.len();
    let mut k: usize = 0;
    assert(ids@.take(0) =~= Seq::<i64>::empty());
    while k < n
        invariant
            n == ids@.len(),
            k <= n,
            out@ == ids_bytes(ids@.take(k as int)),
            out@.len() == 8 * k,
        decreases n - k,
    {
        push_le_bytes(&mut out, ids[k] as u64);
        assert(ids@.take(k + 1).drop_last() =~= ids@.take(k as int));
        k = k + 1;
    }
    assert(ids@.take(n as int) =~= ids@);
    out
}

/// Appends the id and name of a row record: the id as eight little-endian
/// bytes, then the name's bytes.
pub fn push_row_head(out: &mut Vec<u8>, id: i64, name: &str)
    requires
        name.spec_bytes().len() == NAME_LEN,
    ensures
        final(out)@ == old(out)@ + le_bytes(id as u64) + name.spec_bytes(),
        final(out)@.len() == old(out)@.len() + ROW_HEAD_BYTES,
{
    push_le_bytes(out, id as u64);
    let bytes = name.as_bytes();
    let ghost start = out@;
    let mut k: usize = 0;
    while k < bytes.len()
        invariant
            bytes@ == name.spec_bytes(),
            k <= bytes@.len(),
            out@ == start + bytes@.take(k as int),
        decreases bytes@.len() - k,
    {
        out.push(bytes[k]);
        assert(bytes@.take(k + 1) =~= bytes@.take(k as int).push(bytes@[k as int]));
        k = k + 1;
    }
    assert(bytes@.take(bytes@.len() as int) =~= bytes@);
}

/// The bytes of one row record: the id as eight little-endian bytes, the
/// name's bytes, then the bit pattern of `x` as eight little-endian bytes.
pub open spec fn row_record_bytes(id: i64, name: Seq<u8>, x_bits: u64) -> Seq<u8> {
    le_bytes(id as u64) + name + le_bytes(x_bits)
}

/// The bytes of a row file: the records one after another.
pub open spec fn rows_bytes(rows: Seq<(i64, Seq<u8>, u64)>) -> Seq<u8>
    decreases rows.len(),
{
    if rows.len() == 0 {
        Seq::empty()
    } else {
        rows_bytes(rows.drop_last()) + row_record_bytes(
            rows.last().0,
            rows.last().1,
            rows.last().2,
        )
    }
}

/// A row file whose names are all `NAME_LEN` bytes long holds
/// `ROW_RECORD_BYTES` bytes per row, and its `k`-th record reads back as the
/// `k`-th row: the id from its first eight bytes, the name from the next
/// sixteen, the bits of `x` from the last eight.
pub proof fn lemma_rows_bytes_decode(rows: Seq<(i64, Seq<u8>, u64)>, k: int)
    requires
        forall|i: int| 0 <= i < rows.len() ==> (#[trigger] rows[i]).1.len() == NAME_LEN,
        0 <= k < rows.len(),
    ensures
        rows_bytes(rows).len() == ROW_RECORD_BYTES * rows.len(),
        le_word(rows_bytes(rows).subrange(32 * k, 32 * k + 8)) == rows[k].0 as u64,
        rows_bytes(rows).subrange(32 * k + 8, 32 * k + 24) == rows[k].1,
        le_word(rows_bytes(rows).subrange(32 * k + 24, 32 * k + 32)) == rows[k].2,
    decreases rows.len(),
{
    lemma_rows_bytes_len(rows);
    let init = rows.drop_last();
    lemma_rows_bytes_len(init);
    if k < rows.len() - 1 {
        lemma_rows_bytes_decode(init, k);
        let whole = rows_bytes(rows);
        let front = rows_bytes(init);
        assert(whole.subrange(32 * k, 32 * k + 8) =~= front.subrange(32 * k, 32 * k + 8));
        assert(whole.subrange(32 * k + 8, 32 * k + 24) =~= front.subrange(32 * k + 8, 32 * k + 24));
        assert(whole.subrange(32 * k + 24, 32 * k + 32) =~= front.subrange(
            32 * k + 24,
            32 * k + 32,
        ));
        assert(init[k] == rows[k]);
    } else {
        let r = rows.last();
        lemma_le_round_trip(r.0 as u64);
        lemma_le_round_trip(r.2);
        let whole = rows_bytes(rows);
        assert(whole.subrange(32 * k, 32 * k + 8) =~= le_bytes(r.0 as u64));
        assert(whole.subrange(32 * k + 8, 32 * k + 24) =~= r.1);
        assert(whole.subrange(32 * k + 24, 32 * k + 32) =~= le_bytes(r.2));
    }
    lemma_le_round_trip(rows[k].0 as u64);
    lemma_le_round_trip(rows[k].2);
}

proof fn lemma_rows_bytes_len(rows: Seq<(i64, Seq<u8>, u64)>)
    requires
        forall|i: int| 0 <= i < rows.len() ==> (#[trigger] rows[i]).1.len() == NAME_LEN,
    ensures
        rows_bytes(rows).len() == ROW_RECORD_BYTES * rows.len(),
    decreases rows.len(),
{
    if rows.len() > 0 {
        let init = rows.drop_last();
        assert forall|i: int| 0 <= i < init.len() implies (#[trigger] init[i]).1.len() == NAME_LEN by {
            assert(init[i] == rows[i]);
        }
        lemma_rows_bytes_len(init);
        lemma_le_round_trip(rows.last().0 as u64);
        lemma_le_round_trip(rows.last().2);
        assert(rows[rows.len() - 1] == rows.last());
    }
}

/// Appends a whole row record: id, name and the bit pattern of `x`.
pub fn push_row_record(out: &mut Vec<u8>, id: i64, name: &str, x_bits: u64)
    requires
        name.spec_bytes().len() == NAME_LEN,
    ensures
        final(out)@ == old(out)@ + row_record_bytes(id, name.spec_bytes(), x_bits),
        final(out)@.len() == old(out)@.len() + ROW_RECORD_BYTES,
{
    push_row_head(out, id, name);
    push_le_bytes(out, x_bits);
    proof {
        lemma_le_round_trip(x_bits);
    }
    assert(out@ =~= old(out)@ + row_record_bytes(id, name.spec_bytes(), x_bits));
}

/// One row of a row file as plain values: its id, its name, and the bit
/// pattern of its `x`.
pub struct RowRecord {
    pub id: i64,
    pub name: String,
    pub x_bits: u64,
}

/// The fields a row file holds of each record: id, name bytes and `x` bits.
pub open spec fn record_fields(rows: Seq<RowRecord>) -> Seq<(i64, Seq<u8>, u64)> {
    rows.map_values(|r: RowRecord| (r.id, vstd::utf8::encode_utf8(r.name@), r.x_bits))
}

/// A row file whose rows all have proper names reads back record by record:
/// record `k` gives the `k`-th id, the bytes of the `k`-th name (one per
/// character) and the `k`-th bits of `x`.
pub proof fn lemma_row_file_decode(rows: Seq<RowRecord>, k: int)
    requires
        forall|i: int| 0 <= i < rows.len() ==> is_name(#[trigger] rows[i].name@, NAME_LEN as nat),
        0 <= k < rows.len(),
    ensures
        rows_bytes(record_fields(rows)).len() == ROW_RECORD_BYTES * rows.len(),
        le_word(rows_bytes(record_fields(rows)).subrange(32 * k, 32 * k + 8)) == rows[k].id as u64,
        rows_bytes(record_fields(rows)).subrange(32 * k + 8, 32 * k + 24) == vstd::utf8::encode_utf8(
            rows[k].name@,
        ),
        rows_bytes(record_fields(rows)).subrange(32 * k + 8, 32 * k + 24).len() == NAME_LEN,
        forall|j: int|
            0 <= j < NAME_LEN ==> #[trigger] rows_bytes(record_fields(rows))[32 * k + 8 + j]
                == rows[k].name@[j] as u8,
        le_word(rows_bytes(record_fields(rows)).subrange(32 * k + 24, 32 * k + 32)) == rows[k].x_bits,
{
    let fields = record_fields(rows);
    assert forall|i: int| 0 <= i < fields.len() implies (#[trigger] fields[i]).1.len() == NAME_LEN by {
        lemma_name_bytes(rows[i].name@, NAME_LEN as nat);
    }
    lemma_rows_bytes_decode(fields, k);
    lemma_name_bytes(rows[k].name@, NAME_LEN as nat);
    let bytes = rows_bytes(fields);
    assert forall|j: int| 0 <= j < NAME_LEN implies #[trigger] bytes[32 * k + 8 + j]
        == rows[k].name@[j] as u8 by {
        assert(bytes.subrange(32 * k + 8, 32 * k + 24)[j] == bytes[32 * k + 8 + j]);
    }
}

/// The content of a row file: the records of `rows`, in order.
pub fn encode_rows(rows: &[RowRecord]) -> (out: Vec<u8>)
    requires
        forall|i: int| 0 <= i < rows@.len() ==> is_name(#[trigger] rows@[i].name@, NAME_LEN as nat),
    ensures
        out@ == rows_bytes(record_fields(rows@)),
        out@.len() == ROW_RECORD_BYTES * rows@.len(),
{
    let mut out: Vec<u8> = Vec::new();
    let n: usize = rows.len();
    let mut k: usize = 0;
    assert(record_fields(rows@.take(0)) =~= Seq::<(i64, Seq<u8>, u64)>::empty());
    while k < n
        invariant
            n == rows@.len(),
            k <= n,
            forall|i: int| 0 <= i < rows@.len() ==> is_name(#[trigger] rows@[i].name@, NAME_LEN as nat),
            out@ == rows_bytes(record_fields(rows@.take(k as int))),
            out@.len() == ROW_RECORD_BYTES * k,
        decreases n - k,
    {
        let row = &rows[k];
        let name = row.name.as_str();
        proof {
            lemma_name_bytes(rows@[k as int].name@, NAME_LEN as nat);
        }
        push_row_record(&mut out, row.id, name, row.x_bits);
        assert(record_fields(rows@.take(k + 1)).drop_last() =~= record_fields(rows@.take(k as int)));
        assert(record_fields(rows@.take(k + 1)).last() == (
            row.id,
            vstd::utf8::encode_utf8(row.name@),
            row.x_bits,
        ));
        k = k + 1;
    }
    assert(rows@.take(n as int) =~= rows@);
    out
}

} // verus!
