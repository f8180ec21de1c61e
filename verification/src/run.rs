use vstd::prelude::*;

use crate::channel::ChannelInfo;
use crate::text::owned;

verus! {

// ── Run records ───────────────────────────────────────────────────────────────

/// The outcome of one shot of a key-distribution protocol.
#[derive(Clone, Debug)]
pub struct QkdRun<N> {
    /// Display name of the protocol, such as "BB84".
    pub protocol: &'static str,
    /// Zero-based shot index.
    pub shot: usize,
    /// Channel used for Alice (or the only channel).
    pub channel: ChannelInfo<N>,
    /// Channel used for Bob, for entanglement-based protocols.
    pub channel_bob: Option<ChannelInfo<N>>,
    /// Qubits (or pairs) sent.
    pub raw_length: usize,
    /// Sifted (or conclusive) bits.
    pub sifted: usize,
    /// Errors found among the check bits.
    pub check_errors: usize,
    /// Estimated quantum bit error rate (meaningful only when available).
    pub qber: N,
    /// Whether a QBER could be estimated.
    pub qber_available: bool,
    /// Qubits intercepted by Eve.
    pub eve_count: usize,
    /// Length of Alice's final key.
    pub key_length: usize,
    /// Whether Alice's and Bob's final keys are identical.
    pub keys_match: bool,
    /// CHSH value of the Bell test (E91 only).
    pub chsh_value: Option<N>,
    /// Alice's key in hexadecimal, when keys are recorded.
    pub alice_key_hex: Option<String>,
    /// Bob's key in hexadecimal, when keys are recorded.
    pub bob_key_hex: Option<String>,
}

/// The outcome of one shot of the identity-authentication protocol.
#[derive(Clone, Debug)]
pub struct AuthRun<N> {
    pub shot: usize,
    pub channel: ChannelInfo<N>,
    pub total_qubits: usize,
    pub matches: usize,
    pub accuracy: N,
    pub authenticated: bool,
    pub alice_id_hex: Option<String>,
    pub alice_commitment_hex: Option<String>,
    pub bob_challenge_hex: Option<String>,
    pub bob_recovered_hex: Option<String>,
}

/// The outcome of one shot of the digital-signature protocol.
#[derive(Clone, Debug)]
pub struct QdsRun<N> {
    pub shot: usize,
    pub channel_bob: ChannelInfo<N>,
    pub channel_charlie: ChannelInfo<N>,
    pub num_qubits: usize,
    pub message: bool,
    pub bob_mismatches: usize,
    pub charlie_mismatches: usize,
    pub bob_mismatch_rate: N,
    pub charlie_mismatch_rate: N,
    pub signature_accepted: bool,
    pub eve_intercepted_count: usize,
}

/// The outcome of one shot of any protocol.
#[derive(Clone, Debug)]
pub enum RunData<N> {
    Qkd(QkdRun<N>),
    Auth(AuthRun<N>),
    Qds(QdsRun<N>),
}

// ── Hexadecimal rendering of bit strings ──────────────────────────────────────

/// 1 for a set bit, 0 otherwise.
pub open spec fn bit_value(b: bool) -> nat {
    if b {
        1
    } else {
        0
    }
}

/// The number whose binary digits, most significant first, are `bits`.
pub open spec fn msb_value(bits: Seq<bool>) -> nat
    decreases bits.len(),
{
    if bits.len() == 0 {
        0
    } else {
        2 * msb_value(bits.drop_last()) + bit_value(bits.last())
    }
}

/// `n` cleared bits.
pub open spec fn zeros(n: nat) -> Seq<bool> {
    Seq::new(n, |i: int| false)
}

/// The byte that a chunk of at most eight bits stands for: the chunk fills
/// the byte from its most significant bit and the remaining bits are clear.
pub open spec fn chunk_byte(chunk: Seq<bool>) -> nat {
    msb_value(chunk + zeros((8 - chunk.len()) as nat))
}

/// The lowercase hexadecimal digit for `d < 16`.
pub open spec fn hex_digit(d: nat) -> char {
    if d == 0 {
        '0'
    } else if d == 1 {
        '1'
    } else if d == 2 {
        '2'
    } else if d == 3 {
        '3'
    } else if d == 4 {
        '4'
    } else if d == 5 {
        '5'
    } else if d == 6 {
        '6'
    } else if d == 7 {
        '7'
    } else if d == 8 {
        '8'
    } else if d == 9 {
        '9'
    } else if d == 10 {
        'a'
    } else if d == 11 {
        'b'
    } else if d == 12 {
        'c'
    } else if d == 13 {
        'd'
    } else if d == 14 {
        'e'
    } else {
        'f'
    }
}

/// A byte as two lowercase hexadecimal digits.
pub open spec fn byte_hex(b: nat) -> Seq<char> {
    seq![hex_digit(b / 16), hex_digit(b % 16)]
}

/// The bits cut into chunks of eight (the last one possibly shorter), each
/// chunk rendered as the two hexadecimal digits of its byte.
pub open spec fn hex_chunks(bits: Seq<bool>) -> Seq<char>
    decreases bits.len(),
{
    if bits.len() == 0 {
        Seq::empty()
    } else if bits.len() <= 8 {
        byte_hex(chunk_byte(bits))
    } else {
        byte_hex(chunk_byte(bits.take(8))) + hex_chunks(bits.skip(8))
    }
}

/// The hexadecimal rendering of a key: "(empty)" for no bits.
pub open spec fn spec_to_hex(bits: Seq<bool>) -> Seq<char> {
    if bits.len() == 0 {
        "(empty)"@
    } else {
        hex_chunks(bits)
    }
}

/// Powers of two.
pub open spec fn two_pow(n: nat) -> nat
    decreases n,
{
    if n == 0 {
        1
    } else {
        2 * two_pow((n - 1) as nat)
    }
}

/// The powers of two up to the eighth.
proof fn lemma_two_pow_small(i: nat)
    requires
        i <= 8,
    ensures
        two_pow(i) <= 256,
        i < 8 ==> two_pow(i) <= 128,
{
    reveal_with_fuel(two_pow, 9);
    assert(two_pow(0) == 1);
    assert(two_pow(1) == 2);
    assert(two_pow(2) == 4);
    assert(two_pow(3) == 8);
    assert(two_pow(4) == 16);
    assert(two_pow(5) == 32);
    assert(two_pow(6) == 64);
    assert(two_pow(7) == 128);
    assert(two_pow(8) == 256);
}

/// The digit `d` as a one-character string.
pub(crate) fn hex_digit_str(d: u8) -> (s: &'static str)
    requires
        d < 16,
    ensures
        s@ == seq![hex_digit(d as nat)],
{
    if d == 0 {
        proof { reveal_strlit("0"); }
        "0"
    } else if d == 1 {
        proof { reveal_strlit("1"); }
        "1"
    } else if d == 2 {
        proof { reveal_strlit("2"); }
        "2"
    } else if d == 3 {
        proof { reveal_strlit("3"); }
        "3"
    } else if d == 4 {
        proof { reveal_strlit("4"); }
        "4"
    } else if d == 5 {
        proof { reveal_strlit("5"); }
        "5"
    } else if d == 6 {
        proof { reveal_strlit("6"); }
        "6"
    } else if d == 7 {
        proof { reveal_strlit("7"); }
        "7"
    } else if d == 8 {
        proof { reveal_strlit("8"); }
        "8"
    } else if d == 9 {
        proof { reveal_strlit("9"); }
        "9"
    } else if d == 10 {
        proof { reveal_strlit("a"); }
        "a"
    } else if d == 11 {
        proof { reveal_strlit("b"); }
        "b"
    } else if d == 12 {
        proof { reveal_strlit("c"); }
        "c"
    } else if d == 13 {
        proof { reveal_strlit("d"); }
        "d"
    } else if d == 14 {
        proof { reveal_strlit("e"); }
        "e"
    } else {
        proof { reveal_strlit("f"); }
        "f"
    }
}

/// The byte of the chunk `bits[start..end]` (at most eight bits).
fn chunk_value(bits: &[bool], start: usize, end: usize) -> (b: u8)
    requires
        start < end <= bits@.len(),
        end - start <= 8,
    ensures
        b as nat == chunk_byte(bits@.subrange(start as int, end as int)),
{
    let ghost chunk = bits@.subrange(start as int, end as int);
    let ghost padded = chunk + zeros((8 - chunk.len()) as nat);
    assert(padded.len() == 8);
    let mut acc: u32 = 0;
    let mut i: usize = 0;
    while i < 8
        invariant
            start < end <= bits@.len(),
            end - start <= 8,
            chunk == bits@.subrange(start as int, end as int),
            padded == chunk + zeros((8 - chunk.len()) as nat),
            padded.len() == 8,
            i <= 8,
            acc as nat == msb_value(padded.take(i as int)),
            (acc as nat) < two_pow(i as nat),
        decreases 8 - i,
    {
        proof {
            lemma_two_pow_small(i as nat);
        }
        let bit: u32 = if i < end - start && bits[start + i] {
            1
        } else {
            0
        };
        proof {
            assert(padded.take((i + 1) as int).drop_last() =~= padded.take(i as int));
            assert(padded.take((i + 1) as int).last() == padded[i as int]);
            if i < end - start {
                assert(padded[i as int] == bits@[start + i]);
            } else {
                assert(padded[i as int] == false);
            }
            assert(bit as nat == bit_value(padded[i as int]));
        }
        acc = acc * 2 + bit;
        i = i + 1;
    }
    proof {
        assert(padded.take(8) =~= padded);
        reveal_with_fuel(two_pow, 9);
    }
    acc as u8
}

/// Renders a bit string in hexadecimal: each chunk of eight bits (the last
/// one padded with clear bits) becomes two lowercase digits, most
/// significant bit first; an empty string is rendered as "(empty)".
pub fn to_hex(bits: &[bool]) -> (s: String)
    ensures
        s@ == spec_to_hex(bits@),
{
    if bits.len() == 0 {
        return owned("(empty)");
    }
    let mut s = String::new();
    let mut start: usize = 0;
    assert(bits@.skip(0) =~= bits@);
    assert(s@ + hex_chunks(bits@) =~= hex_chunks(bits@));
    while start < bits.len()
        invariant
            bits@.len() > 0,
            start <= bits@.len(),
            s@ + hex_chunks(bits@.skip(start as int)) == hex_chunks(bits@),
        decreases bits@.len() - start,
    {
        let end = if bits.len() - start <= 8 {
            bits.len()
        } else {
            start + 8
        };
        let byte = chunk_value(bits, start, end);
        let ghost old_s = s@;
        s.append(hex_digit_str(byte / 16));
        s.append(hex_digit_str(byte % 16));
        proof {
            let rest = bits@.skip(start as int);
            assert(s@ == old_s + byte_hex(byte as nat));
            if rest.len() <= 8 {
                assert(rest =~= bits@.subrange(start as int, end as int));
                assert(bits@.skip(end as int) =~= Seq::<bool>::empty());
                assert(hex_chunks(bits@.skip(end as int)) == Seq::<char>::empty());
                assert(hex_chunks(rest) == byte_hex(chunk_byte(rest)));
            } else {
                assert(rest.take(8) =~= bits@.subrange(start as int, end as int));
                assert(rest.skip(8) =~= bits@.skip(end as int));
                assert(hex_chunks(rest) == byte_hex(chunk_byte(rest.take(8))) + hex_chunks(
                    rest.skip(8),
                ));
            }
            assert(s@ + hex_chunks(bits@.skip(end as int)) =~= old_s + hex_chunks(rest));
        }
        start = end;
    }
    proof {
        assert(bits@.skip(start as int) =~= Seq::<bool>::empty());
        assert(s@ + Seq::<char>::empty() =~= s@);
    }
    s
}

/// Every chunk of eight bits (the last one possibly shorter) yields two digits.
proof fn lemma_hex_chunks_length(bits: Seq<bool>)
    ensures
        hex_chunks(bits).len() == 2 * ((bits.len() + 7) / 8),
    decreases bits.len(),
{
    if bits.len() > 8 {
        lemma_hex_chunks_length(bits.skip(8));
    }
}

/// A key of `n > 0` bits is rendered with `2 * ceil(n / 8)` digits.
pub proof fn lemma_to_hex_length(bits: Seq<bool>)
    requires
        bits.len() > 0,
    ensures
        spec_to_hex(bits).len() == 2 * ((bits.len() + 7) / 8),
{
    lemma_hex_chunks_length(bits);
}

/// A partial last chunk is filled with clear bits: appending clear bits up
/// to the next multiple of eight leaves the rendering unchanged.
pub proof fn lemma_to_hex_zero_padding(bits: Seq<bool>, k: nat)
    requires
        bits.len() % 8 != 0,
        bits.len() % 8 + k <= 8,
    ensures
        spec_to_hex(bits + zeros(k)) == spec_to_hex(bits),
    decreases bits.len(),
{
    let padded = bits + zeros(k);
    if bits.len() <= 8 {
        assert(padded + zeros((8 - padded.len()) as nat) =~= bits + zeros((8 - bits.len()) as nat));
    } else {
        assert(padded.take(8) =~= bits.take(8));
        assert(padded.skip(8) =~= bits.skip(8) + zeros(k));
        lemma_to_hex_zero_padding(bits.skip(8), k);
    }
}

/// The character code of the lowercase hexadecimal digit for `d < 16`.
pub open spec fn hex_code(d: nat) -> nat {
    if d < 10 {
        48 + d
    } else {
        87 + d
    }
}

/// A key of exactly eight bits is rendered as the two lowercase
/// hexadecimal digits of the byte whose bits, most significant first, are
/// the key's bits.
pub proof fn lemma_to_hex_of_a_byte(bits: Seq<bool>)
    requires
        bits.len() == 8,
    ensures
        ({
            let v = 128 * bit_value(bits[0]) + 64 * bit_value(bits[1]) + 32 * bit_value(bits[2])
                + 16 * bit_value(bits[3]) + 8 * bit_value(bits[4]) + 4 * bit_value(bits[5]) + 2
                * bit_value(bits[6]) + bit_value(bits[7]);
            let h = spec_to_hex(bits);
            &&& h.len() == 2
            &&& h[0] as nat == hex_code(v / 16)
            &&& h[1] as nat == hex_code(v % 16)
        }),
{
    assert(bits + zeros(0) =~= bits);
    reveal_with_fuel(msb_value, 9);
    assert(bits.drop_last().drop_last().drop_last().drop_last().drop_last().drop_last().drop_last()
        =~= seq![bits[0]]);
    assert(seq![bits[0]].drop_last() =~= Seq::<bool>::empty());
    let v = chunk_byte(bits);
    assert(v < 256);
    assert(v / 16 < 16 && v % 16 < 16);
}

/// Keys are rendered byte by byte: a key made of whole bytes followed by
/// more bits is rendered as the rendering of the whole bytes followed by
/// that of the rest.
pub proof fn lemma_to_hex_concat(a: Seq<bool>, b: Seq<bool>)
    requires
        a.len() > 0,
        a.len() % 8 == 0,
        b.len() > 0,
    ensures
        spec_to_hex(a + b) == spec_to_hex(a) + spec_to_hex(b),
    decreases a.len(),
{
    let ab = a + b;
    if a.len() == 8 {
        assert(ab.take(8) =~= a);
        assert(ab.skip(8) =~= b);
    } else {
        assert(ab.take(8) =~= a.take(8));
        assert(ab.skip(8) =~= a.skip(8) + b);
        lemma_to_hex_concat(a.skip(8), b);
    }
}

/// Whether two keys are identical.
pub fn keys_equal(a: &[bool], b: &[bool]) -> (r: bool)
    ensures
        r == (a@ == b@),
{
    if a.len() != b.len() {
        return false;
    }
    let mut i: usize = 0;
    while i < a.len()
        invariant
            a@.len() == b@.len(),
            i <= a@.len(),
            forall|j: int| 0 <= j < i ==> a@[j] == b@[j],
        decreases a@.len() - i,
    {
        if a[i] != b[i] {
            return false;
        }
        i = i + 1;
    }
    assert(a@ =~= b@);
    true
}

// ── Building the records ──────────────────────────────────────────────────────

/// The hexadecimal rendering of a key when keys are recorded.
pub open spec fn recorded_hex(h: Option<String>, bits: Seq<bool>, record: bool) -> bool {
    if record {
        h matches Some(x) && x@ == spec_to_hex(bits)
    } else {
        h is None
    }
}

/// The rendering of a key when keys are recorded.
fn hex_if(record: bool, bits: &[bool]) -> (h: Option<String>)
    ensures
        recorded_hex(h, bits@, record),
{
    if record {
        Some(to_hex(bits))
    } else {
        None
    }
}

/// Builds the record of a key-distribution shot from what the protocol
/// produced. The key length is that of Alice's key, the keys match when
/// they are identical, a missing QBER is recorded as `zero` and marked
/// unavailable, and the keys are rendered in hexadecimal when `record_keys`.
pub fn qkd_record<N: Copy>(
    protocol: &'static str,
    shot: usize,
    channel: ChannelInfo<N>,
    channel_bob: Option<ChannelInfo<N>>,
    raw_length: usize,
    sifted: usize,
    check_errors: usize,
    qber: Option<N>,
    zero: N,
    eve_count: usize,
    alice_key: &[bool],
    bob_key: &[bool],
    chsh_value: Option<N>,
    record_keys: bool,
) -> (r: QkdRun<N>)
    ensures
        r.protocol == protocol,
        r.shot == shot,
        r.channel == channel,
        r.channel_bob == channel_bob,
        r.raw_length == raw_length,
        r.sifted == sifted,
        r.check_errors == check_errors,
        r.qber == (match qber {
            Some(v) => v,
            None => zero,
        }),
        r.qber_available == qber is Some,
        r.eve_count == eve_count,
        r.key_length == alice_key@.len(),
        r.keys_match == (alice_key@ == bob_key@),
        r.chsh_value == chsh_value,
        recorded_hex(r.alice_key_hex, alice_key@, record_keys),
        recorded_hex(r.bob_key_hex, bob_key@, record_keys),
{
    let (qber_val, qber_available) = match qber {
        Some(v) => (v, true),
        None => (zero, false),
    };
    QkdRun {
        protocol,
        shot,
        channel,
        channel_bob,
        raw_length,
        sifted,
        check_errors,
        qber: qber_val,
        qber_available,
        eve_count,
        key_length: alice_key.len(),
        keys_match: keys_equal(alice_key, bob_key),
        chsh_value,
        alice_key_hex: hex_if(record_keys, alice_key),
        bob_key_hex: hex_if(record_keys, bob_key),
    }
}

/// Builds the record of an authentication shot; the identity, commitment,
/// challenge and recovered challenge are rendered in hexadecimal when
/// `record_keys`.
pub fn auth_record<N: Copy>(
    shot: usize,
    channel: ChannelInfo<N>,
    total_qubits: usize,
    matches: usize,
    accuracy: N,
    authenticated: bool,
    alice_id: &[bool],
    alice_commitment: &[bool],
    bob_challenge: &[bool],
    bob_recovered: &[bool],
    record_keys: bool,
) -> (r: AuthRun<N>)
    ensures
        r.shot == shot,
        r.channel == channel,
        r.total_qubits == total_qubits,
        r.matches == matches,
        r.accuracy == accuracy,
        r.authenticated == authenticated,
        recorded_hex(r.alice_id_hex, alice_id@, record_keys),
        recorded_hex(r.alice_commitment_hex, alice_commitment@, record_keys),
        recorded_hex(r.bob_challenge_hex, bob_challenge@, record_keys),
        recorded_hex(r.bob_recovered_hex, bob_recovered@, record_keys),
{
    AuthRun {
        shot,
        channel,
        total_qubits,
        matches,
        accuracy,
        authenticated,
        alice_id_hex: hex_if(record_keys, alice_id),
        alice_commitment_hex: hex_if(record_keys, alice_commitment),
        bob_challenge_hex: hex_if(record_keys, bob_challenge),
        bob_recovered_hex: hex_if(record_keys, bob_recovered),
    }
}

// ── Seeding the shots ─────────────────────────────────────────────────────────

/// The seed of shot `shot` of a run seeded with `seed`: `seed + shot`.
pub open spec fn spec_shot_seed(seed: Option<u64>, shot: int) -> Option<u64> {
    match seed {
        Some(s) => Some((s + shot) as u64),
        None => None,
    }
}

/// The seed of shot `shot` of a run seeded with `seed`.
pub fn shot_seed(seed: Option<u64>, shot: usize) -> (r: Option<u64>)
    requires
        seed matches Some(s) ==> s + shot <= u64::MAX,
    ensures
        r == spec_shot_seed(seed, shot as int),
{
    match seed {
        Some(s) => Some(s + shot as u64),
        None => None,
    }
}

/// What is known of the random-number generator of the thread a handle is
/// used on: the seed last installed in it through the handle, if any. Only
/// this module can change it, so a handle's record is always the library's.
pub struct SeedState {
    installed: Ghost<Option<u64>>,
}

impl SeedState {
    /// The seed last installed through this handle, if any.
    pub closed spec fn installed(&self) -> Option<u64> {
        self.installed@
    }

    /// A handle through which no seed has been installed yet.
    pub fn new() -> (st: SeedState)
        ensures
            st.installed() == None::<u64>,
    {
        SeedState { installed: Ghost(None) }
    }
}

/// `qcrypto::rng::set_global_seed`: replaces the current thread's generator
/// by one seeded with `seed`, so that `seed` is the seed installed.
#[verifier::external_body]
fn set_global_seed(seed: u64, rng: &mut SeedState)
    ensures
        final(rng).installed() == Some(seed),
{
    qcrypto::rng::set_global_seed(seed)
}

/// Seeds the current thread's generator for shot `shot` of a run seeded
/// with `seed` with `seed + shot`, and returns the seed installed; an
/// unseeded run leaves the generator as it is.
pub fn seed_shot(seed: Option<u64>, shot: usize, rng: &mut SeedState) -> (used: Option<u64>)
    requires
        seed matches Some(s) ==> s + shot <= u64::MAX,
    ensures
        used == spec_shot_seed(seed, shot as int),
        used matches Some(v) ==> final(rng).installed() == Some(v),
        used is None ==> *final(rng) == *old(rng),
{
    let used = shot_seed(seed, shot);
    if let Some(v) = used {
        set_global_seed(v, rng);
    }
    used
}

/// Shot `i` of a run seeded with `base` is seeded exactly like the only shot
/// of a run seeded with `base + i`, so each shot can be replayed alone.
pub proof fn lemma_shot_replays_alone(base: u64, i: nat)
    requires
        base + i <= u64::MAX,
    ensures
        spec_shot_seed(Some(base), i as int) == spec_shot_seed(Some((base + i) as u64), 0),
{
}

/// The first shot of a seeded run uses the run's seed itself, each later
/// shot the seed after its predecessor's, and an unseeded run seeds no shot.
pub proof fn lemma_shot_seeds_count_up(seed: u64, i: nat)
    requires
        seed + i + 1 <= u64::MAX,
    ensures
        spec_shot_seed(Some(seed), 0) == Some(seed),
        spec_shot_seed(Some(seed), (i + 1) as int) matches Some(next) && spec_shot_seed(Some(seed), i as int)
            matches Some(this) && next == this + 1,
        spec_shot_seed(None, i as int) is None,
{
}

/// A recorded key is kept as its hexadecimal rendering, and an unrecorded
/// one is left out.
pub proof fn lemma_recorded_keys_are_rendered(h: Option<String>, bits: Seq<bool>, record: bool)
    ensures
        record ==> (recorded_hex(h, bits, record) <==> (h matches Some(x) && x@ == spec_to_hex(
            bits,
        ))),
        !record ==> (recorded_hex(h, bits, record) <==> h is None),
{
}

} // verus!
