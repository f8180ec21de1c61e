use vstd::prelude::*;

use crate::run::{AuthRun, QdsRun, QkdRun, RunData};
use crate::stats::{chsh_values_of, collected_from, Collected};
use crate::text::{bool_str, bool_text, decimal, decimal_text, owned, str_equal};

verus! {

// ── Labels of the per-shot report ─────────────────────────────────────────────

/// The label of the raw count: entanglement-based protocols send pairs.
pub open spec fn spec_raw_label(protocol: Seq<char>) -> Seq<char> {
    if protocol == "BBM92"@ || protocol == "E91"@ {
        "Raw pairs  "@
    } else {
        "Raw qubits "@
    }
}

/// The label of the sifted count: B92 and SARG04 count conclusive results.
pub open spec fn spec_sift_label(protocol: Seq<char>) -> Seq<char> {
    if protocol == "B92"@ || protocol == "SARG04"@ {
        "Conclusive "@
    } else {
        "Sifted bits"@
    }
}

/// The label of the raw count in the report of a shot of `protocol`.
pub fn raw_label(protocol: &str) -> (l: &'static str)
    ensures
        l@ == spec_raw_label(protocol@),
{
    if str_equal(protocol, "BBM92") || str_equal(protocol, "E91") {
        "Raw pairs  "
    } else {
        "Raw qubits "
    }
}

/// The label of the sifted count in the report of a shot of `protocol`.
pub fn sift_label(protocol: &str) -> (l: &'static str)
    ensures
        l@ == spec_sift_label(protocol@),
{
    if str_equal(protocol, "B92") || str_equal(protocol, "SARG04") {
        "Conclusive "
    } else {
        "Sifted bits"
    }
}

// ── Output file formats ───────────────────────────────────────────────────────

/// The format of an output file.
#[derive(Clone, Copy, Debug, PartialEq, Eq, Structural)]
pub enum OutputFormat {
    Json,
    Csv,
    Text,
}

/// Whether `s` ends with `suffix`.
pub open spec fn ends_with(s: Seq<char>, suffix: Seq<char>) -> bool {
    suffix.len() <= s.len() && s.subrange(s.len() - suffix.len(), s.len() as int) == suffix
}

/// Whether the string `s` ends with `suffix`.
fn str_ends_with(s: &str, suffix: &str) -> (b: bool)
    ensures
        b == ends_with(s@, suffix@),
{
    let n = s.unicode_len();
    let m = suffix.unicode_len();
    if m > n {
        return false;
    }
    let off = n - m;
    let mut i: usize = 0;
    while i < m
        invariant
            n == s@.len(),
            m == suffix@.len(),
            m <= n,
            off == n - m,
            i <= m,
            forall|j: int| 0 <= j < i ==> s@[off + j] == suffix@[j],
        decreases m - i,
    {
        if s.get_char(off + i) != suffix.get_char(i) {
            assert(s@.subrange(off as int, n as int)[i as int] != suffix@[i as int]);
            return false;
        }
        i = i + 1;
    }
    assert(s@.subrange(off as int, n as int) =~= suffix@);
    true
}

/// The format written to `path`: JSON for ".json", CSV for ".csv", and
/// plain text for anything else.
pub open spec fn spec_output_format(path: Seq<char>) -> OutputFormat {
    if ends_with(path, ".json"@) {
        OutputFormat::Json
    } else if ends_with(path, ".csv"@) {
        OutputFormat::Csv
    } else {
        OutputFormat::Text
    }
}

/// A path ending in ".json" gets JSON, one ending in ".csv" gets CSV, and
/// one ending in ".txt" gets plain text, whatever comes before.
pub proof fn lemma_format_by_extension(stem: Seq<char>)
    ensures
        spec_output_format(stem + ".json"@) == OutputFormat::Json,
        spec_output_format(stem + ".csv"@) == OutputFormat::Csv,
        spec_output_format(stem + ".txt"@) == OutputFormat::Text,
{
    reveal_strlit(".json");
    reveal_strlit(".csv");
    reveal_strlit(".txt");
    let j = stem + ".json"@;
    assert(j.subrange(j.len() - 5, j.len() as int) =~= ".json"@);
    let c = stem + ".csv"@;
    assert(c.subrange(c.len() - 4, c.len() as int) =~= ".csv"@);
    assert(c[c.len() - 1] == 'v');
    assert(!ends_with(c, ".json"@)) by {
        if ends_with(c, ".json"@) {
            assert(c.subrange(c.len() - 5, c.len() as int)[4] == 'n');
        }
    }
    let t = stem + ".txt"@;
    assert(t[t.len() - 1] == 't');
    assert(!ends_with(t, ".json"@)) by {
        if ends_with(t, ".json"@) {
            assert(t.subrange(t.len() - 5, t.len() as int)[4] == 'n');
        }
    }
    assert(!ends_with(t, ".csv"@)) by {
        if ends_with(t, ".csv"@) {
            assert(t.subrange(t.len() - 4, t.len() as int)[3] == 'v');
        }
    }
}

/// The format of the output file `path`.
pub fn output_format(path: &str) -> (f: OutputFormat)
    ensures
        f == spec_output_format(path@),
{
    if str_ends_with(path, ".json") {
        OutputFormat::Json
    } else if str_ends_with(path, ".csv") {
        OutputFormat::Csv
    } else {
        OutputFormat::Text
    }
}

// ── CSV layout ────────────────────────────────────────────────────────────────

/// The column names of the key-distribution CSV: the common columns, then
/// the Bell-test columns when some shot has a CHSH value, then the key
/// columns when keys are written.
pub open spec fn spec_qkd_headers(has_chsh: bool, detail: bool) -> Seq<Seq<char>> {
    seq![
        "shot"@,
        "channel_type"@,
        "channel_p"@,
        "channel_q"@,
        "raw_length"@,
        "sifted"@,
        "sift_rate"@,
        "check_errors"@,
        "qber"@,
        "eve_count"@,
        "key_length"@,
        "keys_match"@,
    ] + (if has_chsh {
        seq!["chsh_value"@, "bell_violated"@]
    } else {
        Seq::empty()
    }) + (if detail {
        seq!["alice_key_hex"@, "bob_key_hex"@]
    } else {
        Seq::empty()
    })
}

/// The column names of the authentication CSV: the common columns, then
/// the vector columns when vectors are written.
pub open spec fn spec_auth_headers(detail: bool) -> Seq<Seq<char>> {
    seq![
        "shot"@,
        "channel_type"@,
        "channel_p"@,
        "channel_q"@,
        "total_qubits"@,
        "matches"@,
        "accuracy"@,
        "authenticated"@,
    ] + (if detail {
        seq![
            "alice_id_hex"@,
            "alice_commitment_hex"@,
            "bob_challenge_hex"@,
            "bob_recovered_hex"@,
        ]
    } else {
        Seq::empty()
    })
}

/// The characters of each string of a list.
pub open spec fn strs_view(v: Seq<String>) -> Seq<Seq<char>> {
    v.map_values(|s: String| s@)
}

fn push_owned(v: &mut Vec<String>, s: &str)
    ensures
        strs_view(final(v)@) == strs_view(old(v)@).push(s@),
{
    let ghost before = v@;
    v.push(owned(s));
    assert(strs_view(v@) =~= strs_view(before).push(s@));
}

/// The column names of the key-distribution CSV.
pub fn qkd_headers(has_chsh: bool, detail: bool) -> (h: Vec<String>)
    ensures
        strs_view(h@) == spec_qkd_headers(has_chsh, detail),
{
    let mut h: Vec<String> = Vec::new();
    push_owned(&mut h, "shot");
    push_owned(&mut h, "channel_type");
    push_owned(&mut h, "channel_p");
    push_owned(&mut h, "channel_q");
    push_owned(&mut h, "raw_length");
    push_owned(&mut h, "sifted");
    push_owned(&mut h, "sift_rate");
    push_owned(&mut h, "check_errors");
    push_owned(&mut h, "qber");
    push_owned(&mut h, "eve_count");
    push_owned(&mut h, "key_length");
    push_owned(&mut h, "keys_match");
    if has_chsh {
        push_owned(&mut h, "chsh_value");
        push_owned(&mut h, "bell_violated");
    }
    if detail {
        push_owned(&mut h, "alice_key_hex");
        push_owned(&mut h, "bob_key_hex");
    }
    assert(strs_view(h@) =~= spec_qkd_headers(has_chsh, detail));
    h
}

/// The column names of the authentication CSV.
pub fn auth_headers(detail: bool) -> (h: Vec<String>)
    ensures
        strs_view(h@) == spec_auth_headers(detail),
{
    let mut h: Vec<String> = Vec::new();
    push_owned(&mut h, "shot");
    push_owned(&mut h, "channel_type");
    push_owned(&mut h, "channel_p");
    push_owned(&mut h, "channel_q");
    push_owned(&mut h, "total_qubits");
    push_owned(&mut h, "matches");
    push_owned(&mut h, "accuracy");
    push_owned(&mut h, "authenticated");
    if detail {
        push_owned(&mut h, "alice_id_hex");
        push_owned(&mut h, "alice_commitment_hex");
        push_owned(&mut h, "bob_challenge_hex");
        push_owned(&mut h, "bob_recovered_hex");
    }
    assert(strs_view(h@) =~= spec_auth_headers(detail));
    h
}

/// The fields separated by `sep`.
pub open spec fn joined(fields: Seq<Seq<char>>, sep: Seq<char>) -> Seq<char>
    decreases fields.len(),
{
    if fields.len() == 0 {
        Seq::empty()
    } else if fields.len() == 1 {
        fields[0]
    } else {
        joined(fields.drop_last(), sep) + sep + fields.last()
    }
}

/// Joins `fields` with the separator `sep` (a CSV line with ",", a file
/// with a line break).
pub fn join(fields: &Vec<String>, sep: &str) -> (s: String)
    ensures
        s@ == joined(strs_view(fields@), sep@),
{
    let mut s = String::new();
    let mut i: usize = 0;
    while i < fields.len()
        invariant
            i <= fields@.len(),
            s@ == joined(strs_view(fields@).take(i as int), sep@),
        decreases fields@.len() - i,
    {
        proof {
            let t = strs_view(fields@).take((i + 1) as int);
            assert(t.drop_last() =~= strs_view(fields@).take(i as int));
            assert(t.last() == fields@[i as int]@);
            if i == 0 {
                assert(strs_view(fields@).take(0) =~= Seq::<Seq<char>>::empty());
                assert(t.len() == 1);
            }
        }
        if i > 0 {
            s.append(sep);
        }
        s.append(fields[i].as_str());
        proof {
            if i == 0 {
                assert(s@ =~= Seq::<char>::empty() + fields@[0]@);
            }
        }
        i = i + 1;
    }
    assert(strs_view(fields@).take(fields@.len() as int) =~= strs_view(fields@));
    s
}

/// Whether a shot is a key-distribution shot with a CHSH value.
pub open spec fn run_has_chsh<N>(r: RunData<N>) -> bool {
    match r {
        RunData::Qkd(d) => d.chsh_value is Some,
        _ => false,
    }
}

/// Whether some key-distribution shot has a CHSH value.
pub open spec fn spec_has_chsh<N>(runs: Seq<RunData<N>>) -> bool {
    exists|i: int| 0 <= i < runs.len() && #[trigger] run_has_chsh(runs[i])
}

/// Whether some key-distribution shot of `runs` has a CHSH value, in which
/// case the CSV carries the Bell-test columns.
pub fn has_chsh<N>(runs: &Vec<RunData<N>>) -> (b: bool)
    ensures
        b == spec_has_chsh(runs@),
{
    let mut i: usize = 0;
    while i < runs.len()
        invariant
            i <= runs@.len(),
            forall|j: int| 0 <= j < i ==> !#[trigger] run_has_chsh(runs@[j]),
        decreases runs@.len() - i,
    {
        if let RunData::Qkd(d) = &runs[i] {
            if d.chsh_value.is_some() {
                assert(run_has_chsh(runs@[i as int]));
                return true;
            }
        }
        i = i + 1;
    }
    false
}

// ── CSV rows ──────────────────────────────────────────────────────────────────

/// The text of an optional hexadecimal rendering; empty when absent.
pub open spec fn hex_or_empty(h: Option<String>) -> Seq<char> {
    match h {
        Some(x) => x@,
        None => Seq::empty(),
    }
}

fn push_hex_or_empty(v: &mut Vec<String>, h: &Option<String>)
    ensures
        strs_view(final(v)@) == strs_view(old(v)@).push(hex_or_empty(*h)),
{
    match h {
        Some(x) => push_owned(v, x.as_str()),
        None => {
            proof {
                reveal_strlit("");
                assert(""@ =~= Seq::<char>::empty());
            }
            push_owned(v, "");
        },
    }
}

fn push_decimal(v: &mut Vec<String>, n: usize)
    ensures
        strs_view(final(v)@) == strs_view(old(v)@).push(decimal_text(n as nat)),
{
    let ghost before = v@;
    v.push(decimal(n as u128));
    assert(strs_view(v@) =~= strs_view(before).push(decimal_text(n as nat)));
}

/// The real-valued cells of a key-distribution CSV row, rendered by the caller.
#[derive(Clone, Debug, Default)]
pub struct QkdCsvTexts {
    /// The channel's `p`.
    pub p: String,
    /// The channel's `q`.
    pub q: String,
    /// The sift rate (sifted over raw), four decimals.
    pub sift_rate: String,
    /// The QBER, six decimals; used only when a QBER is available.
    pub qber: String,
    /// The CHSH value, six decimals; used only when the shot has one.
    pub chsh: String,
    /// Whether the CHSH value exceeds 2 in absolute value.
    pub bell_violated: bool,
}

/// The cells of the CSV row of a key-distribution shot: shot number (from
/// 1), channel, counts, QBER ("N/A" when unavailable), the Bell-test cells
/// when the file has them ("N/A" for a shot without CHSH value), and the
/// keys (empty when not recorded) when keys are written.
pub open spec fn spec_qkd_csv_row<N>(
    r: QkdRun<N>,
    t: QkdCsvTexts,
    with_chsh: bool,
    detail: bool,
) -> Seq<Seq<char>> {
    seq![
        decimal_text((r.shot + 1) as nat),
        r.channel.channel_type@,
        t.p@,
        t.q@,
        decimal_text(r.raw_length as nat),
        decimal_text(r.sifted as nat),
        t.sift_rate@,
        decimal_text(r.check_errors as nat),
        if r.qber_available {
            t.qber@
        } else {
            "N/A"@
        },
        decimal_text(r.eve_count as nat),
        decimal_text(r.key_length as nat),
        bool_text(r.keys_match),
    ] + (if with_chsh {
        if r.chsh_value is Some {
            seq![t.chsh@, bool_text(t.bell_violated)]
        } else {
            seq!["N/A"@, "N/A"@]
        }
    } else {
        Seq::empty()
    }) + (if detail {
        seq![hex_or_empty(r.alice_key_hex), hex_or_empty(r.bob_key_hex)]
    } else {
        Seq::empty()
    })
}

/// The cells of the CSV row of a key-distribution shot.
pub fn qkd_csv_row<N>(r: &QkdRun<N>, t: &QkdCsvTexts, with_chsh: bool, detail: bool) -> (row: Vec<
    String,
>)
    ensures
        strs_view(row@) == spec_qkd_csv_row(*r, *t, with_chsh, detail),
{
    let mut row: Vec<String> = Vec::new();
    let ghost before = row@;
    row.push(decimal(r.shot as u128 + 1));
    assert(strs_view(row@) =~= strs_view(before).push(decimal_text((r.shot + 1) as nat)));
    push_owned(&mut row, r.channel.channel_type.as_str());
    push_owned(&mut row, t.p.as_str());
    push_owned(&mut row, t.q.as_str());
    push_decimal(&mut row, r.raw_length);
    push_decimal(&mut row, r.sifted);
    push_owned(&mut row, t.sift_rate.as_str());
    push_decimal(&mut row, r.check_errors);
    if r.qber_available {
        push_owned(&mut row, t.qber.as_str());
    } else {
        push_owned(&mut row, "N/A");
    }
    push_decimal(&mut row, r.eve_count);
    push_decimal(&mut row, r.key_length);
    push_owned(&mut row, bool_str(r.keys_match));
    if with_chsh {
        if r.chsh_value.is_some() {
            push_owned(&mut row, t.chsh.as_str());
            push_owned(&mut row, bool_str(t.bell_violated));
        } else {
            push_owned(&mut row, "N/A");
            push_owned(&mut row, "N/A");
        }
    }
    if detail {
        push_hex_or_empty(&mut row, &r.alice_key_hex);
        push_hex_or_empty(&mut row, &r.bob_key_hex);
    }
    assert(strs_view(row@) =~= spec_qkd_csv_row(*r, *t, with_chsh, detail));
    row
}

/// The real-valued cells of an authentication CSV row, rendered by the caller.
#[derive(Clone, Debug, Default)]
pub struct AuthCsvTexts {
    /// The channel's `p`.
    pub p: String,
    /// The channel's `q`.
    pub q: String,
    /// The accuracy, six decimals.
    pub accuracy: String,
}

/// The cells of the CSV row of an authentication shot.
pub open spec fn spec_auth_csv_row<N>(r: AuthRun<N>, t: AuthCsvTexts, detail: bool) -> Seq<
    Seq<char>,
> {
    seq![
        decimal_text((r.shot + 1) as nat),
        r.channel.channel_type@,
        t.p@,
        t.q@,
        decimal_text(r.total_qubits as nat),
        decimal_text(r.matches as nat),
        t.accuracy@,
        bool_text(r.authenticated),
    ] + (if detail {
        seq![
            hex_or_empty(r.alice_id_hex),
            hex_or_empty(r.alice_commitment_hex),
            hex_or_empty(r.bob_challenge_hex),
            hex_or_empty(r.bob_recovered_hex),
        ]
    } else {
        Seq::empty()
    })
}

/// The cells of the CSV row of an authentication shot.
pub fn auth_csv_row<N>(r: &AuthRun<N>, t: &AuthCsvTexts, detail: bool) -> (row: Vec<String>)
    ensures
        strs_view(row@) == spec_auth_csv_row(*r, *t, detail),
{
    let mut row: Vec<String> = Vec::new();
    let ghost before = row@;
    row.push(decimal(r.shot as u128 + 1));
    assert(strs_view(row@) =~= strs_view(before).push(decimal_text((r.shot + 1) as nat)));
    push_owned(&mut row, r.channel.channel_type.as_str());
    push_owned(&mut row, t.p.as_str());
    push_owned(&mut row, t.q.as_str());
    push_decimal(&mut row, r.total_qubits);
    push_decimal(&mut row, r.matches);
    push_owned(&mut row, t.accuracy.as_str());
    push_owned(&mut row, bool_str(r.authenticated));
    if detail {
        push_hex_or_empty(&mut row, &r.alice_id_hex);
        push_hex_or_empty(&mut row, &r.alice_commitment_hex);
        push_hex_or_empty(&mut row, &r.bob_challenge_hex);
        push_hex_or_empty(&mut row, &r.bob_recovered_hex);
    }
    assert(strs_view(row@) =~= spec_auth_csv_row(*r, *t, detail));
    row
}

/// The column names of the signature CSV.
pub open spec fn spec_qds_headers() -> Seq<Seq<char>> {
    seq![
        "shot"@,
        "channel_bob_type"@,
        "channel_bob_p"@,
        "channel_bob_q"@,
        "channel_charlie_type"@,
        "channel_charlie_p"@,
        "channel_charlie_q"@,
        "num_qubits"@,
        "message"@,
        "bob_mismatches"@,
        "charlie_mismatches"@,
        "bob_mismatch_rate"@,
        "charlie_mismatch_rate"@,
        "signature_accepted"@,
        "eve_intercepted_count"@,
    ]
}

/// The column names of the signature CSV.
pub fn qds_headers() -> (h: Vec<String>)
    ensures
        strs_view(h@) == spec_qds_headers(),
{
    let mut h: Vec<String> = Vec::new();
    push_owned(&mut h, "shot");
    push_owned(&mut h, "channel_bob_type");
    push_owned(&mut h, "channel_bob_p");
    push_owned(&mut h, "channel_bob_q");
    push_owned(&mut h, "channel_charlie_type");
    push_owned(&mut h, "channel_charlie_p");
    push_owned(&mut h, "channel_charlie_q");
    push_owned(&mut h, "num_qubits");
    push_owned(&mut h, "message");
    push_owned(&mut h, "bob_mismatches");
    push_owned(&mut h, "charlie_mismatches");
    push_owned(&mut h, "bob_mismatch_rate");
    push_owned(&mut h, "charlie_mismatch_rate");
    push_owned(&mut h, "signature_accepted");
    push_owned(&mut h, "eve_intercepted_count");
    assert(strs_view(h@) =~= spec_qds_headers());
    h
}

/// The real-valued cells of a signature CSV row, rendered by the caller.
#[derive(Clone, Debug, Default)]
pub struct QdsCsvTexts {
    pub bob_p: String,
    pub bob_q: String,
    pub charlie_p: String,
    pub charlie_q: String,
    /// Bob's mismatch rate, six decimals.
    pub bob_rate: String,
    /// Charlie's mismatch rate, six decimals.
    pub charlie_rate: String,
}

/// The cells of the CSV row of a signature shot.
pub open spec fn spec_qds_csv_row<N>(r: QdsRun<N>, t: QdsCsvTexts) -> Seq<Seq<char>> {
    seq![
        decimal_text((r.shot + 1) as nat),
        r.channel_bob.channel_type@,
        t.bob_p@,
        t.bob_q@,
        r.channel_charlie.channel_type@,
        t.charlie_p@,
        t.charlie_q@,
        decimal_text(r.num_qubits as nat),
        bool_text(r.message),
        decimal_text(r.bob_mismatches as nat),
        decimal_text(r.charlie_mismatches as nat),
        t.bob_rate@,
        t.charlie_rate@,
        bool_text(r.signature_accepted),
        decimal_text(r.eve_intercepted_count as nat),
    ]
}

/// The cells of the CSV row of a signature shot.
pub fn qds_csv_row<N>(r: &QdsRun<N>, t: &QdsCsvTexts) -> (row: Vec<String>)
    ensures
        strs_view(row@) == spec_qds_csv_row(*r, *t),
{
    let mut row: Vec<String> = Vec::new();
    let ghost before = row@;
    row.push(decimal(r.shot as u128 + 1));
    assert(strs_view(row@) =~= strs_view(before).push(decimal_text((r.shot + 1) as nat)));
    push_owned(&mut row, r.channel_bob.channel_type.as_str());
    push_owned(&mut row, t.bob_p.as_str());
    push_owned(&mut row, t.bob_q.as_str());
    push_owned(&mut row, r.channel_charlie.channel_type.as_str());
    push_owned(&mut row, t.charlie_p.as_str());
    push_owned(&mut row, t.charlie_q.as_str());
    push_decimal(&mut row, r.num_qubits);
    push_owned(&mut row, bool_str(r.message));
    push_decimal(&mut row, r.bob_mismatches);
    push_decimal(&mut row, r.charlie_mismatches);
    push_owned(&mut row, t.bob_rate.as_str());
    push_owned(&mut row, t.charlie_rate.as_str());
    push_owned(&mut row, bool_str(r.signature_accepted));
    push_decimal(&mut row, r.eve_intercepted_count);
    assert(strs_view(row@) =~= spec_qds_csv_row(*r, *t));
    row
}

// ── Whole CSV files ───────────────────────────────────────────────────────────

/// The data lines of the key-distribution CSV: one per key-distribution
/// shot, in order; shots of other kinds are skipped. `texts[i]` holds the
/// rendered cells of shot `i`.
pub open spec fn qkd_rows<N>(
    runs: Seq<RunData<N>>,
    texts: Seq<QkdCsvTexts>,
    with_chsh: bool,
    detail: bool,
) -> Seq<Seq<char>>
    decreases runs.len(),
{
    if runs.len() == 0 {
        Seq::empty()
    } else {
        qkd_rows(runs.drop_last(), texts, with_chsh, detail) + match runs.last() {
            RunData::Qkd(r) => seq![
                joined(spec_qkd_csv_row(r, texts[runs.len() - 1], with_chsh, detail), ","@),
            ],
            _ => Seq::empty(),
        }
    }
}

/// The key-distribution CSV: the header line, then one line per
/// key-distribution shot, separated by line breaks.
pub open spec fn spec_qkd_csv<N>(runs: Seq<RunData<N>>, texts: Seq<QkdCsvTexts>, detail: bool) -> Seq<
    char,
> {
    let with_chsh = spec_has_chsh(runs);
    joined(
        seq![joined(spec_qkd_headers(with_chsh, detail), ","@)] + qkd_rows(
            runs,
            texts,
            with_chsh,
            detail,
        ),
        "\n"@,
    )
}

/// Renders the key-distribution shots of `runs` as CSV; `texts[i]` holds the
/// rendered real-valued cells of shot `i`.
pub fn qkd_to_csv<N>(runs: &Vec<RunData<N>>, texts: &Vec<QkdCsvTexts>, detail: bool) -> (csv: String)
    requires
        texts@.len() == runs@.len(),
    ensures
        csv@ == spec_qkd_csv(runs@, texts@, detail),
{
    let with_chsh = has_chsh(runs);
    let mut lines: Vec<String> = Vec::new();
    lines.push(join(&qkd_headers(with_chsh, detail), ","));
    let ghost head = strs_view(lines@);
    let mut i: usize = 0;
    while i < runs.len()
        invariant
            texts@.len() == runs@.len(),
            i <= runs@.len(),
            with_chsh == spec_has_chsh(runs@),
            head == seq![joined(spec_qkd_headers(with_chsh, detail), ","@)],
            strs_view(lines@) == head + qkd_rows(runs@.take(i as int), texts@, with_chsh, detail),
        decreases runs@.len() - i,
    {
        let ghost prefix = runs@.take((i + 1) as int);
        proof {
            assert(prefix.drop_last() =~= runs@.take(i as int));
            assert(prefix.last() == runs@[i as int]);
        }
        let ghost before = strs_view(lines@);
        if let RunData::Qkd(r) = &runs[i] {
            let line = join(&qkd_csv_row(r, &texts[i], with_chsh, detail), ",");
            let ghost old_lines = lines@;
            lines.push(line);
            assert(strs_view(lines@) =~= strs_view(old_lines).push(line@));
        }
        proof {
            assert(strs_view(lines@) =~= head + qkd_rows(prefix, texts@, with_chsh, detail));
        }
        i = i + 1;
    }
    assert(runs@.take(runs@.len() as int) =~= runs@);
    join(&lines, "\n")
}

/// The data lines of the authentication CSV.
pub open spec fn auth_rows<N>(runs: Seq<RunData<N>>, texts: Seq<AuthCsvTexts>, detail: bool) -> Seq<
    Seq<char>,
>
    decreases runs.len(),
{
    if runs.len() == 0 {
        Seq::empty()
    } else {
        auth_rows(runs.drop_last(), texts, detail) + match runs.last() {
            RunData::Auth(r) => seq![
                joined(spec_auth_csv_row(r, texts[runs.len() - 1], detail), ","@),
            ],
            _ => Seq::empty(),
        }
    }
}

/// The authentication CSV: the header line, then one line per
/// authentication shot.
pub open spec fn spec_auth_csv<N>(runs: Seq<RunData<N>>, texts: Seq<AuthCsvTexts>, detail: bool) -> Seq<
    char,
> {
    joined(
        seq![joined(spec_auth_headers(detail), ","@)] + auth_rows(runs, texts, detail),
        "\n"@,
    )
}

/// Renders the authentication shots of `runs` as CSV.
pub fn auth_to_csv<N>(runs: &Vec<RunData<N>>, texts: &Vec<AuthCsvTexts>, detail: bool) -> (csv:
    String)
    requires
        texts@.len() == runs@.len(),
    ensures
        csv@ == spec_auth_csv(runs@, texts@, detail),
{
    let mut lines: Vec<String> = Vec::new();
    lines.push(join(&auth_headers(detail), ","));
    let ghost head = strs_view(lines@);
    let mut i: usize = 0;
    while i < runs.len()
        invariant
            texts@.len() == runs@.len(),
            i <= runs@.len(),
            head == seq![joined(spec_auth_headers(detail), ","@)],
            strs_view(lines@) == head + auth_rows(runs@.take(i as int), texts@, detail),
        decreases runs@.len() - i,
    {
        let ghost prefix = runs@.take((i + 1) as int);
        proof {
            assert(prefix.drop_last() =~= runs@.take(i as int));
            assert(prefix.last() == runs@[i as int]);
        }
        if let RunData::Auth(r) = &runs[i] {
            let line = join(&auth_csv_row(r, &texts[i], detail), ",");
            let ghost old_lines = lines@;
            lines.push(line);
            assert(strs_view(lines@) =~= strs_view(old_lines).push(line@));
        }
        proof {
            assert(strs_view(lines@) =~= head + auth_rows(prefix, texts@, detail));
        }
        i = i + 1;
    }
    assert(runs@.take(runs@.len() as int) =~= runs@);
    join(&lines, "\n")
}

/// The data lines of the signature CSV.
pub open spec fn qds_rows<N>(runs: Seq<RunData<N>>, texts: Seq<QdsCsvTexts>) -> Seq<Seq<char>>
    decreases runs.len(),
{
    if runs.len() == 0 {
        Seq::empty()
    } else {
        qds_rows(runs.drop_last(), texts) + match runs.last() {
            RunData::Qds(r) => seq![joined(spec_qds_csv_row(r, texts[runs.len() - 1]), ","@)],
            _ => Seq::empty(),
        }
    }
}

/// The signature CSV: the header line, then one line per signature shot.
pub open spec fn spec_qds_csv<N>(runs: Seq<RunData<N>>, texts: Seq<QdsCsvTexts>) -> Seq<char> {
    joined(seq![joined(spec_qds_headers(), ","@)] + qds_rows(runs, texts), "\n"@)
}

/// Renders the signature shots of `runs` as CSV.
pub fn qds_to_csv<N>(runs: &Vec<RunData<N>>, texts: &Vec<QdsCsvTexts>) -> (csv: String)
    requires
        texts@.len() == runs@.len(),
    ensures
        csv@ == spec_qds_csv(runs@, texts@),
{
    let mut lines: Vec<String> = Vec::new();
    lines.push(join(&qds_headers(), ","));
    let ghost head = strs_view(lines@);
    let mut i: usize = 0;
    while i < runs.len()
        invariant
            texts@.len() == runs@.len(),
            i <= runs@.len(),
            head == seq![joined(spec_qds_headers(), ","@)],
            strs_view(lines@) == head + qds_rows(runs@.take(i as int), texts@),
        decreases runs@.len() - i,
    {
        let ghost prefix = runs@.take((i + 1) as int);
        proof {
            assert(prefix.drop_last() =~= runs@.take(i as int));
            assert(prefix.last() == runs@[i as int]);
        }
        if let RunData::Qds(r) = &runs[i] {
            let line = join(&qds_csv_row(r, &texts[i]), ",");
            let ghost old_lines = lines@;
            lines.push(line);
            assert(strs_view(lines@) =~= strs_view(old_lines).push(line@));
        }
        proof {
            assert(strs_view(lines@) =~= head + qds_rows(prefix, texts@));
        }
        i = i + 1;
    }
    assert(runs@.take(runs@.len() as int) =~= runs@);
    join(&lines, "\n")
}

/// The CSV file of a non-empty set of shots: its layout follows the first
/// shot, and only shots of that kind get a line.
pub open spec fn spec_csv_file<N>(
    runs: Seq<RunData<N>>,
    qkd_texts: Seq<QkdCsvTexts>,
    auth_texts: Seq<AuthCsvTexts>,
    qds_texts: Seq<QdsCsvTexts>,
    detail: bool,
) -> Seq<char> {
    match runs[0] {
        RunData::Qkd(_) => spec_qkd_csv(runs, qkd_texts, detail),
        RunData::Auth(_) => spec_auth_csv(runs, auth_texts, detail),
        RunData::Qds(_) => spec_qds_csv(runs, qds_texts),
    }
}

/// Renders a non-empty set of shots as the CSV of the first shot's kind;
/// only the cells of that kind need to be given, one entry per shot.
pub fn csv_file<N>(
    runs: &Vec<RunData<N>>,
    qkd_texts: &Vec<QkdCsvTexts>,
    auth_texts: &Vec<AuthCsvTexts>,
    qds_texts: &Vec<QdsCsvTexts>,
    detail: bool,
) -> (csv: String)
    requires
        runs@.len() > 0,
        runs@[0] is Qkd ==> qkd_texts@.len() == runs@.len(),
        runs@[0] is Auth ==> auth_texts@.len() == runs@.len(),
        runs@[0] is Qds ==> qds_texts@.len() == runs@.len(),
    ensures
        csv@ == spec_csv_file(runs@, qkd_texts@, auth_texts@, qds_texts@, detail),
{
    match &runs[0] {
        RunData::Qkd(_) => qkd_to_csv(runs, qkd_texts, detail),
        RunData::Auth(_) => auth_to_csv(runs, auth_texts, detail),
        RunData::Qds(_) => qds_to_csv(runs, qds_texts),
    }
}

// ── Values of the JSON output ─────────────────────────────────────────────────

/// The number under which shot `shot` appears in every output: shots are
/// counted from 1.
pub fn shot_number(shot: usize) -> (n: usize)
    requires
        shot < usize::MAX,
    ensures
        n == shot + 1,
{
    shot + 1
}

/// The QBER of a key-distribution shot as the JSON output gives it: none
/// (null) when no QBER could be estimated.
pub fn shown_qber<N: Copy>(r: &QkdRun<N>) -> (q: Option<N>)
    ensures
        q == (if r.qber_available {
            Some(r.qber)
        } else {
            None::<N>
        }),
{
    if r.qber_available {
        Some(r.qber)
    } else {
        None
    }
}

// ── Keys of the JSON output ───────────────────────────────────────────────────

/// A key that is present only when `present`.
pub open spec fn key_if(present: bool, key: Seq<char>) -> Seq<Seq<char>> {
    if present {
        seq![key]
    } else {
        Seq::empty()
    }
}

/// The keys of a shot's JSON object, in order: the fixed ones of its kind,
/// the CHSH fields when the shot has a CHSH value, and each recorded
/// hexadecimal rendering.
pub open spec fn spec_run_json_keys<N>(r: RunData<N>) -> Seq<Seq<char>> {
    match r {
        RunData::Qkd(d) => seq![
            "shot"@,
            "channel_type"@,
            "channel_p"@,
            "channel_q"@,
            "raw_length"@,
            "sifted"@,
            "sift_rate"@,
            "check_errors"@,
            "qber"@,
            "eve_count"@,
            "key_length"@,
            "keys_match"@,
        ] + key_if(d.chsh_value is Some, "chsh_value"@) + key_if(d.chsh_value is Some, "bell_violated"@)
            + key_if(d.alice_key_hex is Some, "alice_key_hex"@) + key_if(
            d.bob_key_hex is Some,
            "bob_key_hex"@,
        ),
        RunData::Auth(d) => seq![
            "shot"@,
            "channel_type"@,
            "channel_p"@,
            "channel_q"@,
            "total_qubits"@,
            "matches"@,
            "accuracy"@,
            "authenticated"@,
        ] + key_if(d.alice_id_hex is Some, "alice_id_hex"@) + key_if(
            d.alice_commitment_hex is Some,
            "alice_commitment_hex"@,
        ) + key_if(d.bob_challenge_hex is Some, "bob_challenge_hex"@) + key_if(
            d.bob_recovered_hex is Some,
            "bob_recovered_hex"@,
        ),
        RunData::Qds(_) => seq![
            "shot"@,
            "channel_bob_type"@,
            "channel_bob_p"@,
            "channel_bob_q"@,
            "channel_charlie_type"@,
            "channel_charlie_p"@,
            "channel_charlie_q"@,
            "num_qubits"@,
            "message"@,
            "bob_mismatches"@,
            "charlie_mismatches"@,
            "bob_mismatch_rate"@,
            "charlie_mismatch_rate"@,
            "signature_accepted"@,
            "eve_intercepted_count"@,
        ],
    }
}

fn push_owned_if(v: &mut Vec<String>, present: bool, s: &str)
    ensures
        strs_view(final(v)@) == strs_view(old(v)@) + key_if(present, s@),
{
    if present {
        push_owned(v, s);
    } else {
        assert(strs_view(v@) + key_if(present, s@) =~= strs_view(v@));
    }
}

/// The keys of the JSON object of shot `r`, in order.
pub fn run_json_keys<N>(r: &RunData<N>) -> (keys: Vec<String>)
    ensures
        strs_view(keys@) == spec_run_json_keys(*r),
{
    let mut k: Vec<String> = Vec::new();
    push_owned(&mut k, "shot");
    match r {
        RunData::Qkd(d) => {
            push_owned(&mut k, "channel_type");
            push_owned(&mut k, "channel_p");
            push_owned(&mut k, "channel_q");
            push_owned(&mut k, "raw_length");
            push_owned(&mut k, "sifted");
            push_owned(&mut k, "sift_rate");
            push_owned(&mut k, "check_errors");
            push_owned(&mut k, "qber");
            push_owned(&mut k, "eve_count");
            push_owned(&mut k, "key_length");
            push_owned(&mut k, "keys_match");
            let ghost fixed = strs_view(k@);
            let chsh = d.chsh_value.is_some();
            push_owned_if(&mut k, chsh, "chsh_value");
            push_owned_if(&mut k, chsh, "bell_violated");
            push_owned_if(&mut k, d.alice_key_hex.is_some(), "alice_key_hex");
            push_owned_if(&mut k, d.bob_key_hex.is_some(), "bob_key_hex");
            assert(fixed =~= seq![
                "shot"@,
                "channel_type"@,
                "channel_p"@,
                "channel_q"@,
                "raw_length"@,
                "sifted"@,
                "sift_rate"@,
                "check_errors"@,
                "qber"@,
                "eve_count"@,
                "key_length"@,
                "keys_match"@,
            ]);
        },
        RunData::Auth(d) => {
            push_owned(&mut k, "channel_type");
            push_owned(&mut k, "channel_p");
            push_owned(&mut k, "channel_q");
            push_owned(&mut k, "total_qubits");
            push_owned(&mut k, "matches");
            push_owned(&mut k, "accuracy");
            push_owned(&mut k, "authenticated");
            let ghost fixed = strs_view(k@);
            push_owned_if(&mut k, d.alice_id_hex.is_some(), "alice_id_hex");
            push_owned_if(&mut k, d.alice_commitment_hex.is_some(), "alice_commitment_hex");
            push_owned_if(&mut k, d.bob_challenge_hex.is_some(), "bob_challenge_hex");
            push_owned_if(&mut k, d.bob_recovered_hex.is_some(), "bob_recovered_hex");
            assert(fixed =~= seq![
                "shot"@,
                "channel_type"@,
                "channel_p"@,
                "channel_q"@,
                "total_qubits"@,
                "matches"@,
                "accuracy"@,
                "authenticated"@,
            ]);
        },
        RunData::Qds(_) => {
            push_owned(&mut k, "channel_bob_type");
            push_owned(&mut k, "channel_bob_p");
            push_owned(&mut k, "channel_bob_q");
            push_owned(&mut k, "channel_charlie_type");
            push_owned(&mut k, "channel_charlie_p");
            push_owned(&mut k, "channel_charlie_q");
            push_owned(&mut k, "num_qubits");
            push_owned(&mut k, "message");
            push_owned(&mut k, "bob_mismatches");
            push_owned(&mut k, "charlie_mismatches");
            push_owned(&mut k, "bob_mismatch_rate");
            push_owned(&mut k, "charlie_mismatch_rate");
            push_owned(&mut k, "signature_accepted");
            push_owned(&mut k, "eve_intercepted_count");
            assert(strs_view(k@) =~= spec_run_json_keys(*r));
        },
    }
    k
}

/// The keys of the JSON object of an aggregate, in order: the fixed ones of
/// its kind, and the CHSH statistics when some shot has a CHSH value.
pub open spec fn spec_aggregate_json_keys<N>(c: Collected<N>) -> Seq<Seq<char>> {
    match c {
        Collected::Qkd { chsh_values, .. } => seq![
            "protocol"@,
            "shots"@,
            "mean_qber"@,
            "std_qber"@,
            "mean_key_length"@,
            "std_key_length"@,
            "keys_match_rate"@,
        ] + key_if(chsh_values@.len() > 0, "mean_chsh"@) + key_if(
            chsh_values@.len() > 0,
            "std_chsh"@,
        ) + key_if(chsh_values@.len() > 0, "bell_violation_rate"@),
        Collected::Auth { .. } => seq![
            "protocol"@,
            "shots"@,
            "mean_accuracy"@,
            "std_accuracy"@,
            "authentication_rate"@,
        ],
        Collected::Qds { .. } => seq![
            "protocol"@,
            "shots"@,
            "mean_bob_mismatch_rate"@,
            "std_bob_mismatch_rate"@,
            "mean_charlie_mismatch_rate"@,
            "std_charlie_mismatch_rate"@,
            "acceptance_rate"@,
            "mean_eve_count"@,
        ],
    }
}

/// The keys of the JSON object of the aggregate collected in `c`, in order.
pub fn aggregate_json_keys<N>(c: &Collected<N>) -> (keys: Vec<String>)
    ensures
        strs_view(keys@) == spec_aggregate_json_keys(*c),
{
    let mut k: Vec<String> = Vec::new();
    push_owned(&mut k, "protocol");
    push_owned(&mut k, "shots");
    match c {
        Collected::Qkd { chsh_values, .. } => {
            push_owned(&mut k, "mean_qber");
            push_owned(&mut k, "std_qber");
            push_owned(&mut k, "mean_key_length");
            push_owned(&mut k, "std_key_length");
            push_owned(&mut k, "keys_match_rate");
            let ghost fixed = strs_view(k@);
            let chsh = chsh_values.len() > 0;
            push_owned_if(&mut k, chsh, "mean_chsh");
            push_owned_if(&mut k, chsh, "std_chsh");
            push_owned_if(&mut k, chsh, "bell_violation_rate");
            assert(fixed =~= seq![
                "protocol"@,
                "shots"@,
                "mean_qber"@,
                "std_qber"@,
                "mean_key_length"@,
                "std_key_length"@,
                "keys_match_rate"@,
            ]);
        },
        Collected::Auth { .. } => {
            push_owned(&mut k, "mean_accuracy");
            push_owned(&mut k, "std_accuracy");
            push_owned(&mut k, "authentication_rate");
            assert(strs_view(k@) =~= spec_aggregate_json_keys(*c));
        },
        Collected::Qds { .. } => {
            push_owned(&mut k, "mean_bob_mismatch_rate");
            push_owned(&mut k, "std_bob_mismatch_rate");
            push_owned(&mut k, "mean_charlie_mismatch_rate");
            push_owned(&mut k, "std_charlie_mismatch_rate");
            push_owned(&mut k, "acceptance_rate");
            push_owned(&mut k, "mean_eve_count");
            assert(strs_view(k@) =~= spec_aggregate_json_keys(*c));
        },
    }
    k
}

/// A shot's JSON object has the same fields, in the same order, as the
/// columns of its kind's CSV file: the CHSH fields exactly when the shot has
/// a CHSH value, and the key (or vector) fields when they are recorded.
pub proof fn lemma_json_fields_follow_csv_columns<N>(r: RunData<N>)
    ensures
        match r {
            RunData::Qkd(d) => {
                &&& d.alice_key_hex is Some && d.bob_key_hex is Some ==> spec_run_json_keys(r)
                    == spec_qkd_headers(d.chsh_value is Some, true)
                &&& d.alice_key_hex is None && d.bob_key_hex is None ==> spec_run_json_keys(r)
                    == spec_qkd_headers(d.chsh_value is Some, false)
            },
            RunData::Auth(d) => {
                &&& d.alice_id_hex is Some && d.alice_commitment_hex is Some
                    && d.bob_challenge_hex is Some && d.bob_recovered_hex is Some
                    ==> spec_run_json_keys(r) == spec_auth_headers(true)
                &&& d.alice_id_hex is None && d.alice_commitment_hex is None
                    && d.bob_challenge_hex is None && d.bob_recovered_hex is None
                    ==> spec_run_json_keys(r) == spec_auth_headers(false)
            },
            RunData::Qds(_) => spec_run_json_keys(r) == spec_qds_headers(),
        },
{
    match r {
        RunData::Qkd(d) => {
            assert(d.alice_key_hex is Some && d.bob_key_hex is Some ==> spec_run_json_keys(r)
                =~= spec_qkd_headers(d.chsh_value is Some, true));
            assert(d.alice_key_hex is None && d.bob_key_hex is None ==> spec_run_json_keys(r)
                =~= spec_qkd_headers(d.chsh_value is Some, false));
        },
        RunData::Auth(d) => {
            assert(d.alice_id_hex is Some && d.alice_commitment_hex is Some
                && d.bob_challenge_hex is Some && d.bob_recovered_hex is Some
                ==> spec_run_json_keys(r) =~= spec_auth_headers(true));
            assert(d.alice_id_hex is None && d.alice_commitment_hex is None
                && d.bob_challenge_hex is None && d.bob_recovered_hex is None
                ==> spec_run_json_keys(r) =~= spec_auth_headers(false));
        },
        RunData::Qds(_) => {
            assert(spec_run_json_keys(r) =~= spec_qds_headers());
        },
    }
}

proof fn lemma_chsh_samples_iff_some_chsh<N>(runs: Seq<RunData<N>>)
    ensures
        chsh_values_of(runs).len() > 0 <==> spec_has_chsh(runs),
    decreases runs.len(),
{
    if runs.len() > 0 {
        let rest = runs.drop_last();
        let n = runs.len() - 1;
        lemma_chsh_samples_iff_some_chsh(rest);
        assert(runs.last() == runs[n]);
        assert(chsh_values_of(runs).len() == chsh_values_of(rest).len() + (if run_has_chsh(
            runs[n],
        ) {
            1int
        } else {
            0
        }));
        if spec_has_chsh(rest) {
            let i = choose|i: int| 0 <= i < rest.len() && #[trigger] run_has_chsh(rest[i]);
            assert(rest[i] == runs[i]);
            assert(run_has_chsh(runs[i]));
        }
        if run_has_chsh(runs[n]) {
            assert(spec_has_chsh(runs));
        }
        if spec_has_chsh(runs) && !run_has_chsh(runs[n]) {
            let i = choose|i: int| 0 <= i < runs.len() && #[trigger] run_has_chsh(runs[i]);
            assert(i < rest.len());
            assert(rest[i] == runs[i]);
            assert(run_has_chsh(rest[i]));
        }
    }
}

/// The JSON aggregate of key-distribution shots has its three CHSH fields
/// exactly when the CSV of the same shots has its Bell-test columns: when
/// some shot has a CHSH value.
pub proof fn lemma_aggregate_chsh_fields<N>(c: Collected<N>, runs: Seq<RunData<N>>)
    requires
        runs.len() > 0,
        collected_from(c, runs),
        c is Qkd,
    ensures
        spec_aggregate_json_keys(c).len() == 7 + (if spec_has_chsh(runs) {
            3int
        } else {
            0
        }),
{
    lemma_chsh_samples_iff_some_chsh(runs);
}

// ── Each shot has its own line ────────────────────────────────────────────────

/// The key-distribution shots among `runs`, in order.
pub open spec fn qkd_shots<N>(runs: Seq<RunData<N>>) -> Seq<RunData<N>> {
    runs.filter(|r: RunData<N>| r is Qkd)
}

/// The authentication shots among `runs`, in order.
pub open spec fn auth_shots<N>(runs: Seq<RunData<N>>) -> Seq<RunData<N>> {
    runs.filter(|r: RunData<N>| r is Auth)
}

/// The signature shots among `runs`, in order.
pub open spec fn qds_shots<N>(runs: Seq<RunData<N>>) -> Seq<RunData<N>> {
    runs.filter(|r: RunData<N>| r is Qds)
}

proof fn lemma_qkd_rows_by_shot<N>(runs: Seq<RunData<N>>, texts: Seq<QkdCsvTexts>, with_chsh: bool, detail: bool)
    ensures
        qkd_rows(runs, texts, with_chsh, detail).len() == qkd_shots(runs).len(),
        forall|i: int|
            0 <= i < runs.len() && #[trigger] runs[i] is Qkd ==> qkd_shots(runs.take(i)).len()
                < qkd_shots(runs).len() && qkd_rows(runs, texts, with_chsh, detail)[qkd_shots(runs.take(i)).len() as int]
                == joined(spec_qkd_csv_row(runs[i]->Qkd_0, texts[i], with_chsh, detail), ","@),
    decreases runs.len(),
{
    reveal(Seq::filter);
    if runs.len() > 0 {
        let rest = runs.drop_last();
        let n = runs.len() - 1;
        lemma_qkd_rows_by_shot(rest, texts, with_chsh, detail);
        assert(runs.take(n) =~= rest);
        assert(qkd_shots(runs) == if runs.last() is Qkd {
            qkd_shots(rest).push(runs.last())
        } else {
            qkd_shots(rest)
        });
        assert forall|i: int|
            0 <= i < runs.len() && #[trigger] runs[i] is Qkd implies qkd_shots(runs.take(i)).len()
                < qkd_shots(runs).len() && qkd_rows(runs, texts, with_chsh, detail)[qkd_shots(runs.take(i)).len() as int]
                == joined(spec_qkd_csv_row(runs[i]->Qkd_0, texts[i], with_chsh, detail), ","@) by {
            if i < n {
                assert(runs.take(i) =~= rest.take(i));
                assert(rest[i] == runs[i]);
            }
        }
    }
}

proof fn lemma_auth_rows_by_shot<N>(runs: Seq<RunData<N>>, texts: Seq<AuthCsvTexts>, detail: bool)
    ensures
        auth_rows(runs, texts, detail).len() == auth_shots(runs).len(),
        forall|i: int|
            0 <= i < runs.len() && #[trigger] runs[i] is Auth ==> auth_shots(runs.take(i)).len()
                < auth_shots(runs).len() && auth_rows(runs, texts, detail)[auth_shots(runs.take(i)).len() as int]
                == joined(spec_auth_csv_row(runs[i]->Auth_0, texts[i], detail), ","@),
    decreases runs.len(),
{
    reveal(Seq::filter);
    if runs.len() > 0 {
        let rest = runs.drop_last();
        let n = runs.len() - 1;
        lemma_auth_rows_by_shot(rest, texts, detail);
        assert(runs.take(n) =~= rest);
        assert(auth_shots(runs) == if runs.last() is Auth {
            auth_shots(rest).push(runs.last())
        } else {
            auth_shots(rest)
        });
        assert forall|i: int|
            0 <= i < runs.len() && #[trigger] runs[i] is Auth implies auth_shots(runs.take(i)).len()
                < auth_shots(runs).len() && auth_rows(runs, texts, detail)[auth_shots(runs.take(i)).len() as int]
                == joined(spec_auth_csv_row(runs[i]->Auth_0, texts[i], detail), ","@) by {
            if i < n {
                assert(runs.take(i) =~= rest.take(i));
                assert(rest[i] == runs[i]);
            }
        }
    }
}

proof fn lemma_qds_rows_by_shot<N>(runs: Seq<RunData<N>>, texts: Seq<QdsCsvTexts>)
    ensures
        qds_rows(runs, texts).len() == qds_shots(runs).len(),
        forall|i: int|
            0 <= i < runs.len() && #[trigger] runs[i] is Qds ==> qds_shots(runs.take(i)).len()
                < qds_shots(runs).len() && qds_rows(runs, texts)[qds_shots(runs.take(i)).len() as int]
                == joined(spec_qds_csv_row(runs[i]->Qds_0, texts[i]), ","@),
    decreases runs.len(),
{
    reveal(Seq::filter);
    if runs.len() > 0 {
        let rest = runs.drop_last();
        let n = runs.len() - 1;
        lemma_qds_rows_by_shot(rest, texts);
        assert(runs.take(n) =~= rest);
        assert(qds_shots(runs) == if runs.last() is Qds {
            qds_shots(rest).push(runs.last())
        } else {
            qds_shots(rest)
        });
        assert forall|i: int|
            0 <= i < runs.len() && #[trigger] runs[i] is Qds implies qds_shots(runs.take(i)).len()
                < qds_shots(runs).len() && qds_rows(runs, texts)[qds_shots(runs.take(i)).len() as int]
                == joined(spec_qds_csv_row(runs[i]->Qds_0, texts[i]), ","@) by {
            if i < n {
                assert(runs.take(i) =~= rest.take(i));
                assert(rest[i] == runs[i]);
            }
        }
    }
}

/// Every key-distribution shot has its own line in the CSV, built from its
/// own record and its own rendered cells: the file is the header line
/// followed by one line per key-distribution shot, in order, and the line of
/// shot `i` is the row of `runs[i]` with `texts[i]`.
pub proof fn lemma_qkd_csv_line_per_shot<N>(
    runs: Seq<RunData<N>>,
    texts: Seq<QkdCsvTexts>,
    detail: bool,
)
    ensures
        ({
            let with_chsh = spec_has_chsh(runs);
            let lines = qkd_rows(runs, texts, with_chsh, detail);
            &&& spec_qkd_csv(runs, texts, detail) == joined(
                seq![joined(spec_qkd_headers(with_chsh, detail), ","@)] + lines,
                "\n"@,
            )
            &&& lines.len() == qkd_shots(runs).len()
            &&& forall|i: int|
                0 <= i < runs.len() && #[trigger] runs[i] is Qkd ==> lines[qkd_shots(
                    runs.take(i),
                ).len() as int] == joined(
                    spec_qkd_csv_row(runs[i]->Qkd_0, texts[i], with_chsh, detail),
                    ","@,
                )
        }),
{
    lemma_qkd_rows_by_shot(runs, texts, spec_has_chsh(runs), detail);
}

/// Every authentication shot has its own line in the CSV, built from its
/// own record and its own rendered cells.
pub proof fn lemma_auth_csv_line_per_shot<N>(
    runs: Seq<RunData<N>>,
    texts: Seq<AuthCsvTexts>,
    detail: bool,
)
    ensures
        ({
            let lines = auth_rows(runs, texts, detail);
            &&& spec_auth_csv(runs, texts, detail) == joined(
                seq![joined(spec_auth_headers(detail), ","@)] + lines,
                "\n"@,
            )
            &&& lines.len() == auth_shots(runs).len()
            &&& forall|i: int|
                0 <= i < runs.len() && #[trigger] runs[i] is Auth ==> lines[auth_shots(
                    runs.take(i),
                ).len() as int] == joined(spec_auth_csv_row(runs[i]->Auth_0, texts[i], detail), ","@)
        }),
{
    lemma_auth_rows_by_shot(runs, texts, detail);
}

/// Every signature shot has its own line in the CSV, built from its own
/// record and its own rendered cells.
pub proof fn lemma_qds_csv_line_per_shot<N>(runs: Seq<RunData<N>>, texts: Seq<QdsCsvTexts>)
    ensures
        ({
            let lines = qds_rows(runs, texts);
            &&& spec_qds_csv(runs, texts) == joined(
                seq![joined(spec_qds_headers(), ","@)] + lines,
                "\n"@,
            )
            &&& lines.len() == qds_shots(runs).len()
            &&& forall|i: int|
                0 <= i < runs.len() && #[trigger] runs[i] is Qds ==> lines[qds_shots(
                    runs.take(i),
                ).len() as int] == joined(spec_qds_csv_row(runs[i]->Qds_0, texts[i]), ","@)
        }),
{
    lemma_qds_rows_by_shot(runs, texts);
}

/// The CSV carries the Bell-test columns exactly when some key-distribution
/// shot has a CHSH value.
pub proof fn lemma_bell_columns_when_some_shot_has_chsh<N>(runs: Seq<RunData<N>>)
    ensures
        spec_has_chsh(runs) <==> exists|i: int|
            0 <= i < runs.len() && (#[trigger] runs[i] matches RunData::Qkd(d)
                && d.chsh_value is Some),
{
    if spec_has_chsh(runs) {
        let i = choose|i: int| 0 <= i < runs.len() && #[trigger] run_has_chsh(runs[i]);
        assert(runs[i] matches RunData::Qkd(d) && d.chsh_value is Some);
    }
    if exists|i: int|
        0 <= i < runs.len() && (#[trigger] runs[i] matches RunData::Qkd(d) && d.chsh_value is Some) {
        let i = choose|i: int|
            0 <= i < runs.len() && (#[trigger] runs[i] matches RunData::Qkd(d)
                && d.chsh_value is Some);
        assert(run_has_chsh(runs[i]));
    }
}

// ── Each cell under its own column ────────────────────────────────────────────

/// Column `j` is called `name` and the row holds `value` in it.
pub open spec fn column_holds(
    header: Seq<Seq<char>>,
    row: Seq<Seq<char>>,
    j: int,
    name: Seq<char>,
    value: Seq<char>,
) -> bool {
    0 <= j < header.len() && j < row.len() && header[j] == name && row[j] == value
}

/// Each cell of a key-distribution row stands under the column that names
/// it: the shot number (from 1), the channel's type, `p` and `q`, the
/// counts, the sift rate, the QBER ("N/A" without an estimate), Eve's
/// interceptions, the key length and whether the keys match; then the
/// CHSH value and Bell verdict when the file has those columns ("N/A" for a
/// shot without CHSH value); then the keys when they are written.
pub proof fn lemma_qkd_cells_under_columns<N>(
    r: QkdRun<N>,
    t: QkdCsvTexts,
    with_chsh: bool,
    detail: bool,
)
    ensures
        ({
            let h = spec_qkd_headers(with_chsh, detail);
            let row = spec_qkd_csv_row(r, t, with_chsh, detail);
            let k: int = if with_chsh {
                14
            } else {
                12
            };
            &&& row.len() == h.len()
            &&& column_holds(h, row, 0, "shot"@, decimal_text((r.shot + 1) as nat))
            &&& column_holds(h, row, 1, "channel_type"@, r.channel.channel_type@)
            &&& column_holds(h, row, 2, "channel_p"@, t.p@)
            &&& column_holds(h, row, 3, "channel_q"@, t.q@)
            &&& column_holds(h, row, 4, "raw_length"@, decimal_text(r.raw_length as nat))
            &&& column_holds(h, row, 5, "sifted"@, decimal_text(r.sifted as nat))
            &&& column_holds(h, row, 6, "sift_rate"@, t.sift_rate@)
            &&& column_holds(h, row, 7, "check_errors"@, decimal_text(r.check_errors as nat))
            &&& column_holds(
                h,
                row,
                8,
                "qber"@,
                if r.qber_available {
                    t.qber@
                } else {
                    "N/A"@
                },
            )
            &&& column_holds(h, row, 9, "eve_count"@, decimal_text(r.eve_count as nat))
            &&& column_holds(h, row, 10, "key_length"@, decimal_text(r.key_length as nat))
            &&& column_holds(h, row, 11, "keys_match"@, bool_text(r.keys_match))
            &&& with_chsh ==> column_holds(
                h,
                row,
                12,
                "chsh_value"@,
                if r.chsh_value is Some {
                    t.chsh@
                } else {
                    "N/A"@
                },
            )
            &&& with_chsh ==> column_holds(
                h,
                row,
                13,
                "bell_violated"@,
                if r.chsh_value is Some {
                    bool_text(t.bell_violated)
                } else {
                    "N/A"@
                },
            )
            &&& detail ==> column_holds(h, row, k, "alice_key_hex"@, hex_or_empty(r.alice_key_hex))
            &&& detail ==> column_holds(h, row, k + 1, "bob_key_hex"@, hex_or_empty(r.bob_key_hex))
            &&& h.len() == k + (if detail {
                2int
            } else {
                0
            })
        }),
{
}

/// Each cell of an authentication row stands under the column that names
/// it: the shot number (from 1), the channel's type, `p` and `q`, the
/// rounds, the matches, the accuracy and the verdict; then the vectors when
/// they are written.
pub proof fn lemma_auth_cells_under_columns<N>(r: AuthRun<N>, t: AuthCsvTexts, detail: bool)
    ensures
        ({
            let h = spec_auth_headers(detail);
            let row = spec_auth_csv_row(r, t, detail);
            &&& row.len() == h.len()
            &&& h.len() == (if detail {
                12int
            } else {
                8
            })
            &&& column_holds(h, row, 0, "shot"@, decimal_text((r.shot + 1) as nat))
            &&& column_holds(h, row, 1, "channel_type"@, r.channel.channel_type@)
            &&& column_holds(h, row, 2, "channel_p"@, t.p@)
            &&& column_holds(h, row, 3, "channel_q"@, t.q@)
            &&& column_holds(h, row, 4, "total_qubits"@, decimal_text(r.total_qubits as nat))
            &&& column_holds(h, row, 5, "matches"@, decimal_text(r.matches as nat))
            &&& column_holds(h, row, 6, "accuracy"@, t.accuracy@)
            &&& column_holds(h, row, 7, "authenticated"@, bool_text(r.authenticated))
            &&& detail ==> column_holds(h, row, 8, "alice_id_hex"@, hex_or_empty(r.alice_id_hex))
            &&& detail ==> column_holds(
                h,
                row,
                9,
                "alice_commitment_hex"@,
                hex_or_empty(r.alice_commitment_hex),
            )
            &&& detail ==> column_holds(
                h,
                row,
                10,
                "bob_challenge_hex"@,
                hex_or_empty(r.bob_challenge_hex),
            )
            &&& detail ==> column_holds(
                h,
                row,
                11,
                "bob_recovered_hex"@,
                hex_or_empty(r.bob_recovered_hex),
            )
        }),
{
}

/// Each cell of a signature row stands under the column that names it.
pub proof fn lemma_qds_cells_under_columns<N>(r: QdsRun<N>, t: QdsCsvTexts)
    ensures
        ({
            let h = spec_qds_headers();
            let row = spec_qds_csv_row(r, t);
            &&& row.len() == h.len() && h.len() == 15
            &&& column_holds(h, row, 0, "shot"@, decimal_text((r.shot + 1) as nat))
            &&& column_holds(h, row, 1, "channel_bob_type"@, r.channel_bob.channel_type@)
            &&& column_holds(h, row, 2, "channel_bob_p"@, t.bob_p@)
            &&& column_holds(h, row, 3, "channel_bob_q"@, t.bob_q@)
            &&& column_holds(h, row, 4, "channel_charlie_type"@, r.channel_charlie.channel_type@)
            &&& column_holds(h, row, 5, "channel_charlie_p"@, t.charlie_p@)
            &&& column_holds(h, row, 6, "channel_charlie_q"@, t.charlie_q@)
            &&& column_holds(h, row, 7, "num_qubits"@, decimal_text(r.num_qubits as nat))
            &&& column_holds(h, row, 8, "message"@, bool_text(r.message))
            &&& column_holds(h, row, 9, "bob_mismatches"@, decimal_text(r.bob_mismatches as nat))
            &&& column_holds(
                h,
                row,
                10,
                "charlie_mismatches"@,
                decimal_text(r.charlie_mismatches as nat),
            )
            &&& column_holds(h, row, 11, "bob_mismatch_rate"@, t.bob_rate@)
            &&& column_holds(h, row, 12, "charlie_mismatch_rate"@, t.charlie_rate@)
            &&& column_holds(h, row, 13, "signature_accepted"@, bool_text(r.signature_accepted))
            &&& column_holds(
                h,
                row,
                14,
                "eve_intercepted_count"@,
                decimal_text(r.eve_intercepted_count as nat),
            )
        }),
{
}

/// Every data line of a CSV file has one cell per column of its header.
pub proof fn lemma_csv_rows_fit_headers<N>(
    q: QkdRun<N>,
    qt: QkdCsvTexts,
    a: AuthRun<N>,
    at: AuthCsvTexts,
    d: QdsRun<N>,
    dt: QdsCsvTexts,
    with_chsh: bool,
    detail: bool,
)
    ensures
        spec_qkd_csv_row(q, qt, with_chsh, detail).len() == spec_qkd_headers(with_chsh, detail).len(),
        spec_auth_csv_row(a, at, detail).len() == spec_auth_headers(detail).len(),
        spec_qds_csv_row(d, dt).len() == spec_qds_headers().len(),
{
}

} // verus!
