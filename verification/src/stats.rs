use vstd::prelude::*;

use crate::run::RunData;

verus! {

// ── What each shot contributes to the aggregate ───────────────────────────────

/// The QBER estimates of the key-distribution shots that have one.
pub open spec fn qbers_of<N>(runs: Seq<RunData<N>>) -> Seq<N>
    decreases runs.len(),
{
    if runs.len() == 0 {
        Seq::empty()
    } else {
        qbers_of(runs.drop_last()) + match runs.last() {
            RunData::Qkd(d) => if d.qber_available {
                seq![d.qber]
            } else {
                Seq::empty()
            },
            _ => Seq::empty(),
        }
    }
}

/// The final key lengths of the key-distribution shots.
pub open spec fn key_lengths_of<N>(runs: Seq<RunData<N>>) -> Seq<usize>
    decreases runs.len(),
{
    if runs.len() == 0 {
        Seq::empty()
    } else {
        key_lengths_of(runs.drop_last()) + match runs.last() {
            RunData::Qkd(d) => seq![d.key_length],
            _ => Seq::empty(),
        }
    }
}

/// The number of key-distribution shots whose keys match.
pub open spec fn match_count_of<N>(runs: Seq<RunData<N>>) -> nat
    decreases runs.len(),
{
    if runs.len() == 0 {
        0
    } else {
        match_count_of(runs.drop_last()) + match runs.last() {
            RunData::Qkd(d) => if d.keys_match {
                1nat
            } else {
                0nat
            },
            _ => 0nat,
        }
    }
}

/// The CHSH values of the key-distribution shots that have one.
pub open spec fn chsh_values_of<N>(runs: Seq<RunData<N>>) -> Seq<N>
    decreases runs.len(),
{
    if runs.len() == 0 {
        Seq::empty()
    } else {
        chsh_values_of(runs.drop_last()) + match runs.last() {
            RunData::Qkd(d) => match d.chsh_value {
                Some(v) => seq![v],
                None => Seq::empty(),
            },
            _ => Seq::empty(),
        }
    }
}

/// The accuracies of the authentication shots.
pub open spec fn accuracies_of<N>(runs: Seq<RunData<N>>) -> Seq<N>
    decreases runs.len(),
{
    if runs.len() == 0 {
        Seq::empty()
    } else {
        accuracies_of(runs.drop_last()) + match runs.last() {
            RunData::Auth(d) => seq![d.accuracy],
            _ => Seq::empty(),
        }
    }
}

/// The number of authentication shots that authenticated.
pub open spec fn auth_count_of<N>(runs: Seq<RunData<N>>) -> nat
    decreases runs.len(),
{
    if runs.len() == 0 {
        0
    } else {
        auth_count_of(runs.drop_last()) + match runs.last() {
            RunData::Auth(d) => if d.authenticated {
                1nat
            } else {
                0nat
            },
            _ => 0nat,
        }
    }
}

/// Bob's mismatch rates of the signature shots.
pub open spec fn bob_rates_of<N>(runs: Seq<RunData<N>>) -> Seq<N>
    decreases runs.len(),
{
    if runs.len() == 0 {
        Seq::empty()
    } else {
        bob_rates_of(runs.drop_last()) + match runs.last() {
            RunData::Qds(d) => seq![d.bob_mismatch_rate],
            _ => Seq::empty(),
        }
    }
}

/// Charlie's mismatch rates of the signature shots.
pub open spec fn charlie_rates_of<N>(runs: Seq<RunData<N>>) -> Seq<N>
    decreases runs.len(),
{
    if runs.len() == 0 {
        Seq::empty()
    } else {
        charlie_rates_of(runs.drop_last()) + match runs.last() {
            RunData::Qds(d) => seq![d.charlie_mismatch_rate],
            _ => Seq::empty(),
        }
    }
}

/// The number of signature shots whose signature was accepted.
pub open spec fn accept_count_of<N>(runs: Seq<RunData<N>>) -> nat
    decreases runs.len(),
{
    if runs.len() == 0 {
        0
    } else {
        accept_count_of(runs.drop_last()) + match runs.last() {
            RunData::Qds(d) => if d.signature_accepted {
                1nat
            } else {
                0nat
            },
            _ => 0nat,
        }
    }
}

/// Eve's interception counts of the signature shots.
pub open spec fn eve_counts_of<N>(runs: Seq<RunData<N>>) -> Seq<usize>
    decreases runs.len(),
{
    if runs.len() == 0 {
        Seq::empty()
    } else {
        eve_counts_of(runs.drop_last()) + match runs.last() {
            RunData::Qds(d) => seq![d.eve_intercepted_count],
            _ => Seq::empty(),
        }
    }
}

// ── Collecting the samples of an aggregate ────────────────────────────────────

/// The samples and counts from which the aggregate statistics of a set of
/// shots are computed. The kind of aggregate follows the first shot; shots
/// of another kind count towards `shots` only.
#[derive(Clone, Debug)]
pub enum Collected<N> {
    Qkd {
        protocol: &'static str,
        shots: usize,
        qbers: Vec<N>,
        key_lengths: Vec<usize>,
        match_count: usize,
        chsh_values: Vec<N>,
    },
    Auth { shots: usize, accuracies: Vec<N>, auth_count: usize },
    Qds {
        shots: usize,
        bob_rates: Vec<N>,
        charlie_rates: Vec<N>,
        accept_count: usize,
        eve_counts: Vec<usize>,
    },
}

/// `c` holds the samples and counts of `runs`.
pub open spec fn collected_from<N>(c: Collected<N>, runs: Seq<RunData<N>>) -> bool {
    match c {
        Collected::Qkd { protocol, shots, qbers, key_lengths, match_count, chsh_values } => {
            &&& runs[0] matches RunData::Qkd(first) && protocol == first.protocol
            &&& shots == runs.len()
            &&& qbers@ == qbers_of(runs)
            &&& key_lengths@ == key_lengths_of(runs)
            &&& match_count == match_count_of(runs)
            &&& chsh_values@ == chsh_values_of(runs)
        },
        Collected::Auth { shots, accuracies, auth_count } => {
            &&& runs[0] is Auth
            &&& shots == runs.len()
            &&& accuracies@ == accuracies_of(runs)
            &&& auth_count == auth_count_of(runs)
        },
        Collected::Qds { shots, bob_rates, charlie_rates, accept_count, eve_counts } => {
            &&& runs[0] is Qds
            &&& shots == runs.len()
            &&& bob_rates@ == bob_rates_of(runs)
            &&& charlie_rates@ == charlie_rates_of(runs)
            &&& accept_count == accept_count_of(runs)
            &&& eve_counts@ == eve_counts_of(runs)
        },
    }
}

fn collect_qkd<N: Copy>(runs: &Vec<RunData<N>>, protocol: &'static str) -> (c: Collected<N>)
    requires
        runs@.len() > 0,
        runs@[0] matches RunData::Qkd(first) && first.protocol == protocol,
    ensures
        collected_from(c, runs@),
{
    let mut qbers: Vec<N> = Vec::new();
    let mut key_lengths: Vec<usize> = Vec::new();
    let mut match_count: usize = 0;
    let mut chsh_values: Vec<N> = Vec::new();
    let mut i: usize = 0;
    while i < runs.len()
        invariant
            i <= runs@.len(),
            qbers@ == qbers_of(runs@.take(i as int)),
            key_lengths@ == key_lengths_of(runs@.take(i as int)),
            match_count == match_count_of(runs@.take(i as int)),
            match_count <= i,
            chsh_values@ == chsh_values_of(runs@.take(i as int)),
        decreases runs@.len() - i,
    {
        let ghost prefix = runs@.take((i + 1) as int);
        proof {
            assert(prefix.drop_last() =~= runs@.take(i as int));
            assert(prefix.last() == runs@[i as int]);
        }
        match &runs[i] {
            RunData::Qkd(d) => {
                if d.qber_available {
                    qbers.push(d.qber);
                }
                key_lengths.push(d.key_length);
                if d.keys_match {
                    match_count = match_count + 1;
                }
                match d.chsh_value {
                    Some(v) => chsh_values.push(v),
                    None => {},
                }
            },
            _ => {},
        }
        proof {
            assert(qbers@ =~= qbers_of(prefix));
            assert(key_lengths@ =~= key_lengths_of(prefix));
            assert(chsh_values@ =~= chsh_values_of(prefix));
        }
        i = i + 1;
    }
    assert(runs@.take(runs@.len() as int) =~= runs@);
    Collected::Qkd { protocol, shots: runs.len(), qbers, key_lengths, match_count, chsh_values }
}

fn collect_auth<N: Copy>(runs: &Vec<RunData<N>>) -> (c: Collected<N>)
    requires
        runs@.len() > 0,
        runs@[0] is Auth,
    ensures
        collected_from(c, runs@),
{
    let mut accuracies: Vec<N> = Vec::new();
    let mut auth_count: usize = 0;
    let mut i: usize = 0;
    while i < runs.len()
        invariant
            i <= runs@.len(),
            accuracies@ == accuracies_of(runs@.take(i as int)),
            auth_count == auth_count_of(runs@.take(i as int)),
            auth_count <= i,
        decreases runs@.len() - i,
    {
        let ghost prefix = runs@.take((i + 1) as int);
        proof {
            assert(prefix.drop_last() =~= runs@.take(i as int));
            assert(prefix.last() == runs@[i as int]);
        }
        match &runs[i] {
            RunData::Auth(d) => {
                accuracies.push(d.accuracy);
                if d.authenticated {
                    auth_count = auth_count + 1;
                }
            },
            _ => {},
        }
        proof {
            assert(accuracies@ =~= accuracies_of(prefix));
        }
        i = i + 1;
    }
    assert(runs@.take(runs@.len() as int) =~= runs@);
    Collected::Auth { shots: runs.len(), accuracies, auth_count }
}

fn collect_qds<N: Copy>(runs: &Vec<RunData<N>>) -> (c: Collected<N>)
    requires
        runs@.len() > 0,
        runs@[0] is Qds,
    ensures
        collected_from(c, runs@),
{
    let mut bob_rates: Vec<N> = Vec::new();
    let mut charlie_rates: Vec<N> = Vec::new();
    let mut accept_count: usize = 0;
    let mut eve_counts: Vec<usize> = Vec::new();
    let mut i: usize = 0;
    while i < runs.len()
        invariant
            i <= runs@.len(),
            bob_rates@ == bob_rates_of(runs@.take(i as int)),
            charlie_rates@ == charlie_rates_of(runs@.take(i as int)),
            accept_count == accept_count_of(runs@.take(i as int)),
            accept_count <= i,
            eve_counts@ == eve_counts_of(runs@.take(i as int)),
        decreases runs@.len() - i,
    {
        let ghost prefix = runs@.take((i + 1) as int);
        proof {
            assert(prefix.drop_last() =~= runs@.take(i as int));
            assert(prefix.last() == runs@[i as int]);
        }
        match &runs[i] {
            RunData::Qds(d) => {
                bob_rates.push(d.bob_mismatch_rate);
                charlie_rates.push(d.charlie_mismatch_rate);
                if d.signature_accepted {
                    accept_count = accept_count + 1;
                }
                eve_counts.push(d.eve_intercepted_count);
            },
            _ => {},
        }
        proof {
            assert(bob_rates@ =~= bob_rates_of(prefix));
            assert(charlie_rates@ =~= charlie_rates_of(prefix));
            assert(eve_counts@ =~= eve_counts_of(prefix));
        }
        i = i + 1;
    }
    assert(runs@.take(runs@.len() as int) =~= runs@);
    Collected::Qds { shots: runs.len(), bob_rates, charlie_rates, accept_count, eve_counts }
}

/// Gathers the samples and counts of a non-empty set of shots; the kind of
/// aggregate follows the first shot.
pub fn collect<N: Copy>(runs: &Vec<RunData<N>>) -> (c: Collected<N>)
    requires
        runs@.len() > 0,
    ensures
        collected_from(c, runs@),
{
    match &runs[0] {
        RunData::Qkd(first) => collect_qkd(runs, first.protocol),
        RunData::Auth(_) => collect_auth(runs),
        RunData::Qds(_) => collect_qds(runs),
    }
}

/// Every count and every list of samples covers at most the shots it is
/// drawn from, so every rate of an aggregate lies between 0 and 1; the three
/// lists of the signature shots have one entry per signature shot.
pub proof fn lemma_samples_within_shots<N>(runs: Seq<RunData<N>>)
    ensures
        key_lengths_of(runs).len() <= runs.len(),
        qbers_of(runs).len() <= key_lengths_of(runs).len(),
        chsh_values_of(runs).len() <= key_lengths_of(runs).len(),
        match_count_of(runs) <= key_lengths_of(runs).len(),
        accuracies_of(runs).len() <= runs.len(),
        auth_count_of(runs) <= accuracies_of(runs).len(),
        bob_rates_of(runs).len() <= runs.len(),
        charlie_rates_of(runs).len() == bob_rates_of(runs).len(),
        eve_counts_of(runs).len() == bob_rates_of(runs).len(),
        accept_count_of(runs) <= bob_rates_of(runs).len(),
    decreases runs.len(),
{
    if runs.len() > 0 {
        lemma_samples_within_shots(runs.drop_last());
    }
}

/// When every shot is a key-distribution shot, each one contributes its key
/// length.
pub proof fn lemma_one_key_length_per_shot<N>(runs: Seq<RunData<N>>)
    requires
        forall|i: int| 0 <= i < runs.len() ==> #[trigger] runs[i] is Qkd,
    ensures
        key_lengths_of(runs).len() == runs.len(),
    decreases runs.len(),
{
    if runs.len() > 0 {
        assert(runs.last() is Qkd);
        lemma_one_key_length_per_shot(runs.drop_last());
    }
}


// ── What the aggregate is drawn from, shot by shot ────────────────────────────

/// The QBER estimates among `runs`, in order: one per key-distribution shot
/// that has an estimate.
pub open spec fn estimated_qbers<N>(runs: Seq<RunData<N>>) -> Seq<N> {
    runs.filter_map(
        |r: RunData<N>|
            match r {
                RunData::Qkd(d) => if d.qber_available {
                    Some(d.qber)
                } else {
                    None
                },
                _ => None,
            },
    )
}

/// The final key length of each key-distribution shot, in order.
pub open spec fn final_key_lengths<N>(runs: Seq<RunData<N>>) -> Seq<usize> {
    runs.filter_map(
        |r: RunData<N>|
            match r {
                RunData::Qkd(d) => Some(d.key_length),
                _ => None,
            },
    )
}

/// The CHSH value of each key-distribution shot that has one, in order.
pub open spec fn measured_chsh<N>(runs: Seq<RunData<N>>) -> Seq<N> {
    runs.filter_map(
        |r: RunData<N>|
            match r {
                RunData::Qkd(d) => d.chsh_value,
                _ => None,
            },
    )
}

/// Whether `r` is a key-distribution shot whose keys match.
pub open spec fn keys_matched<N>(r: RunData<N>) -> bool {
    r matches RunData::Qkd(d) && d.keys_match
}

/// The key-distribution shots whose keys match.
pub open spec fn matching_key_shots<N>(runs: Seq<RunData<N>>) -> Seq<RunData<N>> {
    runs.filter(|r: RunData<N>| keys_matched(r))
}

/// The accuracy of each authentication shot, in order.
pub open spec fn auth_accuracies<N>(runs: Seq<RunData<N>>) -> Seq<N> {
    runs.filter_map(
        |r: RunData<N>|
            match r {
                RunData::Auth(d) => Some(d.accuracy),
                _ => None,
            },
    )
}

/// The authentication shots that authenticated.
pub open spec fn authenticated_shots<N>(runs: Seq<RunData<N>>) -> Seq<RunData<N>> {
    runs.filter(|r: RunData<N>| r matches RunData::Auth(d) && d.authenticated)
}

/// Bob's and Charlie's mismatch rates and Eve's interceptions of each
/// signature shot, in order.
pub open spec fn signature_figures<N>(runs: Seq<RunData<N>>) -> Seq<(N, N, usize)> {
    runs.filter_map(
        |r: RunData<N>|
            match r {
                RunData::Qds(d) => Some(
                    (d.bob_mismatch_rate, d.charlie_mismatch_rate, d.eve_intercepted_count),
                ),
                _ => None,
            },
    )
}

/// The signature shots whose signature was accepted.
pub open spec fn accepted_shots<N>(runs: Seq<RunData<N>>) -> Seq<RunData<N>> {
    runs.filter(|r: RunData<N>| r matches RunData::Qds(d) && d.signature_accepted)
}

proof fn lemma_shot_selections<N>(runs: Seq<RunData<N>>)
    ensures
        qbers_of(runs) == estimated_qbers(runs),
        key_lengths_of(runs) == final_key_lengths(runs),
        chsh_values_of(runs) == measured_chsh(runs),
        match_count_of(runs) == matching_key_shots(runs).len(),
        accuracies_of(runs) == auth_accuracies(runs),
        auth_count_of(runs) == authenticated_shots(runs).len(),
        bob_rates_of(runs) == signature_figures(runs).map_values(|f: (N, N, usize)| f.0),
        charlie_rates_of(runs) == signature_figures(runs).map_values(|f: (N, N, usize)| f.1),
        eve_counts_of(runs) == signature_figures(runs).map_values(|f: (N, N, usize)| f.2),
        accept_count_of(runs) == accepted_shots(runs).len(),
    decreases runs.len(),
{
    reveal(Seq::filter);
    if runs.len() > 0 {
        let rest = runs.drop_last();
        lemma_shot_selections(rest);
        let f = signature_figures(runs);
        let g = signature_figures(rest);
        match runs.last() {
            RunData::Qds(d) => {
                assert(f =~= g + seq![
                    (d.bob_mismatch_rate, d.charlie_mismatch_rate, d.eve_intercepted_count),
                ]);
            },
            _ => {
                assert(f =~= g);
            },
        }
        assert(bob_rates_of(runs) =~= f.map_values(|f: (N, N, usize)| f.0));
        assert(charlie_rates_of(runs) =~= f.map_values(|f: (N, N, usize)| f.1));
        assert(eve_counts_of(runs) =~= f.map_values(|f: (N, N, usize)| f.2));
    } else {
        assert(estimated_qbers(runs) =~= Seq::<N>::empty());
    }
}

/// What a set of shots contributes to its aggregate, stated shot by shot:
/// the aggregate covers every shot; its samples are, in order, the QBER
/// estimates, key lengths and CHSH values of the key-distribution shots,
/// the accuracies of the authentication shots, and the mismatch rates and
/// interceptions of the signature shots; each count is the number of shots
/// of the aggregate's kind whose keys match, that authenticated, or whose
/// signature was accepted.
pub proof fn lemma_collected_shot_by_shot<N>(c: Collected<N>, runs: Seq<RunData<N>>)
    requires
        runs.len() > 0,
        collected_from(c, runs),
    ensures
        match c {
            Collected::Qkd { protocol, shots, qbers, key_lengths, match_count, chsh_values } => {
                &&& shots == runs.len()
                &&& runs[0] matches RunData::Qkd(first) && protocol == first.protocol
                &&& qbers@ == estimated_qbers(runs)
                &&& key_lengths@ == final_key_lengths(runs)
                &&& match_count == matching_key_shots(runs).len()
                &&& chsh_values@ == measured_chsh(runs)
            },
            Collected::Auth { shots, accuracies, auth_count } => {
                &&& shots == runs.len()
                &&& runs[0] is Auth
                &&& accuracies@ == auth_accuracies(runs)
                &&& auth_count == authenticated_shots(runs).len()
            },
            Collected::Qds { shots, bob_rates, charlie_rates, accept_count, eve_counts } => {
                &&& shots == runs.len()
                &&& runs[0] is Qds
                &&& bob_rates@ == signature_figures(runs).map_values(|f: (N, N, usize)| f.0)
                &&& charlie_rates@ == signature_figures(runs).map_values(|f: (N, N, usize)| f.1)
                &&& eve_counts@ == signature_figures(runs).map_values(|f: (N, N, usize)| f.2)
                &&& accept_count == accepted_shots(runs).len()
            },
        },
{
    lemma_shot_selections(runs);
}

/// When every shot is a key-distribution shot whose keys match, the match
/// count is the number of shots; when no shot's keys match, it is zero.
pub proof fn lemma_match_count_extremes<N>(runs: Seq<RunData<N>>)
    ensures
        (forall|i: int| 0 <= i < runs.len() ==> #[trigger] keys_matched(runs[i]))
            ==> match_count_of(runs) == runs.len(),
        (forall|i: int| 0 <= i < runs.len() ==> !#[trigger] keys_matched(runs[i]))
            ==> match_count_of(runs) == 0,
    decreases runs.len(),
{
    if runs.len() > 0 {
        let rest = runs.drop_last();
        lemma_match_count_extremes(rest);
        assert(keys_matched(runs[runs.len() - 1]) == keys_matched(runs.last()));
        assert forall|i: int| 0 <= i < rest.len() implies keys_matched(#[trigger] rest[i])
            == keys_matched(runs[i]) by {}
    }
}

} // verus!
