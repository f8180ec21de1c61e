use vstd::prelude::*;

use crate::channel::{
    duplicate_mix, mix_result_view, mix_view, single_channel_mix, spec_single_mix, ChannelKind,
    ChannelSpec, ParamError, SpecChannel, SpecParamError,
};
use crate::protocol::Protocol;
use crate::text::{owned, str_equal};

verus! {

/// Full experiment description, as read from an experiment-config file.
///
/// Every field is optional; a missing field falls back to the matching
/// command-line flag (or its default).
#[derive(Clone, Debug)]
pub struct ExperimentConfig<N> {
    /// Protocol name (e.g. "bb84").
    pub protocol: Option<String>,
    /// Qubits / pairs / rounds per shot.
    pub num_qubits: Option<usize>,
    /// Number of independent shots.
    pub shots: Option<usize>,
    /// RNG seed for reproducibility.
    pub seed: Option<u64>,
    /// Output file path (.json / .csv / .txt).
    pub out_file: Option<String>,
    /// Include raw keys / vectors in the output.
    pub detail: Option<bool>,
    /// Whether keys are written to the output file (defaults to `detail`).
    pub keys_out: Option<bool>,
    /// Primary channel name, used when no channel mix is given.
    pub channel1: Option<String>,
    /// Fixed primary noise p1.
    pub p1: Option<N>,
    /// Fixed second noise q1.
    pub q1: Option<N>,
    /// Primary noise range [min, max].
    pub p1_range: Option<[N; 2]>,
    /// Primary noise minimum.
    pub p1_min: Option<N>,
    /// Primary noise maximum.
    pub p1_max: Option<N>,
    /// Second noise range [min, max].
    pub q1_range: Option<[N; 2]>,
    /// Second noise minimum.
    pub q1_min: Option<N>,
    /// Second noise maximum.
    pub q1_max: Option<N>,
    /// Inline channel mix; when present the single-channel fields are ignored.
    pub channel_config: Option<Vec<ChannelSpec<N>>>,
    /// File holding the channel mix; overrides everything above.
    pub channel_config_file: Option<String>,
    /// Second channel name; defaults to `channel1`.
    pub channel2: Option<String>,
    /// Fixed noise p2; defaults to `p1`.
    pub p2: Option<N>,
    /// Fixed noise q2; defaults to `q1`.
    pub q2: Option<N>,
    /// Second channel noise range; defaults to `p1_range`.
    pub p2_range: Option<[N; 2]>,
    /// Second channel noise minimum; defaults to `p1_min`.
    pub p2_min: Option<N>,
    /// Second channel noise maximum; defaults to `p1_max`.
    pub p2_max: Option<N>,
    /// Second channel second-noise range; defaults to `q1_range`.
    pub q2_range: Option<[N; 2]>,
    /// Second channel second-noise minimum; defaults to `q1_min`.
    pub q2_min: Option<N>,
    /// Second channel second-noise maximum; defaults to `q1_max`.
    pub q2_max: Option<N>,
    /// Inline channel mix for the second channel.
    pub channel_config2: Option<Vec<ChannelSpec<N>>>,
    /// File holding the channel mix for the second channel.
    pub channel_config2_file: Option<String>,
    /// Eve interception probability.
    pub eve_ratio: Option<N>,
    /// Fraction of sifted bits used for QBER estimation.
    pub check_ratio: Option<N>,
    /// Acceptance threshold.
    pub threshold: Option<N>,
}

impl<N> Default for ExperimentConfig<N> {
    /// A configuration that sets nothing.
    fn default() -> (c: Self)
        ensures
            c.protocol is None,
            c.num_qubits is None,
            c.shots is None,
            c.seed is None,
            c.out_file is None,
            c.detail is None,
            c.keys_out is None,
            c.channel1 is None,
            c.p1 is None,
            c.q1 is None,
            c.p1_range is None,
            c.p1_min is None,
            c.p1_max is None,
            c.q1_range is None,
            c.q1_min is None,
            c.q1_max is None,
            c.channel_config is None,
            c.channel_config_file is None,
            c.channel2 is None,
            c.p2 is None,
            c.q2 is None,
            c.p2_range is None,
            c.p2_min is None,
            c.p2_max is None,
            c.q2_range is None,
            c.q2_min is None,
            c.q2_max is None,
            c.channel_config2 is None,
            c.channel_config2_file is None,
            c.eve_ratio is None,
            c.check_ratio is None,
            c.threshold is None,
    {
        ExperimentConfig {
            protocol: None,
            num_qubits: None,
            shots: None,
            seed: None,
            out_file: None,
            detail: None,
            keys_out: None,
            channel1: None,
            p1: None,
            q1: None,
            p1_range: None,
            p1_min: None,
            p1_max: None,
            q1_range: None,
            q1_min: None,
            q1_max: None,
            channel_config: None,
            channel_config_file: None,
            channel2: None,
            p2: None,
            q2: None,
            p2_range: None,
            p2_min: None,
            p2_max: None,
            q2_range: None,
            q2_min: None,
            q2_max: None,
            channel_config2: None,
            channel_config2_file: None,
            eve_ratio: None,
            check_ratio: None,
            threshold: None,
        }
    }
}

// ── Resolving a channel mix from its parts ────────────────────────────────────

/// Where a channel mix comes from: a file still to be read, or the entries
/// themselves.
#[derive(Clone, Debug)]
pub enum MixPlan<N> {
    File(String),
    Inline(Vec<ChannelSpec<N>>),
}

/// The mathematical content of a [`MixPlan`].
pub enum SpecMixPlan<N> {
    File(Seq<char>),
    Inline(Seq<SpecChannel<N>>),
}

impl<N> View for MixPlan<N> {
    type V = SpecMixPlan<N>;

    open spec fn view(&self) -> SpecMixPlan<N> {
        match self {
            MixPlan::File(path) => SpecMixPlan::File(path@),
            MixPlan::Inline(mix) => SpecMixPlan::Inline(mix_view(mix@)),
        }
    }
}

/// The contents of the result of resolving a mix plan.
pub open spec fn plan_result_view<N>(r: Result<MixPlan<N>, ParamError>) -> Result<
    SpecMixPlan<N>,
    SpecParamError,
> {
    match r {
        Ok(p) => Ok(p@),
        Err(e) => Err(e@),
    }
}

/// The value of an optional parameter, or `dflt` when it is absent.
pub open spec fn or_default<T>(o: Option<T>, dflt: T) -> T {
    match o {
        Some(v) => v,
        None => dflt,
    }
}

/// The first of two optional values that is present.
pub open spec fn first_of<T>(a: Option<T>, b: Option<T>) -> Option<T> {
    match a {
        Some(v) => Some(v),
        None => b,
    }
}

/// Whether a range is given for a parameter, either as `[min, max]` or as
/// both ends separately.
pub open spec fn has_range<N>(range: Option<[N; 2]>, lo: Option<N>, hi: Option<N>) -> bool {
    range is Some || (lo is Some && hi is Some)
}

/// The mix described by the parts of a configuration.
///
/// An inline mix is taken as it is when it has an entry and refused when it
/// has none. Otherwise the named channel forms a one-entry mix: any channel
/// but `identity` needs `p` (or a range for it) and
/// `amplitude-phase-damping` needs `q` (or a range for it). The entry's `p`
/// is the given `p` (or `zero`); its `q` is the given `q` when the channel
/// needs `q` and no range for it is given, and `zero` otherwise; the ranges
/// are kept and the weight is `unit_weight`.
pub open spec fn spec_resolve_parts<N>(
    specs: Option<Seq<SpecChannel<N>>>,
    channel: Seq<char>,
    p: Option<N>,
    q: Option<N>,
    p_range: Option<[N; 2]>,
    p_min: Option<N>,
    p_max: Option<N>,
    q_range: Option<[N; 2]>,
    q_min: Option<N>,
    q_max: Option<N>,
    p_arg: Seq<char>,
    q_arg: Seq<char>,
    zero: N,
    unit_weight: N,
) -> Result<Seq<SpecChannel<N>>, SpecParamError> {
    let needs_p = channel != "identity"@;
    let needs_q = channel == "amplitude-phase-damping"@;
    let q_taken = needs_q && !has_range(q_range, q_min, q_max);
    match specs {
        Some(mix) => if mix.len() == 0 {
            Err(SpecParamError::EmptyChannelConfig)
        } else {
            Ok(mix)
        },
        None => if needs_p && !has_range(p_range, p_min, p_max) && p is None {
            Err(SpecParamError::MissingNoise { param: p_arg, channel })
        } else if q_taken && q is None {
            Err(SpecParamError::MissingSecondNoise { param: q_arg })
        } else {
            Ok(
                seq![
                    SpecChannel {
                        kind: channel,
                        p: or_default(p, zero),
                        q: if q_taken {
                            or_default(q, zero)
                        } else {
                            zero
                        },
                        p_range,
                        p1_min: p_min,
                        p1_max: p_max,
                        q_range,
                        q1_min: q_min,
                        q1_max: q_max,
                        weight: unit_weight,
                    },
                ],
            )
        },
    }
}

/// The contents of an optional mix.
pub open spec fn opt_mix_view<N>(specs: Option<Vec<ChannelSpec<N>>>) -> Option<Seq<SpecChannel<N>>> {
    match specs {
        Some(m) => Some(mix_view(m@)),
        None => None,
    }
}

/// Builds the channel mix described by the parts of a configuration (see
/// [`spec_resolve_parts`]).
pub fn resolve_mix_from_parts<N: Copy>(
    specs: Option<Vec<ChannelSpec<N>>>,
    channel: &str,
    p: Option<N>,
    q: Option<N>,
    p_range: Option<[N; 2]>,
    p_min: Option<N>,
    p_max: Option<N>,
    q_range: Option<[N; 2]>,
    q_min: Option<N>,
    q_max: Option<N>,
    p_arg: &str,
    q_arg: &str,
    zero: N,
    unit_weight: N,
) -> (r: Result<Vec<ChannelSpec<N>>, ParamError>)
    ensures
        mix_result_view(r) == spec_resolve_parts(
            opt_mix_view(specs),
            channel@,
            p,
            q,
            p_range,
            p_min,
            p_max,
            q_range,
            q_min,
            q_max,
            p_arg@,
            q_arg@,
            zero,
            unit_weight,
        ),
{
    if let Some(mix) = specs {
        if mix.len() == 0 {
            return Err(ParamError::EmptyChannelConfig);
        }
        return Ok(mix);
    }
    let needs_p = !str_equal(channel, "identity");
    let needs_q = str_equal(channel, "amplitude-phase-damping");
    let has_p_range = p_range.is_some() || (p_min.is_some() && p_max.is_some());
    let p_val = if needs_p && !has_p_range {
        match p {
            Some(v) => v,
            None => {
                return Err(
                    ParamError::MissingNoise { param: owned(p_arg), channel: owned(channel) },
                );
            },
        }
    } else {
        match p {
            Some(v) => v,
            None => zero,
        }
    };
    let has_q_range = q_range.is_some() || (q_min.is_some() && q_max.is_some());
    let q_val = if needs_q && !has_q_range {
        match q {
            Some(v) => v,
            None => {
                return Err(ParamError::MissingSecondNoise { param: owned(q_arg) });
            },
        }
    } else {
        zero
    };
    let mut mix: Vec<ChannelSpec<N>> = Vec::new();
    mix.push(
        ChannelSpec {
            kind: owned(channel),
            p: p_val,
            q: q_val,
            p_range,
            p1_min: p_min,
            p1_max: p_max,
            q_range,
            q1_min: q_min,
            q1_max: q_max,
            weight: unit_weight,
        },
    );
    let ghost expected = spec_resolve_parts(
        opt_mix_view(specs),
        channel@,
        p,
        q,
        p_range,
        p_min,
        p_max,
        q_range,
        q_min,
        q_max,
        p_arg@,
        q_arg@,
        zero,
        unit_weight,
    );
    assert(expected is Ok);
    assert(mix_view(mix@) =~= expected->Ok_0);
    Ok(mix)
}

// ── Primary and secondary mixes of a configuration ───────────────────────────

/// A resolved inline mix as a plan.
pub open spec fn inline_plan<N>(r: Result<Seq<SpecChannel<N>>, SpecParamError>) -> Result<
    SpecMixPlan<N>,
    SpecParamError,
> {
    match r {
        Ok(m) => Ok(SpecMixPlan::Inline(m)),
        Err(e) => Err(e),
    }
}

/// The characters of an optional name, or `dflt` when it is absent.
pub open spec fn name_or(name: Option<String>, dflt: Seq<char>) -> Seq<char> {
    match name {
        Some(n) => n@,
        None => dflt,
    }
}

/// The primary channel mix of a configuration: the mix file when one is
/// named, else the mix resolved from `channel_config`, `channel1` (default
/// `identity`) and the `p1`/`q1` parameters.
pub open spec fn spec_primary_mix<N>(c: ExperimentConfig<N>, zero: N, unit_weight: N) -> Result<
    SpecMixPlan<N>,
    SpecParamError,
> {
    match c.channel_config_file {
        Some(path) => Ok(SpecMixPlan::File(path@)),
        None => inline_plan(
            spec_resolve_parts(
                opt_mix_view(c.channel_config),
                name_or(c.channel1, "identity"@),
                c.p1,
                c.q1,
                c.p1_range,
                c.p1_min,
                c.p1_max,
                c.q1_range,
                c.q1_min,
                c.q1_max,
                "p1"@,
                "q1"@,
                zero,
                unit_weight,
            ),
        ),
    }
}

/// Whether a configuration says anything about its second channel (beyond
/// naming a mix file for it).
pub open spec fn spec_has_secondary<N>(c: ExperimentConfig<N>) -> bool {
    c.channel_config2 is Some || c.channel2 is Some || c.p2 is Some || c.q2 is Some
        || c.p2_range is Some || c.p2_min is Some || c.p2_max is Some || c.q2_range is Some
        || c.q2_min is Some || c.q2_max is Some
}

/// The secondary channel mix: the second mix file when one is named; else,
/// when the configuration says something about the second channel, the mix
/// resolved from `channel_config2`, `channel2` and the `p2`/`q2` parameters,
/// each absent one replaced by its primary counterpart; else the primary mix.
pub open spec fn spec_secondary_mix<N>(c: ExperimentConfig<N>, zero: N, unit_weight: N) -> Result<
    SpecMixPlan<N>,
    SpecParamError,
> {
    match c.channel_config2_file {
        Some(path) => Ok(SpecMixPlan::File(path@)),
        None => if spec_has_secondary(c) {
            inline_plan(
                spec_resolve_parts(
                    opt_mix_view(c.channel_config2),
                    name_or(c.channel2, name_or(c.channel1, "identity"@)),
                    first_of(c.p2, c.p1),
                    first_of(c.q2, c.q1),
                    first_of(c.p2_range, c.p1_range),
                    first_of(c.p2_min, c.p1_min),
                    first_of(c.p2_max, c.p1_max),
                    first_of(c.q2_range, c.q1_range),
                    first_of(c.q2_min, c.q1_min),
                    first_of(c.q2_max, c.q1_max),
                    "p2"@,
                    "q2"@,
                    zero,
                    unit_weight,
                ),
            )
        } else {
            spec_primary_mix(c, zero, unit_weight)
        },
    }
}

/// A copy of an optional mix.
fn duplicate_opt_mix<N: Copy>(specs: &Option<Vec<ChannelSpec<N>>>) -> (c: Option<
    Vec<ChannelSpec<N>>,
>)
    ensures
        opt_mix_view(c) == opt_mix_view(*specs),
{
    match specs {
        Some(m) => Some(duplicate_mix(m)),
        None => None,
    }
}

/// The first of two optional values that is present.
fn or_else<T: Copy>(a: Option<T>, b: Option<T>) -> (r: Option<T>)
    ensures
        r == first_of(a, b),
{
    match a {
        Some(v) => Some(v),
        None => b,
    }
}

impl<N: Copy> ExperimentConfig<N> {
    /// Whether the configuration says anything about its second channel.
    pub fn has_secondary(&self) -> (b: bool)
        ensures
            b == spec_has_secondary(*self),
    {
        self.channel_config2.is_some() || self.channel2.is_some() || self.p2.is_some()
            || self.q2.is_some() || self.p2_range.is_some() || self.p2_min.is_some()
            || self.p2_max.is_some() || self.q2_range.is_some() || self.q2_min.is_some()
            || self.q2_max.is_some()
    }

    /// Resolves the primary channel mix (see [`spec_primary_mix`]).
    pub fn primary_mix(&self, zero: N, unit_weight: N) -> (r: Result<MixPlan<N>, ParamError>)
        ensures
            plan_result_view(r) == spec_primary_mix(*self, zero, unit_weight),
    {
        if let Some(path) = &self.channel_config_file {
            return Ok(MixPlan::File(path.clone()));
        }
        let channel: &str = match &self.channel1 {
            Some(c) => c.as_str(),
            None => "identity",
        };
        match resolve_mix_from_parts(
            duplicate_opt_mix(&self.channel_config),
            channel,
            self.p1,
            self.q1,
            self.p1_range,
            self.p1_min,
            self.p1_max,
            self.q1_range,
            self.q1_min,
            self.q1_max,
            "p1",
            "q1",
            zero,
            unit_weight,
        ) {
            Ok(m) => Ok(MixPlan::Inline(m)),
            Err(e) => Err(e),
        }
    }

    /// Resolves the secondary channel mix (see [`spec_secondary_mix`]).
    pub fn secondary_mix(&self, zero: N, unit_weight: N) -> (r: Result<MixPlan<N>, ParamError>)
        ensures
            plan_result_view(r) == spec_secondary_mix(*self, zero, unit_weight),
    {
        if let Some(path) = &self.channel_config2_file {
            return Ok(MixPlan::File(path.clone()));
        }
        if self.has_secondary() {
            let channel: &str = match &self.channel2 {
                Some(c) => c.as_str(),
                None => match &self.channel1 {
                    Some(c) => c.as_str(),
                    None => "identity",
                },
            };
            match resolve_mix_from_parts(
                duplicate_opt_mix(&self.channel_config2),
                channel,
                or_else(self.p2, self.p1),
                or_else(self.q2, self.q1),
                or_else(self.p2_range, self.p1_range),
                or_else(self.p2_min, self.p1_min),
                or_else(self.p2_max, self.p1_max),
                or_else(self.q2_range, self.q1_range),
                or_else(self.q2_min, self.q1_min),
                or_else(self.q2_max, self.q1_max),
                "p2",
                "q2",
                zero,
                unit_weight,
            ) {
                Ok(m) => Ok(MixPlan::Inline(m)),
                Err(e) => Err(e),
            }
        } else {
            self.primary_mix(zero, unit_weight)
        }
    }
}

/// A configuration that says nothing about its second channel uses the
/// primary channel mix for it.
pub proof fn lemma_secondary_falls_back_to_primary<N>(
    c: ExperimentConfig<N>,
    zero: N,
    unit_weight: N,
)
    requires
        c.channel_config2_file is None,
        !spec_has_secondary(c),
    ensures
        spec_secondary_mix(c, zero, unit_weight) == spec_primary_mix(c, zero, unit_weight),
{
}

/// An inline channel mix with at least one entry is used as it is: the
/// single-channel fields of the configuration are then ignored.
pub proof fn lemma_inline_mix_overrides_channel<N>(c: ExperimentConfig<N>, zero: N, unit_weight: N)
    requires
        c.channel_config_file is None,
        c.channel_config matches Some(m) && m@.len() > 0,
    ensures
        spec_primary_mix(c, zero, unit_weight) == Ok::<SpecMixPlan<N>, SpecParamError>(
            SpecMixPlan::Inline(mix_view(c.channel_config->0@)),
        ),
{
}

/// A mix file named for a channel overrides every other way of describing
/// that channel.
pub proof fn lemma_mix_file_overrides<N>(c: ExperimentConfig<N>, zero: N, unit_weight: N)
    ensures
        c.channel_config_file matches Some(path) ==> spec_primary_mix(c, zero, unit_weight) == Ok::<
            SpecMixPlan<N>,
            SpecParamError,
        >(SpecMixPlan::File(path@)),
        c.channel_config2_file matches Some(path) ==> spec_secondary_mix(c, zero, unit_weight)
            == Ok::<SpecMixPlan<N>, SpecParamError>(SpecMixPlan::File(path@)),
{
}

/// A value that is given is used; a missing one is replaced by the default
/// (for `or_default`) or by the second option (for `first_of`).
pub proof fn lemma_given_values_win<T>(a: Option<T>, b: Option<T>, dflt: T)
    ensures
        a matches Some(v) ==> or_default(a, dflt) == v && first_of(a, b) == Some(v),
        a is None ==> or_default(a, dflt) == dflt && first_of(a, b) == b,
{
}

/// When a configuration describes its primary channel by fields alone (no
/// mix file, no inline mix), the resolved mix is a single entry of unit
/// weight: its model is `channel1` (`identity` when absent), its `p` is
/// `p1` (`zero` when absent) and its ranges are the `p1`/`q1` ranges; a
/// noisy model without `p1` or a range for it is refused, naming `p1`.
pub proof fn lemma_primary_channel_entry<N>(c: ExperimentConfig<N>, zero: N, unit_weight: N)
    requires
        c.channel_config_file is None,
        c.channel_config is None,
    ensures
        ({
            let kind = match c.channel1 {
                Some(n) => n@,
                None => "identity"@,
            };
            let r = spec_primary_mix(c, zero, unit_weight);
            &&& !(r matches Ok(SpecMixPlan::File(_)))
            &&& r matches Ok(SpecMixPlan::Inline(m)) ==> {
                &&& m.len() == 1
                &&& m[0].kind == kind
                &&& c.p1 matches Some(v) ==> m[0].p == v
                &&& c.p1 is None ==> m[0].p == zero
                &&& m[0].weight == unit_weight
                &&& m[0].p_range == c.p1_range
                &&& m[0].p1_min == c.p1_min
                &&& m[0].p1_max == c.p1_max
                &&& m[0].q_range == c.q1_range
                &&& m[0].q1_min == c.q1_min
                &&& m[0].q1_max == c.q1_max
            }
            &&& kind != "identity"@ && c.p1 is None && c.p1_range is None && !(c.p1_min is Some
                && c.p1_max is Some) ==> r == Err::<SpecMixPlan<N>, SpecParamError>(
                SpecParamError::MissingNoise { param: "p1"@, channel: kind },
            )
        }),
{
}

/// When a configuration describes its second channel by fields alone (no
/// mix file, no inline mix, but some second-channel field), the resolved mix
/// is a single entry of unit weight whose model is `channel2`, else
/// `channel1`, else `identity`; whose `p` is `p2`, else `p1`, else `zero`;
/// and whose every range is the second channel's, else the first's. A noisy
/// model with no `p` and no range for it on either channel is refused,
/// naming `p2`.
pub proof fn lemma_second_channel_entry<N>(c: ExperimentConfig<N>, zero: N, unit_weight: N)
    requires
        c.channel_config2_file is None,
        c.channel_config2 is None,
        spec_has_secondary(c),
    ensures
        ({
            let kind = match c.channel2 {
                Some(n) => n@,
                None => match c.channel1 {
                    Some(n) => n@,
                    None => "identity"@,
                },
            };
            let r = spec_secondary_mix(c, zero, unit_weight);
            &&& !(r matches Ok(SpecMixPlan::File(_)))
            &&& r matches Ok(SpecMixPlan::Inline(m)) ==> {
                &&& m.len() == 1
                &&& m[0].kind == kind
                &&& c.p2 matches Some(v) ==> m[0].p == v
                &&& c.p2 is None ==> (c.p1 matches Some(v) ==> m[0].p == v)
                &&& c.p2 is None && c.p1 is None ==> m[0].p == zero
                &&& m[0].weight == unit_weight
                &&& m[0].p_range == (if c.p2_range is Some { c.p2_range } else { c.p1_range })
                &&& m[0].p1_min == (if c.p2_min is Some { c.p2_min } else { c.p1_min })
                &&& m[0].p1_max == (if c.p2_max is Some { c.p2_max } else { c.p1_max })
                &&& m[0].q_range == (if c.q2_range is Some { c.q2_range } else { c.q1_range })
                &&& m[0].q1_min == (if c.q2_min is Some { c.q2_min } else { c.q1_min })
                &&& m[0].q1_max == (if c.q2_max is Some { c.q2_max } else { c.q1_max })
            }
            &&& kind != "identity"@ && c.p2 is None && c.p1 is None && c.p2_range is None
                && c.p1_range is None && c.p2_min is None && c.p2_max is None && c.p1_min is None
                && c.p1_max is None ==> r == Err::<SpecMixPlan<N>, SpecParamError>(
                SpecParamError::MissingNoise { param: "p2"@, channel: kind },
            )
        }),
{
}

// ── Mixes from command-line flags ─────────────────────────────────────────────

/// The mix the command line describes: the mix file when one is named, else
/// the single channel given by the flags (see [`spec_single_mix`]).
pub open spec fn spec_cli_mix<N>(
    config: Option<String>,
    kind: ChannelKind,
    p: Option<N>,
    q: Option<N>,
    zero: N,
    unit_weight: N,
) -> Result<SpecMixPlan<N>, SpecParamError> {
    match config {
        Some(path) => Ok(SpecMixPlan::File(path@)),
        None => inline_plan(spec_single_mix(kind, p, q, zero, unit_weight)),
    }
}

/// Resolves the channel mix of the command-line flags.
pub fn resolve_mix<N: Copy>(
    config: &Option<String>,
    kind: &ChannelKind,
    p: Option<N>,
    q: Option<N>,
    zero: N,
    unit_weight: N,
) -> (r: Result<MixPlan<N>, ParamError>)
    ensures
        plan_result_view(r) == spec_cli_mix(*config, *kind, p, q, zero, unit_weight),
{
    match config {
        Some(path) => Ok(MixPlan::File(path.clone())),
        None => match single_channel_mix(kind, p, q, zero, unit_weight) {
            Ok(m) => Ok(MixPlan::Inline(m)),
            Err(e) => Err(e),
        },
    }
}

/// Resolves the second channel's mix of the command-line flags: each of the
/// second channel's mix file, model, `p` and `q` defaults to the first's.
pub fn resolve_second_mix<N: Copy>(
    config1: &Option<String>,
    config2: &Option<String>,
    kind1: &ChannelKind,
    kind2: &Option<ChannelKind>,
    p1: Option<N>,
    p2: Option<N>,
    q1: Option<N>,
    q2: Option<N>,
    zero: N,
    unit_weight: N,
) -> (r: Result<MixPlan<N>, ParamError>)
    ensures
        plan_result_view(r) == spec_cli_mix(
            first_of(*config2, *config1),
            or_default(*kind2, *kind1),
            first_of(p2, p1),
            first_of(q2, q1),
            zero,
            unit_weight,
        ),
{
    let config: Option<String> = match config2 {
        Some(c) => Some(c.clone()),
        None => match config1 {
            Some(c) => Some(c.clone()),
            None => None,
        },
    };
    let kind = match kind2 {
        Some(k) => *k,
        None => *kind1,
    };
    resolve_mix(&config, &kind, or_else(p2, p1), or_else(q2, q1), zero, unit_weight)
}

/// A mix file named on the command line is used instead of the channel
/// flags; without one, the flags give the single-channel mix.
pub proof fn lemma_cli_mix_sources<N>(
    config: Option<String>,
    kind: ChannelKind,
    p: Option<N>,
    q: Option<N>,
    zero: N,
    unit_weight: N,
)
    ensures
        config matches Some(path) ==> spec_cli_mix(config, kind, p, q, zero, unit_weight) == Ok::<
            SpecMixPlan<N>,
            SpecParamError,
        >(SpecMixPlan::File(path@)),
        config is None ==> match spec_single_mix(kind, p, q, zero, unit_weight) {
            Ok(m) => spec_cli_mix(config, kind, p, q, zero, unit_weight) == Ok::<
                SpecMixPlan<N>,
                SpecParamError,
            >(SpecMixPlan::Inline(m)),
            Err(e) => spec_cli_mix(config, kind, p, q, zero, unit_weight) == Err::<
                SpecMixPlan<N>,
                SpecParamError,
            >(e),
        },
{
}

/// Without flags of its own, the second channel of the command line is the
/// first one.
pub proof fn lemma_second_channel_defaults_to_first<N>(
    config1: Option<String>,
    kind1: ChannelKind,
    p1: Option<N>,
    q1: Option<N>,
    zero: N,
    unit_weight: N,
)
    ensures
        spec_cli_mix(
            first_of(None, config1),
            or_default(None, kind1),
            first_of(None, p1),
            first_of(None, q1),
            zero,
            unit_weight,
        ) == spec_cli_mix(config1, kind1, p1, q1, zero, unit_weight),
{
}

// ── Run settings ──────────────────────────────────────────────────────────────

/// The settings of a simulation run.
#[derive(Clone, Debug)]
pub struct RunSettings<N> {
    /// Number of independent shots.
    pub shots: usize,
    /// RNG seed (shot `i` is seeded with `seed + i`).
    pub seed: Option<u64>,
    /// Output file, if any.
    pub output: Option<String>,
    /// Show keys / vectors on the terminal.
    pub detail: bool,
    /// Write keys / vectors to the output file.
    pub keys_out: bool,
    /// Qubits / pairs / rounds per shot.
    pub num_qubits: usize,
    /// Eve interception probability.
    pub eve_ratio: N,
    /// Fraction of sifted bits used for QBER estimation.
    pub check_ratio: N,
    /// Acceptance threshold.
    pub threshold: N,
}

/// The settings of a run from the command line alone: keys go to the output
/// file exactly when they are shown, and GC01 shows and writes none.
pub open spec fn spec_cli_settings<N>(
    protocol: Protocol,
    shots: usize,
    seed: Option<u64>,
    output: Option<String>,
    detail: bool,
    num_qubits: usize,
    eve_ratio: N,
    check_ratio: N,
    threshold: N,
) -> RunSettings<N> {
    let shown = protocol != Protocol::Gc01 && detail;
    RunSettings {
        shots,
        seed,
        output,
        detail: shown,
        keys_out: shown,
        num_qubits,
        eve_ratio,
        check_ratio,
        threshold,
    }
}

/// Builds the settings of a run from the command line alone.
pub fn cli_settings<N>(
    protocol: Protocol,
    shots: usize,
    seed: Option<u64>,
    output: Option<String>,
    detail: bool,
    num_qubits: usize,
    eve_ratio: N,
    check_ratio: N,
    threshold: N,
) -> (s: RunSettings<N>)
    ensures
        s == spec_cli_settings(
            protocol,
            shots,
            seed,
            output,
            detail,
            num_qubits,
            eve_ratio,
            check_ratio,
            threshold,
        ),
{
    let shown = !matches!(protocol, Protocol::Gc01) && detail;
    RunSettings {
        shots,
        seed,
        output,
        detail: shown,
        keys_out: shown,
        num_qubits,
        eve_ratio,
        check_ratio,
        threshold,
    }
}

/// The settings of a run driven by a configuration: each setting the
/// configuration gives replaces the command-line one. `keys_out` defaults to
/// the resulting `detail`; for GC01 nothing is shown and keys are written
/// only when the configuration asks for it.
pub open spec fn spec_merge_settings<N>(
    c: ExperimentConfig<N>,
    cli: RunSettings<N>,
    protocol: Protocol,
) -> RunSettings<N> {
    let detail = if protocol == Protocol::Gc01 {
        false
    } else {
        or_default(c.detail, cli.detail)
    };
    RunSettings {
        shots: or_default(c.shots, cli.shots),
        seed: first_of(c.seed, cli.seed),
        output: first_of(c.out_file, cli.output),
        detail,
        keys_out: or_default(c.keys_out, detail),
        num_qubits: or_default(c.num_qubits, cli.num_qubits),
        eve_ratio: or_default(c.eve_ratio, cli.eve_ratio),
        check_ratio: or_default(c.check_ratio, cli.check_ratio),
        threshold: or_default(c.threshold, cli.threshold),
    }
}

/// Whether the run records keys / vectors: when they are shown or written.
pub open spec fn spec_records_keys<N>(s: RunSettings<N>) -> bool {
    s.detail || s.keys_out
}

impl<N: Copy> RunSettings<N> {
    /// Whether the run records keys / vectors.
    pub fn records_keys(&self) -> (b: bool)
        ensures
            b == spec_records_keys(*self),
    {
        self.detail || self.keys_out
    }
}

impl<N: Copy> ExperimentConfig<N> {
    /// Merges this configuration over the command-line settings `cli` of
    /// `protocol` (see [`spec_merge_settings`]).
    pub fn merge_settings(&self, cli: RunSettings<N>, protocol: Protocol) -> (s: RunSettings<N>)
        ensures
            s == spec_merge_settings(*self, cli, protocol),
    {
        let detail = if matches!(protocol, Protocol::Gc01) {
            false
        } else {
            match self.detail {
                Some(d) => d,
                None => cli.detail,
            }
        };
        RunSettings {
            shots: match self.shots {
                Some(v) => v,
                None => cli.shots,
            },
            seed: or_else(self.seed, cli.seed),
            output: match &self.out_file {
                Some(o) => Some(o.clone()),
                None => cli.output,
            },
            detail,
            keys_out: match self.keys_out {
                Some(k) => k,
                None => detail,
            },
            num_qubits: match self.num_qubits {
                Some(v) => v,
                None => cli.num_qubits,
            },
            eve_ratio: or_default_exec(self.eve_ratio, cli.eve_ratio),
            check_ratio: or_default_exec(self.check_ratio, cli.check_ratio),
            threshold: or_default_exec(self.threshold, cli.threshold),
        }
    }
}

/// The value of an optional setting, or `dflt` when it is absent.
fn or_default_exec<T: Copy>(o: Option<T>, dflt: T) -> (r: T)
    ensures
        r == or_default(o, dflt),
{
    match o {
        Some(v) => v,
        None => dflt,
    }
}

/// Every setting a configuration gives replaces the command-line one, and
/// every setting it leaves out keeps the command-line value. GC01 never
/// shows keys; `keys_out`, when not given, follows the merged `detail`.
pub proof fn lemma_configuration_settings_win<N>(
    c: ExperimentConfig<N>,
    cli: RunSettings<N>,
    protocol: Protocol,
)
    ensures
        ({
            let s = spec_merge_settings(c, cli, protocol);
            &&& c.shots matches Some(v) ==> s.shots == v
            &&& c.shots is None ==> s.shots == cli.shots
            &&& c.seed is Some ==> s.seed == c.seed
            &&& c.seed is None ==> s.seed == cli.seed
            &&& c.out_file is Some ==> s.output == c.out_file
            &&& c.out_file is None ==> s.output == cli.output
            &&& c.num_qubits matches Some(v) ==> s.num_qubits == v
            &&& c.num_qubits is None ==> s.num_qubits == cli.num_qubits
            &&& c.eve_ratio matches Some(v) ==> s.eve_ratio == v
            &&& c.eve_ratio is None ==> s.eve_ratio == cli.eve_ratio
            &&& c.check_ratio matches Some(v) ==> s.check_ratio == v
            &&& c.check_ratio is None ==> s.check_ratio == cli.check_ratio
            &&& c.threshold matches Some(v) ==> s.threshold == v
            &&& c.threshold is None ==> s.threshold == cli.threshold
            &&& protocol == Protocol::Gc01 ==> !s.detail
            &&& protocol != Protocol::Gc01 ==> (c.detail matches Some(d) ==> s.detail == d)
            &&& protocol != Protocol::Gc01 && c.detail is None ==> s.detail == cli.detail
            &&& c.keys_out matches Some(k) ==> s.keys_out == k
            &&& c.keys_out is None ==> s.keys_out == s.detail
        }),
{
}

/// From the command line alone, every flag is taken as given, except that
/// GC01 neither shows nor writes keys; keys are written exactly when shown.
pub proof fn lemma_command_line_settings<N>(
    protocol: Protocol,
    shots: usize,
    seed: Option<u64>,
    output: Option<String>,
    detail: bool,
    num_qubits: usize,
    eve_ratio: N,
    check_ratio: N,
    threshold: N,
)
    ensures
        ({
            let s = spec_cli_settings(
                protocol,
                shots,
                seed,
                output,
                detail,
                num_qubits,
                eve_ratio,
                check_ratio,
                threshold,
            );
            &&& s.shots == shots && s.seed == seed && s.output == output
            &&& s.num_qubits == num_qubits && s.eve_ratio == eve_ratio
            &&& s.check_ratio == check_ratio && s.threshold == threshold
            &&& s.detail == (detail && protocol != Protocol::Gc01)
            &&& s.keys_out == s.detail
        }),
{
}

/// Unless a configuration sets `keys_out`, a run writes keys to its output
/// file exactly when it shows them.
pub proof fn lemma_keys_out_follows_detail<N>(
    c: ExperimentConfig<N>,
    cli: RunSettings<N>,
    protocol: Protocol,
)
    requires
        c.keys_out is None,
    ensures
        spec_merge_settings(c, cli, protocol).keys_out == spec_merge_settings(
            c,
            cli,
            protocol,
        ).detail,
{
}

} // verus!
