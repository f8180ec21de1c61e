use vstd::prelude::*;

use crate::text::{owned, str_equal};

verus! {

/// The channel models selectable on the command line.
#[derive(Clone, Copy, Debug, PartialEq, Eq, Structural)]
pub enum ChannelKind {
    /// No-operation channel; qubits pass through unmodified.
    Identity,
    /// Bit-flip channel; applies an X gate with probability `p`.
    BitFlip,
    /// Phase-flip channel; applies a Z gate with probability `p`.
    PhaseFlip,
    /// Bit-phase-flip channel; applies a Y gate with probability `p`.
    BitPhaseFlip,
    /// Depolarizing channel; replaces the qubit with the maximally mixed state with probability `p`.
    Depolarizing,
    /// Amplitude-damping channel (T1 relaxation) with parameter `p`.
    AmplitudeDamping,
    /// Phase-damping channel (T2 decay) with parameter `p`.
    PhaseDamping,
    /// Combined amplitude- and phase-damping channel; needs both `p` and `q`.
    AmplitudePhaseDamping,
}

/// The name under which a channel model is known on the command line and in
/// configuration files.
pub open spec fn kind_name(k: ChannelKind) -> Seq<char> {
    match k {
        ChannelKind::Identity => "identity"@,
        ChannelKind::BitFlip => "bit-flip"@,
        ChannelKind::PhaseFlip => "phase-flip"@,
        ChannelKind::BitPhaseFlip => "bit-phase-flip"@,
        ChannelKind::Depolarizing => "depolarizing"@,
        ChannelKind::AmplitudeDamping => "amplitude-damping"@,
        ChannelKind::PhaseDamping => "phase-damping"@,
        ChannelKind::AmplitudePhaseDamping => "amplitude-phase-damping"@,
    }
}

/// The channel model a name denotes, if any.
pub open spec fn kind_named(name: Seq<char>) -> Option<ChannelKind> {
    if name == "identity"@ {
        Some(ChannelKind::Identity)
    } else if name == "bit-flip"@ {
        Some(ChannelKind::BitFlip)
    } else if name == "phase-flip"@ {
        Some(ChannelKind::PhaseFlip)
    } else if name == "bit-phase-flip"@ {
        Some(ChannelKind::BitPhaseFlip)
    } else if name == "depolarizing"@ {
        Some(ChannelKind::Depolarizing)
    } else if name == "amplitude-damping"@ {
        Some(ChannelKind::AmplitudeDamping)
    } else if name == "phase-damping"@ {
        Some(ChannelKind::PhaseDamping)
    } else if name == "amplitude-phase-damping"@ {
        Some(ChannelKind::AmplitudePhaseDamping)
    } else {
        None
    }
}

impl ChannelKind {
    /// The command-line name of this channel model.
    pub fn as_str(&self) -> (s: &'static str)
        ensures
            s@ == kind_name(*self),
    {
        match self {
            ChannelKind::Identity => "identity",
            ChannelKind::BitFlip => "bit-flip",
            ChannelKind::PhaseFlip => "phase-flip",
            ChannelKind::BitPhaseFlip => "bit-phase-flip",
            ChannelKind::Depolarizing => "depolarizing",
            ChannelKind::AmplitudeDamping => "amplitude-damping",
            ChannelKind::PhaseDamping => "phase-damping",
            ChannelKind::AmplitudePhaseDamping => "amplitude-phase-damping",
        }
    }

    /// The channel model called `name`, or `None` for an unknown name.
    pub fn from_name(name: &str) -> (k: Option<ChannelKind>)
        ensures
            k == kind_named(name@),
    {
        if str_equal(name, "identity") {
            Some(ChannelKind::Identity)
        } else if str_equal(name, "bit-flip") {
            Some(ChannelKind::BitFlip)
        } else if str_equal(name, "phase-flip") {
            Some(ChannelKind::PhaseFlip)
        } else if str_equal(name, "bit-phase-flip") {
            Some(ChannelKind::BitPhaseFlip)
        } else if str_equal(name, "depolarizing") {
            Some(ChannelKind::Depolarizing)
        } else if str_equal(name, "amplitude-damping") {
            Some(ChannelKind::AmplitudeDamping)
        } else if str_equal(name, "phase-damping") {
            Some(ChannelKind::PhaseDamping)
        } else if str_equal(name, "amplitude-phase-damping") {
            Some(ChannelKind::AmplitudePhaseDamping)
        } else {
            None
        }
    }
}

/// Every channel model is found again under its own name.
pub proof fn lemma_kind_name_round_trip(k: ChannelKind)
    ensures
        kind_named(kind_name(k)) == Some(k),
{
    reveal_strlit("identity");
    reveal_strlit("bit-flip");
    reveal_strlit("phase-flip");
    reveal_strlit("bit-phase-flip");
    reveal_strlit("depolarizing");
    reveal_strlit("amplitude-damping");
    reveal_strlit("phase-damping");
    reveal_strlit("amplitude-phase-damping");
    assert("identity"@.len() == 8);
    assert("bit-flip"@.len() == 8);
    assert("phase-flip"@.len() == 10);
    assert("bit-phase-flip"@.len() == 14);
    assert("depolarizing"@.len() == 12);
    assert("amplitude-damping"@.len() == 17);
    assert("phase-damping"@.len() == 13);
    assert("amplitude-phase-damping"@.len() == 23);
    assert("identity"@[0] != "bit-flip"@[0]);
}

/// Whether a channel model needs the primary noise parameter `p`.
pub open spec fn kind_needs_p(k: ChannelKind) -> bool {
    k != ChannelKind::Identity
}

/// Whether a channel model needs the second noise parameter `q`.
pub open spec fn kind_needs_q(k: ChannelKind) -> bool {
    k == ChannelKind::AmplitudePhaseDamping
}

impl ChannelKind {
    /// Whether this model needs the primary noise parameter `p`.
    pub fn needs_p(&self) -> (b: bool)
        ensures
            b == kind_needs_p(*self),
    {
        !matches!(self, ChannelKind::Identity)
    }

    /// Whether this model needs the second noise parameter `q`.
    pub fn needs_q(&self) -> (b: bool)
        ensures
            b == kind_needs_q(*self),
    {
        matches!(self, ChannelKind::AmplitudePhaseDamping)
    }
}

// ── Channel mixes ─────────────────────────────────────────────────────────────

/// One entry of a channel mix: a channel name, its noise parameters (fixed
/// values, or ranges from which each shot draws a value) and a relative
/// weight for the random choice between entries.
#[derive(Clone, Debug)]
pub struct ChannelSpec<N> {
    /// Channel type name, such as `"bit-flip"`; unknown names are kept.
    pub kind: String,
    /// Fixed primary noise parameter, used when no range for `p` is given.
    pub p: N,
    /// Fixed second noise parameter, used when no range for `q` is given.
    pub q: N,
    /// Range `[min, max]` for `p`; takes precedence over every other form.
    pub p_range: Option<[N; 2]>,
    /// Lower end of a range for `p`, used together with `p1_max`.
    pub p1_min: Option<N>,
    /// Upper end of a range for `p`, used together with `p1_min`.
    pub p1_max: Option<N>,
    /// Range `[min, max]` for `q`; takes precedence over every other form.
    pub q_range: Option<[N; 2]>,
    /// Lower end of a range for `q`, used together with `q1_max`.
    pub q1_min: Option<N>,
    /// Upper end of a range for `q`, used together with `q1_min`.
    pub q1_max: Option<N>,
    /// Relative weight of this entry (weights need not sum to one).
    pub weight: N,
}

/// The mathematical content of a [`ChannelSpec`].
#[verifier::ext_equal]
pub struct SpecChannel<N> {
    pub kind: Seq<char>,
    pub p: N,
    pub q: N,
    pub p_range: Option<[N; 2]>,
    pub p1_min: Option<N>,
    pub p1_max: Option<N>,
    pub q_range: Option<[N; 2]>,
    pub q1_min: Option<N>,
    pub q1_max: Option<N>,
    pub weight: N,
}

impl<N> View for ChannelSpec<N> {
    type V = SpecChannel<N>;

    open spec fn view(&self) -> SpecChannel<N> {
        SpecChannel {
            kind: self.kind@,
            p: self.p,
            q: self.q,
            p_range: self.p_range,
            p1_min: self.p1_min,
            p1_max: self.p1_max,
            q_range: self.q_range,
            q1_min: self.q1_min,
            q1_max: self.q1_max,
            weight: self.weight,
        }
    }
}

/// The contents of a channel mix.
pub open spec fn mix_view<N>(mix: Seq<ChannelSpec<N>>) -> Seq<SpecChannel<N>> {
    mix.map_values(|s: ChannelSpec<N>| s@)
}

/// An entry with fixed noise values, no ranges and the given weight.
pub open spec fn fixed_entry<N>(kind: Seq<char>, p: N, q: N, weight: N) -> SpecChannel<N> {
    SpecChannel {
        kind,
        p,
        q,
        p_range: None,
        p1_min: None,
        p1_max: None,
        q_range: None,
        q1_min: None,
        q1_max: None,
        weight,
    }
}

impl<N: Copy> ChannelSpec<N> {
    /// A copy of this entry.
    pub fn duplicate(&self) -> (c: Self)
        ensures
            c@ == self@,
    {
        ChannelSpec {
            kind: self.kind.clone(),
            p: self.p,
            q: self.q,
            p_range: self.p_range,
            p1_min: self.p1_min,
            p1_max: self.p1_max,
            q_range: self.q_range,
            q1_min: self.q1_min,
            q1_max: self.q1_max,
            weight: self.weight,
        }
    }
}

/// A copy of a whole channel mix.
pub fn duplicate_mix<N: Copy>(mix: &Vec<ChannelSpec<N>>) -> (c: Vec<ChannelSpec<N>>)
    ensures
        mix_view(c@) == mix_view(mix@),
{
    let mut c: Vec<ChannelSpec<N>> = Vec::new();
    let mut i: usize = 0;
    while i < mix.len()
        invariant
            i <= mix@.len(),
            c@.len() == i,
            forall|j: int| 0 <= j < i ==> #[trigger] c@[j]@ == mix@[j]@,
        decreases mix@.len() - i,
    {
        c.push(mix[i].duplicate());
        i = i + 1;
    }
    assert(mix_view(c@) =~= mix_view(mix@));
    c
}

// ── Errors in the noise parameters ────────────────────────────────────────────

/// A channel needs a noise parameter that was not given, or a channel mix is empty.
#[derive(Clone, Debug)]
pub enum ParamError {
    /// The command line names a channel that needs `--p1` without giving it.
    MissingP1Flag(ChannelKind),
    /// The command line names the combined damping channel without `--q1`.
    MissingQ1Flag,
    /// A configuration names a channel that needs the parameter `param`
    /// (or a range for it) without giving it.
    MissingNoise { param: String, channel: String },
    /// A configuration names the combined damping channel without the
    /// second parameter `param` (or a range for it).
    MissingSecondNoise { param: String },
    /// An inline channel mix of a configuration has no entry.
    EmptyChannelConfig,
}

/// The mathematical content of a [`ParamError`].
pub enum SpecParamError {
    MissingP1Flag(ChannelKind),
    MissingQ1Flag,
    MissingNoise { param: Seq<char>, channel: Seq<char> },
    MissingSecondNoise { param: Seq<char> },
    EmptyChannelConfig,
}

impl View for ParamError {
    type V = SpecParamError;

    open spec fn view(&self) -> SpecParamError {
        match self {
            ParamError::MissingP1Flag(k) => SpecParamError::MissingP1Flag(*k),
            ParamError::MissingQ1Flag => SpecParamError::MissingQ1Flag,
            ParamError::MissingNoise { param, channel } => SpecParamError::MissingNoise {
                param: param@,
                channel: channel@,
            },
            ParamError::MissingSecondNoise { param } => SpecParamError::MissingSecondNoise {
                param: param@,
            },
            ParamError::EmptyChannelConfig => SpecParamError::EmptyChannelConfig,
        }
    }
}

/// The text reported for a parameter error.
pub open spec fn param_error_text(e: SpecParamError) -> Seq<char> {
    match e {
        SpecParamError::MissingP1Flag(k) => "Error: --p1 is required for channel '"@ + kind_name(
            k,
        ) + "'"@,
        SpecParamError::MissingQ1Flag => "Error: --q1 is required for channel 'amplitude-phase-damping'"@,
        SpecParamError::MissingNoise { param, channel } => "Error: '"@ + param
            + "' (or range) is required for channel '"@ + channel + "'"@,
        SpecParamError::MissingSecondNoise { param } => "Error: '"@ + param
            + "' (or range) is required for channel 'amplitude-phase-damping'"@,
        SpecParamError::EmptyChannelConfig => "Error: channel_config must have at least one entry"@,
    }
}

/// The contents of the result of building a mix.
pub open spec fn mix_result_view<N>(r: Result<Vec<ChannelSpec<N>>, ParamError>) -> Result<
    Seq<SpecChannel<N>>,
    SpecParamError,
> {
    match r {
        Ok(m) => Ok(mix_view(m@)),
        Err(e) => Err(e@),
    }
}

impl ParamError {
    /// The text reported for this error.
    pub fn message(&self) -> (m: String)
        ensures
            m@ == param_error_text(self@),
    {
        match self {
            ParamError::MissingP1Flag(k) => {
                let mut m = owned("Error: --p1 is required for channel '");
                m.append(k.as_str());
                m.append("'");
                m
            },
            ParamError::MissingQ1Flag => owned(
                "Error: --q1 is required for channel 'amplitude-phase-damping'",
            ),
            ParamError::MissingNoise { param, channel } => {
                let mut m = owned("Error: '");
                m.append(param.as_str());
                m.append("' (or range) is required for channel '");
                m.append(channel.as_str());
                m.append("'");
                m
            },
            ParamError::MissingSecondNoise { param } => {
                let mut m = owned("Error: '");
                m.append(param.as_str());
                m.append("' (or range) is required for channel 'amplitude-phase-damping'");
                m
            },
            ParamError::EmptyChannelConfig => owned(
                "Error: channel_config must have at least one entry",
            ),
        }
    }
}

// ── Mixes from the command line ───────────────────────────────────────────────

/// The one-entry mix that `single_channel_mix` builds when it succeeds: the
/// model's name, `p` (or `zero` where the model needs none and none is
/// given), `q` where the model needs it and `zero` otherwise, and weight
/// `unit_weight`.
pub open spec fn single_entry<N>(
    kind: ChannelKind,
    p: Option<N>,
    q: Option<N>,
    zero: N,
    unit_weight: N,
) -> SpecChannel<N> {
    fixed_entry(
        kind_name(kind),
        match p {
            Some(v) => v,
            None => zero,
        },
        if kind_needs_q(kind) {
            match q {
                Some(v) => v,
                None => zero,
            }
        } else {
            zero
        },
        unit_weight,
    )
}

/// What `single_channel_mix` yields: a missing `p` is refused first (for
/// every model but identity), then a missing `q` (for the combined damping
/// model); otherwise the one-entry mix [`single_entry`].
pub open spec fn spec_single_mix<N>(
    kind: ChannelKind,
    p: Option<N>,
    q: Option<N>,
    zero: N,
    unit_weight: N,
) -> Result<Seq<SpecChannel<N>>, SpecParamError> {
    if kind_needs_p(kind) && p is None {
        Err(SpecParamError::MissingP1Flag(kind))
    } else if kind_needs_q(kind) && q is None {
        Err(SpecParamError::MissingQ1Flag)
    } else {
        Ok(seq![single_entry(kind, p, q, zero, unit_weight)])
    }
}

/// Builds the one-entry mix described by the command-line flags `--channel1`,
/// `--p1` and `--q1`. `zero` stands for the value 0 of the noise type and
/// `unit_weight` for the weight 1.
pub fn single_channel_mix<N: Copy>(
    kind: &ChannelKind,
    p: Option<N>,
    q: Option<N>,
    zero: N,
    unit_weight: N,
) -> (r: Result<Vec<ChannelSpec<N>>, ParamError>)
    ensures
        mix_result_view(r) == spec_single_mix(*kind, p, q, zero, unit_weight),
{
    let needs_p = kind.needs_p();
    let needs_q = kind.needs_q();
    let p_val = if needs_p {
        match p {
            Some(v) => v,
            None => return Err(ParamError::MissingP1Flag(*kind)),
        }
    } else {
        match p {
            Some(v) => v,
            None => zero,
        }
    };
    let q_val = if needs_q {
        match q {
            Some(v) => v,
            None => return Err(ParamError::MissingQ1Flag),
        }
    } else {
        zero
    };
    let mut mix: Vec<ChannelSpec<N>> = Vec::new();
    mix.push(
        ChannelSpec {
            kind: owned(kind.as_str()),
            p: p_val,
            q: q_val,
            p_range: None,
            p1_min: None,
            p1_max: None,
            q_range: None,
            q1_min: None,
            q1_max: None,
            weight: unit_weight,
        },
    );
    assert(mix_view(mix@) =~= seq![single_entry(*kind, p, q, zero, unit_weight)]);
    Ok(mix)
}

// ── Mixes read from a file ───────────────────────────────────────────────────

/// The text reported when the channel-config file `path` holds an empty mix.
pub open spec fn empty_mix_text(path: Seq<char>) -> Seq<char> {
    "Channel config '"@ + path + "' must have at least one entry"@
}

/// Accepts the mix parsed from the channel-config file `path`: a mix must
/// have at least one entry.
pub fn check_loaded_mix<N>(path: &str, mix: Vec<ChannelSpec<N>>) -> (r: Result<
    Vec<ChannelSpec<N>>,
    String,
>)
    ensures
        mix@.len() == 0 ==> (r matches Err(m) && m@ == empty_mix_text(path@)),
        mix@.len() != 0 ==> r == Ok::<Vec<ChannelSpec<N>>, String>(mix),
{
    if mix.len() == 0 {
        let mut m = owned("Channel config '");
        m.append(path);
        m.append("' must have at least one entry");
        Err(m)
    } else {
        Ok(mix)
    }
}

// ── Drawing the noise of one shot ─────────────────────────────────────────────

/// How a noise parameter is obtained for a shot: a fixed value, or a value
/// drawn uniformly from `[lo, hi]` (one random number per draw).
#[derive(Clone, Copy, Debug)]
pub enum NoiseDraw<N> {
    Fixed(N),
    Uniform(N, N),
}

/// How the primary parameter of an entry is obtained: `p_range` first, then
/// the pair `p1_min`/`p1_max` when both are present, else the fixed `p`.
pub open spec fn spec_p_draw<N>(s: SpecChannel<N>) -> NoiseDraw<N> {
    match s.p_range {
        Some(r) => NoiseDraw::Uniform(r[0], r[1]),
        None => match (s.p1_min, s.p1_max) {
            (Some(lo), Some(hi)) => NoiseDraw::Uniform(lo, hi),
            _ => NoiseDraw::Fixed(s.p),
        },
    }
}

/// How the second parameter of an entry is obtained, by the same rule as `p`.
pub open spec fn spec_q_draw<N>(s: SpecChannel<N>) -> NoiseDraw<N> {
    match s.q_range {
        Some(r) => NoiseDraw::Uniform(r[0], r[1]),
        None => match (s.q1_min, s.q1_max) {
            (Some(lo), Some(hi)) => NoiseDraw::Uniform(lo, hi),
            _ => NoiseDraw::Fixed(s.q),
        },
    }
}

impl<N: Copy> ChannelSpec<N> {
    /// How this entry's primary parameter is obtained for a shot.
    pub fn p_draw(&self) -> (d: NoiseDraw<N>)
        ensures
            d == spec_p_draw(self@),
    {
        match self.p_range {
            Some(r) => NoiseDraw::Uniform(r[0], r[1]),
            None => match (self.p1_min, self.p1_max) {
                (Some(lo), Some(hi)) => NoiseDraw::Uniform(lo, hi),
                _ => NoiseDraw::Fixed(self.p),
            },
        }
    }

    /// How this entry's second parameter is obtained for a shot.
    pub fn q_draw(&self) -> (d: NoiseDraw<N>)
        ensures
            d == spec_q_draw(self@),
    {
        match self.q_range {
            Some(r) => NoiseDraw::Uniform(r[0], r[1]),
            None => match (self.q1_min, self.q1_max) {
                (Some(lo), Some(hi)) => NoiseDraw::Uniform(lo, hi),
                _ => NoiseDraw::Fixed(self.q),
            },
        }
    }
}

/// Whether drawing a channel from `mix` makes a weighted random choice; a
/// one-entry mix is used as it is, without consuming a random number.
pub fn draws_entry<N>(mix: &Vec<ChannelSpec<N>>) -> (b: bool)
    ensures
        b == (mix@.len() != 1),
{
    mix.len() != 1
}

/// Metadata about the channel actually used in a shot.
#[derive(Clone, Debug)]
pub struct ChannelInfo<N> {
    /// The channel's type name, as written under `channel_type` in every
    /// output row.
    pub channel_type: String,
    pub p: N,
    pub q: N,
}

/// The record of a shot that used the entry `spec` with the noise values `p`, `q`.
pub fn channel_info<N: Copy>(spec: &ChannelSpec<N>, p: N, q: N) -> (i: ChannelInfo<N>)
    ensures
        i.channel_type@ == spec.kind@,
        i.p == p,
        i.q == q,
{
    ChannelInfo { channel_type: spec.kind.clone(), p, q }
}

/// An entry without ranges always yields its fixed values, so a one-entry
/// mix without ranges behaves like the single channel given by flags.
pub proof fn lemma_fixed_entry_draws_fixed<N>(kind: Seq<char>, p: N, q: N, weight: N)
    ensures
        spec_p_draw(fixed_entry(kind, p, q, weight)) == NoiseDraw::Fixed(p),
        spec_q_draw(fixed_entry(kind, p, q, weight)) == NoiseDraw::Fixed(q),
{
}

/// The flags `--channel1 k --p1 p [--q1 q]` describe the same mix as a
/// channel-config file holding the single entry `{"type": k, "p": p, "q": q}`:
/// one fixed entry of unit weight, which every shot uses with exactly `p`
/// and `q` (`q` counts only for the combined damping model).
pub proof fn lemma_flags_equal_single_entry_file<N>(
    kind: ChannelKind,
    p: N,
    q: N,
    zero: N,
    unit_weight: N,
)
    ensures
        spec_single_mix(kind, Some(p), Some(q), zero, unit_weight) == Ok::<
            Seq<SpecChannel<N>>,
            SpecParamError,
        >(
            seq![
                fixed_entry(
                    kind_name(kind),
                    p,
                    if kind_needs_q(kind) {
                        q
                    } else {
                        zero
                    },
                    unit_weight,
                ),
            ],
        ),
        spec_p_draw(single_entry(kind, Some(p), Some(q), zero, unit_weight)) == NoiseDraw::Fixed(p),
{
}

/// Each noise parameter of a shot is drawn uniformly from the `[min, max]`
/// range when one is given, else from the separately given `min` and `max`
/// when both are, and is the fixed value otherwise.
pub proof fn lemma_draw_precedence<N>(s: SpecChannel<N>)
    ensures
        s.p_range matches Some(r) ==> spec_p_draw(s) == NoiseDraw::Uniform(r[0], r[1]),
        s.p_range is None ==> (s.p1_min matches Some(lo) ==> (s.p1_max matches Some(hi)
            ==> spec_p_draw(s) == NoiseDraw::Uniform(lo, hi))),
        s.p_range is None && (s.p1_min is None || s.p1_max is None) ==> spec_p_draw(s)
            == NoiseDraw::Fixed(s.p),
        s.q_range matches Some(r) ==> spec_q_draw(s) == NoiseDraw::Uniform(r[0], r[1]),
        s.q_range is None ==> (s.q1_min matches Some(lo) ==> (s.q1_max matches Some(hi)
            ==> spec_q_draw(s) == NoiseDraw::Uniform(lo, hi))),
        s.q_range is None && (s.q1_min is None || s.q1_max is None) ==> spec_q_draw(s)
            == NoiseDraw::Fixed(s.q),
{
}

/// The flags are refused exactly when a noisy model comes without `p`
/// (reported first), or the combined damping model without `q`; otherwise
/// they give one fixed entry of unit weight named after the model, with the
/// given `p` (`zero` when an identity channel has none) and the given `q`
/// for the combined damping model (`zero` for every other model).
pub proof fn lemma_single_mix_outcomes<N>(
    kind: ChannelKind,
    p: Option<N>,
    q: Option<N>,
    zero: N,
    unit_weight: N,
)
    ensures
        ({
            let r = spec_single_mix(kind, p, q, zero, unit_weight);
            &&& kind != ChannelKind::Identity && p is None ==> r == Err::<
                Seq<SpecChannel<N>>,
                SpecParamError,
            >(SpecParamError::MissingP1Flag(kind))
            &&& kind == ChannelKind::AmplitudePhaseDamping && p is Some && q is None ==> r
                == Err::<Seq<SpecChannel<N>>, SpecParamError>(SpecParamError::MissingQ1Flag)
            &&& (kind == ChannelKind::Identity || p is Some) && (kind
                != ChannelKind::AmplitudePhaseDamping || q is Some) ==> (r matches Ok(m) && m.len()
                == 1 && m[0].kind == kind_name(kind) && m[0].weight == unit_weight
                && spec_p_draw(m[0]) == NoiseDraw::Fixed(
                match p {
                    Some(v) => v,
                    None => zero,
                },
            ) && spec_q_draw(m[0]) == NoiseDraw::Fixed(
                if kind == ChannelKind::AmplitudePhaseDamping {
                    q->0
                } else {
                    zero
                },
            ))
        }),
{
}

} // verus!
