use vstd::prelude::*;

use crate::text::{owned, str_equal};

verus! {

/// The simulated protocols, one per subcommand.
#[derive(Clone, Copy, Debug, PartialEq, Eq, Structural)]
pub enum Protocol {
    /// BB84 QKD, two conjugate bases.
    Bb84,
    /// B92 QKD, two non-orthogonal states.
    B92,
    /// BBM92 QKD, entanglement-based BB84.
    Bbm92,
    /// E91 QKD, entanglement and a Bell-inequality test.
    E91,
    /// Six-State QKD, three mutually unbiased bases.
    SixState,
    /// SARG04 QKD.
    Sarg04,
    /// QIA-QZKP quantum identity authentication.
    QiaQzkp,
    /// GC01 quantum digital signature.
    Gc01,
}

/// The subcommand name of a protocol.
pub open spec fn protocol_name(p: Protocol) -> Seq<char> {
    match p {
        Protocol::Bb84 => "bb84"@,
        Protocol::B92 => "b92"@,
        Protocol::Bbm92 => "bbm92"@,
        Protocol::E91 => "e91"@,
        Protocol::SixState => "six-state"@,
        Protocol::Sarg04 => "sarg04"@,
        Protocol::QiaQzkp => "qia-qzkp"@,
        Protocol::Gc01 => "gc01"@,
    }
}

/// The protocol whose subcommand name is exactly `name`, if any.
pub open spec fn protocol_named(name: Seq<char>) -> Option<Protocol> {
    if name == "bb84"@ {
        Some(Protocol::Bb84)
    } else if name == "b92"@ {
        Some(Protocol::B92)
    } else if name == "bbm92"@ {
        Some(Protocol::Bbm92)
    } else if name == "e91"@ {
        Some(Protocol::E91)
    } else if name == "six-state"@ {
        Some(Protocol::SixState)
    } else if name == "sarg04"@ {
        Some(Protocol::Sarg04)
    } else if name == "qia-qzkp"@ {
        Some(Protocol::QiaQzkp)
    } else if name == "gc01"@ {
        Some(Protocol::Gc01)
    } else {
        None
    }
}

/// What `str::to_lowercase` returns for a string with the given characters.
pub uninterp spec fn lowercase_of(s: Seq<char>) -> Seq<char>;

/// Whether every character of `s` is ASCII.
pub open spec fn is_ascii_text(s: Seq<char>) -> bool {
    forall|i: int| 0 <= i < s.len() ==> (s[i] as u32) < 128
}

/// The ASCII lowercase form of a character: `A`-`Z` become `a`-`z`, every
/// other character is kept.
pub open spec fn ascii_lower_char(c: char) -> char {
    if 65 <= (c as u32) && (c as u32) <= 90 {
        ((c as u32) + 32) as char
    } else {
        c
    }
}

/// The ASCII lowercase form of a string.
pub open spec fn ascii_lowercase(s: Seq<char>) -> Seq<char> {
    s.map_values(|c: char| ascii_lower_char(c))
}

/// `str::to_lowercase`: the lowercase equivalent of `s` under Unicode's
/// lowercase mapping. In general its result is named, not described; on
/// ASCII text, where that mapping turns `A`-`Z` into `a`-`z` and keeps every
/// other character, it is the ASCII lowercase form.
#[verifier::external_body]
fn lowercase(s: &str) -> (r: String)
    ensures
        r@ == lowercase_of(s@),
        is_ascii_text(s@) ==> r@ == ascii_lowercase(s@),
{
    s.to_lowercase()
}

impl Protocol {
    /// The subcommand name of this protocol.
    pub fn as_str(&self) -> (s: &'static str)
        ensures
            s@ == protocol_name(*self),
    {
        match self {
            Protocol::Bb84 => "bb84",
            Protocol::B92 => "b92",
            Protocol::Bbm92 => "bbm92",
            Protocol::E91 => "e91",
            Protocol::SixState => "six-state",
            Protocol::Sarg04 => "sarg04",
            Protocol::QiaQzkp => "qia-qzkp",
            Protocol::Gc01 => "gc01",
        }
    }

    /// The protocol whose subcommand name is exactly `name`.
    pub fn from_lowercase_name(name: &str) -> (p: Option<Protocol>)
        ensures
            p == protocol_named(name@),
    {
        if str_equal(name, "bb84") {
            Some(Protocol::Bb84)
        } else if str_equal(name, "b92") {
            Some(Protocol::B92)
        } else if str_equal(name, "bbm92") {
            Some(Protocol::Bbm92)
        } else if str_equal(name, "e91") {
            Some(Protocol::E91)
        } else if str_equal(name, "six-state") {
            Some(Protocol::SixState)
        } else if str_equal(name, "sarg04") {
            Some(Protocol::Sarg04)
        } else if str_equal(name, "qia-qzkp") {
            Some(Protocol::QiaQzkp)
        } else if str_equal(name, "gc01") {
            Some(Protocol::Gc01)
        } else {
            None
        }
    }
}

/// Whether a protocol runs over two channels (Alice's and Bob's for the
/// entanglement-based ones, Bob's and Charlie's for GC01).
pub open spec fn spec_uses_second_channel(p: Protocol) -> bool {
    p == Protocol::Bbm92 || p == Protocol::E91 || p == Protocol::Gc01
}

/// The display name under which a key-distribution protocol reports its shots.
pub open spec fn spec_qkd_label(p: Protocol) -> Option<Seq<char>> {
    match p {
        Protocol::Bb84 => Some("BB84"@),
        Protocol::B92 => Some("B92"@),
        Protocol::Bbm92 => Some("BBM92"@),
        Protocol::E91 => Some("E91"@),
        Protocol::SixState => Some("Six-State"@),
        Protocol::Sarg04 => Some("SARG04"@),
        _ => None,
    }
}

impl Protocol {
    /// Whether this protocol runs over two channels.
    pub fn uses_second_channel(&self) -> (b: bool)
        ensures
            b == spec_uses_second_channel(*self),
    {
        matches!(self, Protocol::Bbm92 | Protocol::E91 | Protocol::Gc01)
    }

    /// The display name of a key-distribution protocol; `None` for the
    /// authentication and signature protocols.
    pub fn qkd_label(&self) -> (l: Option<&'static str>)
        ensures
            l matches Some(s) ==> spec_qkd_label(*self) == Some(s@),
            l is None <==> spec_qkd_label(*self) is None,
    {
        match self {
            Protocol::Bb84 => Some("BB84"),
            Protocol::B92 => Some("B92"),
            Protocol::Bbm92 => Some("BBM92"),
            Protocol::E91 => Some("E91"),
            Protocol::SixState => Some("Six-State"),
            Protocol::Sarg04 => Some("SARG04"),
            Protocol::QiaQzkp => None,
            Protocol::Gc01 => None,
        }
    }
}

/// Every protocol is found again under its own subcommand name.
pub proof fn lemma_protocol_name_round_trip(p: Protocol)
    ensures
        protocol_named(protocol_name(p)) == Some(p),
{
    reveal_strlit("bb84");
    reveal_strlit("b92");
    reveal_strlit("bbm92");
    reveal_strlit("e91");
    reveal_strlit("six-state");
    reveal_strlit("sarg04");
    reveal_strlit("qia-qzkp");
    reveal_strlit("gc01");
    assert("bb84"@.len() == 4);
    assert("b92"@.len() == 3);
    assert("bbm92"@.len() == 5);
    assert("e91"@.len() == 3);
    assert("six-state"@.len() == 9);
    assert("sarg04"@.len() == 6);
    assert("qia-qzkp"@.len() == 8);
    assert("gc01"@.len() == 4);
    assert("bb84"@[0] != "gc01"@[0]);
    assert("b92"@[0] != "e91"@[0]);
}

// ── Choosing the protocol of an experiment configuration ─────────────────────

/// Why no protocol can be run.
#[derive(Clone, Debug)]
pub enum ProtocolError {
    /// Neither the configuration nor a subcommand names a protocol.
    MissingProtocol,
    /// The (lowercased) name denotes no protocol.
    Unknown(String),
}

/// The mathematical content of a [`ProtocolError`].
pub enum SpecProtocolError {
    MissingProtocol,
    Unknown(Seq<char>),
}

impl View for ProtocolError {
    type V = SpecProtocolError;

    open spec fn view(&self) -> SpecProtocolError {
        match self {
            ProtocolError::MissingProtocol => SpecProtocolError::MissingProtocol,
            ProtocolError::Unknown(n) => SpecProtocolError::Unknown(n@),
        }
    }
}

/// The text reported for a protocol error.
pub open spec fn protocol_error_text(e: SpecProtocolError) -> Seq<char> {
    match e {
        SpecProtocolError::MissingProtocol => "Error: 'protocol' field is required in experiment config when no subcommand is used"@,
        SpecProtocolError::Unknown(n) => "Error: unknown protocol '"@ + n + "'"@,
    }
}

impl ProtocolError {
    /// The text reported for this error.
    pub fn message(&self) -> (m: String)
        ensures
            m@ == protocol_error_text(self@),
    {
        match self {
            ProtocolError::MissingProtocol => owned(
                "Error: 'protocol' field is required in experiment config when no subcommand is used",
            ),
            ProtocolError::Unknown(n) => {
                let mut m = owned("Error: unknown protocol '");
                m.append(n.as_str());
                m.append("'");
                m
            },
        }
    }
}

/// The protocol name an experiment runs: the configuration's `protocol`
/// field, else the subcommand's name; with neither, the run is refused.
pub fn resolve_protocol_name(config_protocol: &Option<String>, subcommand: Option<Protocol>) -> (r:
    Result<String, ProtocolError>)
    ensures
        config_protocol matches Some(p) ==> (r matches Ok(n) && n@ == p@),
        config_protocol is None && subcommand is Some ==> (r matches Ok(n) && n@ == protocol_name(
            subcommand->0,
        )),
        config_protocol is None && subcommand is None ==> (r matches Err(e) && e@
            == SpecProtocolError::MissingProtocol),
{
    match config_protocol {
        Some(p) => Ok(p.clone()),
        None => match subcommand {
            Some(c) => Ok(owned(c.as_str())),
            None => Err(ProtocolError::MissingProtocol),
        },
    }
}

/// Whether to warn that the configuration names another protocol than the
/// subcommand: both are given and their lowercase forms differ.
pub fn protocol_mismatch(config_protocol: &Option<String>, subcommand: Option<Protocol>) -> (b: bool)
    ensures
        b == (config_protocol is Some && subcommand is Some && lowercase_of(
            config_protocol->0@,
        ) != lowercase_of(protocol_name(subcommand->0))),
{
    match (config_protocol, subcommand) {
        (Some(p), Some(c)) => {
            let a = lowercase(p.as_str());
            let b = lowercase(c.as_str());
            !str_equal(a.as_str(), b.as_str())
        },
        _ => false,
    }
}

/// The warning printed when the configuration and the subcommand disagree.
pub open spec fn mismatch_text(config_protocol: Seq<char>, subcommand: Protocol) -> Seq<char> {
    "Warning: experiment config protocol '"@ + config_protocol + "' does not match subcommand '"@
        + protocol_name(subcommand) + "'"@
}

/// The text of the protocol-mismatch warning.
pub fn mismatch_warning(config_protocol: &str, subcommand: Protocol) -> (m: String)
    ensures
        m@ == mismatch_text(config_protocol@, subcommand),
{
    let mut m = owned("Warning: experiment config protocol '");
    m.append(config_protocol);
    m.append("' does not match subcommand '");
    m.append(subcommand.as_str());
    m.append("'");
    m
}

/// Whether the arguments given with `subcommand` apply to a run of
/// `protocol`: only when the subcommand names that very protocol; otherwise
/// the run takes the defaults of its protocol.
pub fn subcommand_applies(protocol: Protocol, subcommand: Option<Protocol>) -> (b: bool)
    ensures
        b == (subcommand == Some(protocol)),
{
    match subcommand {
        Some(c) => c == protocol,
        None => false,
    }
}

/// The outcome of selecting a protocol by the name `name`: the protocol its
/// lowercase form denotes, else a refusal naming that lowercase form.
pub open spec fn selected_protocol(name: Seq<char>) -> Result<Protocol, SpecProtocolError> {
    match protocol_named(lowercase_of(name)) {
        Some(p) => Ok(p),
        None => Err(SpecProtocolError::Unknown(lowercase_of(name))),
    }
}

/// The outcome of selecting a protocol by an ASCII name: the protocol its
/// ASCII lowercase form denotes, else a refusal naming that form.
pub open spec fn ascii_selected_protocol(name: Seq<char>) -> Result<Protocol, SpecProtocolError> {
    match protocol_named(ascii_lowercase(name)) {
        Some(p) => Ok(p),
        None => Err(SpecProtocolError::Unknown(ascii_lowercase(name))),
    }
}

/// The mathematical content of a selection's result.
pub open spec fn selection_view(r: Result<Protocol, ProtocolError>) -> Result<Protocol, SpecProtocolError> {
    match r {
        Ok(p) => Ok(p),
        Err(e) => Err(e@),
    }
}

/// The protocol to run for the name `name`, compared in lowercase; an
/// unknown name is refused with its lowercase form.
pub fn select_protocol(name: &str) -> (r: Result<Protocol, ProtocolError>)
    ensures
        selection_view(r) == selected_protocol(name@),
        is_ascii_text(name@) ==> selection_view(r) == ascii_selected_protocol(name@),
        protocol_named(lowercase_of(name@)) matches Some(p) ==> r == Ok::<
            Protocol,
            ProtocolError,
        >(p),
        protocol_named(lowercase_of(name@)) is None ==> (r matches Err(e) && e@
            == SpecProtocolError::Unknown(lowercase_of(name@))),
{
    let lower = lowercase(name);
    match Protocol::from_lowercase_name(lower.as_str()) {
        Some(p) => Ok(p),
        None => Err(ProtocolError::Unknown(lower)),
    }
}

/// Protocol names are matched without regard to case: two names with the
/// same lowercase form select the same protocol, or are refused alike.
pub proof fn lemma_selection_ignores_case(a: Seq<char>, b: Seq<char>)
    requires
        lowercase_of(a) == lowercase_of(b),
    ensures
        selected_protocol(a) == selected_protocol(b),
{
}

/// An ASCII protocol name and its lowercase form select the same protocol,
/// or are refused alike: the lowercase form is ASCII again, and lowercasing
/// it changes nothing.
pub proof fn lemma_lowercased_name_selects_alike(name: Seq<char>)
    requires
        is_ascii_text(name),
    ensures
        is_ascii_text(ascii_lowercase(name)),
        ascii_lowercase(ascii_lowercase(name)) == ascii_lowercase(name),
        ascii_selected_protocol(ascii_lowercase(name)) == ascii_selected_protocol(name),
{
    let low = ascii_lowercase(name);
    assert forall|i: int| 0 <= i < low.len() implies (low[i] as u32) < 128 && ascii_lower_char(
        low[i],
    ) == low[i] by {
        let c = name[i];
        assert((c as u32) < 128);
    }
    assert(ascii_lowercase(low) =~= low);
}

} // verus!
