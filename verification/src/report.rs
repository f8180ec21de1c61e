use vstd::prelude::*;

use crate::output::{sift_label, raw_label, spec_raw_label, spec_sift_label};
use crate::run::{AuthRun, QdsRun, QkdRun};
use crate::text::{decimal, decimal_text, owned};

verus! {

// ── Small building blocks ─────────────────────────────────────────────────────

/// The three texts one after the other.
fn text3(a: &str, b: &str, c: &str) -> (s: String)
    ensures
        s@ == a@ + b@ + c@,
{
    let mut s = owned(a);
    s.append(b);
    s.append(c);
    s
}

/// A report line: its label, its value and a line break.
pub open spec fn spec_field(label: Seq<char>, value: Seq<char>) -> Seq<char> {
    label + value + "\n"@
}

/// A report line made of a label and a count.
pub open spec fn spec_count_field(label: Seq<char>, n: nat, unit: Seq<char>) -> Seq<char> {
    label + decimal_text(n) + unit + "\n"@
}

fn count_field(label: &str, n: usize, unit: &str) -> (s: String)
    ensures
        s@ == spec_count_field(label@, n as nat, unit@),
{
    let mut s = owned(label);
    s.append(decimal(n as u128).as_str());
    s.append(unit);
    s.append("\n");
    s
}

/// A count with its rendered percentage: "n (pct%)".
pub open spec fn spec_count_pct(n: nat, pct: Seq<char>) -> Seq<char> {
    decimal_text(n) + " ("@ + pct + "%)"@
}

/// "n/total (pct%)".
pub open spec fn spec_ratio(n: nat, total: nat, pct: Seq<char>) -> Seq<char> {
    decimal_text(n) + "/"@ + decimal_text(total) + " ("@ + pct + "%)"@
}

fn ratio(n: usize, total: usize, pct: &str) -> (s: String)
    ensures
        s@ == spec_ratio(n as nat, total as nat, pct@),
{
    let mut s = decimal(n as u128);
    s.append("/");
    s.append(decimal(total as u128).as_str());
    s.append(" (");
    s.append(pct);
    s.append("%)");
    s
}

/// "mean ± std".
pub open spec fn spec_spread(mean: Seq<char>, std: Seq<char>) -> Seq<char> {
    mean + " ± "@ + std
}

fn spread(mean: &str, std: &str) -> (s: String)
    ensures
        s@ == spec_spread(mean@, std@),
{
    text3(mean, " ± ", std)
}

/// The header of a shot's block in a multi-shot report (shots count from 1).
pub open spec fn spec_shot_header(shot: usize) -> Seq<char> {
    "── Shot "@ + decimal_text((shot + 1) as nat) + " ──────────────────────────────────\n"@
}

/// The header of a shot's block in a multi-shot report.
pub fn shot_header(shot: usize) -> (s: String)
    ensures
        s@ == spec_shot_header(shot),
{
    let mut s = owned("── Shot ");
    s.append(decimal(shot as u128 + 1).as_str());
    s.append(" ──────────────────────────────────\n");
    s
}

/// The header when the report covers several shots, nothing otherwise.
pub open spec fn spec_header_if(shot: usize, shots: usize) -> Seq<char> {
    if shots > 1 {
        spec_shot_header(shot)
    } else {
        Seq::empty()
    }
}

fn header_if(shot: usize, shots: usize) -> (s: String)
    ensures
        s@ == spec_header_if(shot, shots),
{
    if shots > 1 {
        shot_header(shot)
    } else {
        String::new()
    }
}

/// The characters of an optional text.
pub open spec fn opt_text(t: Option<String>) -> Option<Seq<char>> {
    match t {
        Some(x) => Some(x@),
        None => None,
    }
}

/// The line describing a channel: its type and `p`, and the second noise
/// parameter `q`, labelled `p2`, when it is shown (the caller shows it when
/// it is not zero).
pub open spec fn spec_channel_line(
    label: Seq<char>,
    channel_type: Seq<char>,
    p: Seq<char>,
    q: Option<Seq<char>>,
) -> Seq<char> {
    label + ": "@ + channel_type + " (p="@ + p + match q {
        Some(x) => ", p2="@ + x,
        None => Seq::empty(),
    } + ")\n"@
}

/// The line describing a channel.
pub fn channel_line(label: &str, channel_type: &str, p: &str, q: &Option<String>) -> (s: String)
    ensures
        s@ == spec_channel_line(label@, channel_type@, p@, opt_text(*q)),
{
    let mut s = owned(label);
    s.append(": ");
    s.append(channel_type);
    s.append(" (p=");
    s.append(p);
    let tail = match q {
        Some(x) => text3(", p2=", x.as_str(), ""),
        None => String::new(),
    };
    proof {
        reveal_strlit("");
        if q is Some {
            assert(tail@ =~= ", p2="@ + q->0@);
        }
    }
    s.append(tail.as_str());
    s.append(")\n");
    s
}

/// A line shown only when `present`.
pub open spec fn spec_line_if(present: bool, line: Seq<char>) -> Seq<char> {
    if present {
        line
    } else {
        Seq::empty()
    }
}

/// The line showing a hexadecimal rendering, when there is one.
pub open spec fn spec_hex_line(label: Seq<char>, h: Option<String>) -> Seq<char> {
    match h {
        Some(x) => spec_field(label, x@),
        None => Seq::empty(),
    }
}

fn hex_line(label: &str, h: &Option<String>) -> (s: String)
    ensures
        s@ == spec_hex_line(label@, *h),
{
    match h {
        Some(x) => text3(label, x.as_str(), "\n"),
        None => String::new(),
    }
}

// ── The report of one shot ────────────────────────────────────────────────────

/// The real-valued figures of a key-distribution shot, rendered by the caller.
#[derive(Clone, Debug, Default)]
pub struct QkdShotTexts {
    /// The channel's `p`.
    pub p: String,
    /// The channel's `q`, when it is shown (not zero).
    pub q: Option<String>,
    /// The sift rate in percent, one decimal.
    pub sift_pct: String,
    /// The QBER, four decimals.
    pub qber: String,
    /// The QBER in percent, two decimals.
    pub qber_pct: String,
    /// The CHSH value, four decimals.
    pub chsh: String,
    /// Whether the CHSH value exceeds 2 in absolute value.
    pub bell_violated: bool,
}

/// The verdict on a Bell test.
pub open spec fn spec_bell_verdict(violated: bool) -> Seq<char> {
    if violated {
        "✓ Bell violated (secure)"@
    } else {
        "✗ NOT violated (insecure!)"@
    }
}

/// The QBER line: the estimate and its percentage, or "N/A" without check bits.
pub open spec fn spec_qber_line(available: bool, qber: Seq<char>, qber_pct: Seq<char>) -> Seq<char> {
    if available {
        "QBER           : "@ + qber + " ("@ + qber_pct + "%)\n"@
    } else {
        "QBER           : N/A (no check bits)\n"@
    }
}

/// The CHSH line, for shots with a Bell test.
pub open spec fn spec_chsh_line(present: bool, chsh: Seq<char>, violated: bool) -> Seq<char> {
    spec_line_if(present, "CHSH S-value   : "@ + chsh + "  "@ + spec_bell_verdict(violated) + "\n"@)
}

/// Whether the keys match, in words.
pub open spec fn spec_match_words(keys_match: bool) -> Seq<char> {
    if keys_match {
        "yes"@
    } else {
        "no (noise or Eve)"@
    }
}

/// The report of a key-distribution shot.
pub open spec fn spec_qkd_report<N>(r: QkdRun<N>, shots: usize, t: QkdShotTexts) -> Seq<char> {
    spec_header_if(r.shot, shots) + spec_field("Protocol       : "@, r.protocol@)
        + spec_channel_line("Channel        "@, r.channel.channel_type@, t.p@, opt_text(t.q))
        + spec_count_field(spec_raw_label(r.protocol@) + "    : "@, r.raw_length as nat, ""@)
        + spec_field(
        spec_sift_label(r.protocol@) + "    : "@,
        spec_count_pct(r.sifted as nat, t.sift_pct@),
    ) + spec_count_field("Check errors   : "@, r.check_errors as nat, ""@) + spec_qber_line(
        r.qber_available,
        t.qber@,
        t.qber_pct@,
    ) + spec_chsh_line(r.chsh_value is Some, t.chsh@, t.bell_violated) + spec_count_field(
        "Eve intercepts : "@,
        r.eve_count as nat,
        ""@,
    ) + spec_count_field("Key length     : "@, r.key_length as nat, " bits"@) + spec_field(
        "Keys match     : "@,
        spec_match_words(r.keys_match),
    ) + spec_hex_line("Alice key (hex): "@, r.alice_key_hex) + spec_hex_line(
        "Bob key (hex)  : "@,
        r.bob_key_hex,
    )
}

/// The terminal / text-file report of a key-distribution shot; `shots` is
/// the number of shots of the run (a header precedes each shot's block when
/// there are several).
pub fn qkd_report<N>(r: &QkdRun<N>, shots: usize, t: &QkdShotTexts) -> (s: String)
    ensures
        s@ == spec_qkd_report(*r, shots, *t),
{
    let mut s = header_if(r.shot, shots);
    s.append(text3("Protocol       : ", r.protocol, "\n").as_str());
    s.append(
        channel_line("Channel        ", r.channel.channel_type.as_str(), t.p.as_str(), &t.q).as_str(),
    );
    let raw_lbl = text3(raw_label(r.protocol), "    : ", "");
    s.append(count_field(raw_lbl.as_str(), r.raw_length, "").as_str());
    let sift_lbl = text3(sift_label(r.protocol), "    : ", "");
    let mut sifted = decimal(r.sifted as u128);
    sifted.append(" (");
    sifted.append(t.sift_pct.as_str());
    sifted.append("%)");
    s.append(text3(sift_lbl.as_str(), sifted.as_str(), "\n").as_str());
    s.append(count_field("Check errors   : ", r.check_errors, "").as_str());
    let qber_line = if r.qber_available {
        let mut l = text3("QBER           : ", t.qber.as_str(), " (");
        l.append(t.qber_pct.as_str());
        l.append("%)\n");
        l
    } else {
        owned("QBER           : N/A (no check bits)\n")
    };
    s.append(qber_line.as_str());
    let chsh_line = if r.chsh_value.is_some() {
        let verdict = if t.bell_violated {
            "✓ Bell violated (secure)"
        } else {
            "✗ NOT violated (insecure!)"
        };
        let mut l = text3("CHSH S-value   : ", t.chsh.as_str(), "  ");
        l.append(verdict);
        l.append("\n");
        l
    } else {
        String::new()
    };
    s.append(chsh_line.as_str());
    s.append(count_field("Eve intercepts : ", r.eve_count, "").as_str());
    s.append(count_field("Key length     : ", r.key_length, " bits").as_str());
    let words = if r.keys_match {
        "yes"
    } else {
        "no (noise or Eve)"
    };
    s.append(text3("Keys match     : ", words, "\n").as_str());
    s.append(hex_line("Alice key (hex): ", &r.alice_key_hex).as_str());
    s.append(hex_line("Bob key (hex)  : ", &r.bob_key_hex).as_str());
    proof {
        reveal_strlit("");
        assert(raw_lbl@ =~= spec_raw_label(r.protocol@) + "    : "@);
        assert(sift_lbl@ =~= spec_sift_label(r.protocol@) + "    : "@);
    }
    s
}

/// The real-valued figures of an authentication shot, rendered by the caller.
#[derive(Clone, Debug, Default)]
pub struct AuthShotTexts {
    /// The channel's `p`.
    pub p: String,
    /// The channel's `q`, when it is shown (not zero).
    pub q: Option<String>,
    /// The accuracy, four decimals.
    pub accuracy: String,
    /// The accuracy in percent, two decimals.
    pub accuracy_pct: String,
}

/// Whether the prover was authenticated, in words.
pub open spec fn spec_auth_words(authenticated: bool) -> Seq<char> {
    if authenticated {
        "YES"@
    } else {
        "NO (rejected)"@
    }
}

/// The report of an authentication shot.
pub open spec fn spec_auth_report<N>(r: AuthRun<N>, shots: usize, t: AuthShotTexts) -> Seq<char> {
    spec_header_if(r.shot, shots) + "Protocol       : QIA-QZKP\n"@ + spec_channel_line(
        "Channel        "@,
        r.channel.channel_type@,
        t.p@,
        opt_text(t.q),
    ) + spec_count_field("Rounds         : "@, r.total_qubits as nat, ""@) + spec_field(
        "Matches        : "@,
        decimal_text(r.matches as nat) + " / "@ + decimal_text(r.total_qubits as nat),
    ) + spec_field("Accuracy       : "@, t.accuracy@ + " ("@ + t.accuracy_pct@ + "%)"@)
        + spec_field("Authenticated  : "@, spec_auth_words(r.authenticated)) + spec_hex_line(
        "Alice id 'a'   : "@,
        r.alice_id_hex,
    ) + spec_hex_line("Alice commit'b': "@, r.alice_commitment_hex) + spec_hex_line(
        "Bob challenge  : "@,
        r.bob_challenge_hex,
    ) + spec_hex_line("Bob recovered  : "@, r.bob_recovered_hex)
}

/// The terminal / text-file report of an authentication shot.
pub fn auth_report<N>(r: &AuthRun<N>, shots: usize, t: &AuthShotTexts) -> (s: String)
    ensures
        s@ == spec_auth_report(*r, shots, *t),
{
    let mut s = header_if(r.shot, shots);
    s.append("Protocol       : QIA-QZKP\n");
    s.append(
        channel_line("Channel        ", r.channel.channel_type.as_str(), t.p.as_str(), &t.q).as_str(),
    );
    s.append(count_field("Rounds         : ", r.total_qubits, "").as_str());
    let mut matches = decimal(r.matches as u128);
    matches.append(" / ");
    matches.append(decimal(r.total_qubits as u128).as_str());
    s.append(text3("Matches        : ", matches.as_str(), "\n").as_str());
    let mut acc = text3(t.accuracy.as_str(), " (", t.accuracy_pct.as_str());
    acc.append("%)");
    s.append(text3("Accuracy       : ", acc.as_str(), "\n").as_str());
    let words = if r.authenticated {
        "YES"
    } else {
        "NO (rejected)"
    };
    s.append(text3("Authenticated  : ", words, "\n").as_str());
    s.append(hex_line("Alice id 'a'   : ", &r.alice_id_hex).as_str());
    s.append(hex_line("Alice commit'b': ", &r.alice_commitment_hex).as_str());
    s.append(hex_line("Bob challenge  : ", &r.bob_challenge_hex).as_str());
    s.append(hex_line("Bob recovered  : ", &r.bob_recovered_hex).as_str());
    proof {
        reveal_strlit("");
    }
    s
}

/// The real-valued figures of a signature shot, rendered by the caller.
#[derive(Clone, Debug, Default)]
pub struct QdsShotTexts {
    pub bob_p: String,
    pub bob_q: Option<String>,
    pub charlie_p: String,
    pub charlie_q: Option<String>,
    /// Bob's mismatch rate, four decimals.
    pub bob_rate: String,
    /// Charlie's mismatch rate, four decimals.
    pub charlie_rate: String,
}

/// The report of a signature shot.
pub open spec fn spec_qds_report<N>(r: QdsRun<N>, shots: usize, t: QdsShotTexts) -> Seq<char> {
    spec_header_if(r.shot, shots) + "Protocol       : GC01 (QDS)\n"@ + spec_channel_line(
        "Channel Bob    "@,
        r.channel_bob.channel_type@,
        t.bob_p@,
        opt_text(t.bob_q),
    ) + spec_channel_line(
        "Channel Charlie"@,
        r.channel_charlie.channel_type@,
        t.charlie_p@,
        opt_text(t.charlie_q),
    ) + spec_count_field("Key length     : "@, r.num_qubits as nat, " qubits"@) + spec_field(
        "Message bit    : "@,
        if r.message {
            "1"@
        } else {
            "0"@
        },
    ) + spec_field(
        "Bob mismatch   : "@,
        decimal_text(r.bob_mismatches as nat) + " ("@ + t.bob_rate@ + ")"@,
    ) + spec_field(
        "Charlie mism.  : "@,
        decimal_text(r.charlie_mismatches as nat) + " ("@ + t.charlie_rate@ + ")"@,
    ) + spec_field(
        "Signature      : "@,
        if r.signature_accepted {
            "ACCEPTED"@
        } else {
            "REJECTED"@
        },
    ) + spec_count_field("Eve intercepts : "@, r.eve_intercepted_count as nat, ""@)
}

/// A count followed by a rendered rate in parentheses.
fn count_rate(n: usize, rate: &str) -> (s: String)
    ensures
        s@ == decimal_text(n as nat) + " ("@ + rate@ + ")"@,
{
    let mut s = decimal(n as u128);
    s.append(" (");
    s.append(rate);
    s.append(")");
    s
}

/// The terminal / text-file report of a signature shot.
pub fn qds_report<N>(r: &QdsRun<N>, shots: usize, t: &QdsShotTexts) -> (s: String)
    ensures
        s@ == spec_qds_report(*r, shots, *t),
{
    let mut s = header_if(r.shot, shots);
    s.append("Protocol       : GC01 (QDS)\n");
    s.append(
        channel_line(
            "Channel Bob    ",
            r.channel_bob.channel_type.as_str(),
            t.bob_p.as_str(),
            &t.bob_q,
        ).as_str(),
    );
    s.append(
        channel_line(
            "Channel Charlie",
            r.channel_charlie.channel_type.as_str(),
            t.charlie_p.as_str(),
            &t.charlie_q,
        ).as_str(),
    );
    s.append(count_field("Key length     : ", r.num_qubits, " qubits").as_str());
    let bit = if r.message {
        "1"
    } else {
        "0"
    };
    s.append(text3("Message bit    : ", bit, "\n").as_str());
    s.append(
        text3(
            "Bob mismatch   : ",
            count_rate(r.bob_mismatches, t.bob_rate.as_str()).as_str(),
            "\n",
        ).as_str(),
    );
    s.append(
        text3(
            "Charlie mism.  : ",
            count_rate(r.charlie_mismatches, t.charlie_rate.as_str()).as_str(),
            "\n",
        ).as_str(),
    );
    let verdict = if r.signature_accepted {
        "ACCEPTED"
    } else {
        "REJECTED"
    };
    s.append(text3("Signature      : ", verdict, "\n").as_str());
    s.append(count_field("Eve intercepts : ", r.eve_intercepted_count, "").as_str());
    s
}

// ── The aggregate report ──────────────────────────────────────────────────────

/// The banner that opens the aggregate report of `shots` shots.
pub open spec fn spec_banner(shots: usize) -> Seq<char> {
    "\n═══════════════ Aggregate ("@ + decimal_text(shots as nat) + " shots) ═══════════════\n"@
}

fn banner(shots: usize) -> (s: String)
    ensures
        s@ == spec_banner(shots),
{
    let mut s = owned("\n═══════════════ Aggregate (");
    s.append(decimal(shots as u128).as_str());
    s.append(" shots) ═══════════════\n");
    s
}

/// The Bell-test figures of an aggregate, rendered by the caller.
#[derive(Clone, Debug, Default)]
pub struct ChshTexts {
    /// Mean CHSH value, four decimals.
    pub mean: String,
    /// Standard deviation of the CHSH values, four decimals.
    pub std: String,
    /// Number of shots whose CHSH value exceeds 2 in absolute value.
    pub violations: usize,
    /// `violations` in percent of the shots, one decimal.
    pub violation_pct: String,
}

/// The real-valued figures of a key-distribution aggregate, rendered by the caller.
#[derive(Clone, Debug, Default)]
pub struct QkdAggregateTexts {
    pub mean_qber: String,
    pub std_qber: String,
    pub mean_key: String,
    pub std_key: String,
    /// Matching keys in percent of the shots, one decimal.
    pub match_pct: String,
    /// The Bell-test figures, when some shot has a CHSH value.
    pub chsh: Option<ChshTexts>,
}

/// The Bell-test lines of an aggregate.
pub open spec fn spec_chsh_lines(shots: usize, c: Option<ChshTexts>) -> Seq<char> {
    match c {
        Some(c) => spec_field("CHSH S-value   : "@, spec_spread(c.mean@, c.std@)) + spec_field(
            "Bell violated  : "@,
            spec_ratio(c.violations as nat, shots as nat, c.violation_pct@),
        ),
        None => Seq::empty(),
    }
}

/// The aggregate report of key-distribution shots.
pub open spec fn spec_qkd_aggregate_report(
    protocol: Seq<char>,
    shots: usize,
    match_count: usize,
    t: QkdAggregateTexts,
) -> Seq<char> {
    spec_banner(shots) + spec_field("Protocol       : "@, protocol) + spec_field(
        "QBER           : "@,
        spec_spread(t.mean_qber@, t.std_qber@),
    ) + spec_field("Key length     : "@, spec_spread(t.mean_key@, t.std_key@) + " bits"@)
        + spec_field(
        "Keys match     : "@,
        spec_ratio(match_count as nat, shots as nat, t.match_pct@),
    ) + spec_chsh_lines(shots, t.chsh)
}

/// The aggregate report of key-distribution shots.
pub fn qkd_aggregate_report(
    protocol: &str,
    shots: usize,
    match_count: usize,
    t: &QkdAggregateTexts,
) -> (s: String)
    ensures
        s@ == spec_qkd_aggregate_report(protocol@, shots, match_count, *t),
{
    let mut s = banner(shots);
    s.append(text3("Protocol       : ", protocol, "\n").as_str());
    s.append(
        text3(
            "QBER           : ",
            spread(t.mean_qber.as_str(), t.std_qber.as_str()).as_str(),
            "\n",
        ).as_str(),
    );
    let mut key = spread(t.mean_key.as_str(), t.std_key.as_str());
    key.append(" bits");
    s.append(text3("Key length     : ", key.as_str(), "\n").as_str());
    s.append(
        text3(
            "Keys match     : ",
            ratio(match_count, shots, t.match_pct.as_str()).as_str(),
            "\n",
        ).as_str(),
    );
    let chsh = match &t.chsh {
        Some(c) => {
            let mut l = text3(
                "CHSH S-value   : ",
                spread(c.mean.as_str(), c.std.as_str()).as_str(),
                "\n",
            );
            l.append(
                text3(
                    "Bell violated  : ",
                    ratio(c.violations, shots, c.violation_pct.as_str()).as_str(),
                    "\n",
                ).as_str(),
            );
            l
        },
        None => String::new(),
    };
    s.append(chsh.as_str());
    s
}

/// The real-valued figures of an authentication aggregate, rendered by the caller.
#[derive(Clone, Debug, Default)]
pub struct AuthAggregateTexts {
    pub mean_accuracy: String,
    pub std_accuracy: String,
    /// Authenticated shots in percent of the shots, one decimal.
    pub auth_pct: String,
}

/// The aggregate report of authentication shots.
pub open spec fn spec_auth_aggregate_report(
    shots: usize,
    auth_count: usize,
    t: AuthAggregateTexts,
) -> Seq<char> {
    spec_banner(shots) + "Protocol       : QIA-QZKP\n"@ + spec_field(
        "Accuracy       : "@,
        spec_spread(t.mean_accuracy@, t.std_accuracy@),
    ) + spec_field("Auth rate      : "@, spec_ratio(auth_count as nat, shots as nat, t.auth_pct@))
}

/// The aggregate report of authentication shots.
pub fn auth_aggregate_report(shots: usize, auth_count: usize, t: &AuthAggregateTexts) -> (s:
    String)
    ensures
        s@ == spec_auth_aggregate_report(shots, auth_count, *t),
{
    let mut s = banner(shots);
    s.append("Protocol       : QIA-QZKP\n");
    s.append(
        text3(
            "Accuracy       : ",
            spread(t.mean_accuracy.as_str(), t.std_accuracy.as_str()).as_str(),
            "\n",
        ).as_str(),
    );
    s.append(
        text3(
            "Auth rate      : ",
            ratio(auth_count, shots, t.auth_pct.as_str()).as_str(),
            "\n",
        ).as_str(),
    );
    s
}

/// The real-valued figures of a signature aggregate, rendered by the caller.
#[derive(Clone, Debug, Default)]
pub struct QdsAggregateTexts {
    pub mean_bob_rate: String,
    pub std_bob_rate: String,
    pub mean_charlie_rate: String,
    pub std_charlie_rate: String,
    /// Accepted signatures in percent of the shots, one decimal.
    pub accept_pct: String,
    /// Mean number of interceptions, one decimal.
    pub mean_eve: String,
}

/// The aggregate report of signature shots.
pub open spec fn spec_qds_aggregate_report(
    shots: usize,
    accept_count: usize,
    t: QdsAggregateTexts,
) -> Seq<char> {
    spec_banner(shots) + "Protocol       : GC01 (QDS)\n"@ + spec_field(
        "Bob mismatch   : "@,
        spec_spread(t.mean_bob_rate@, t.std_bob_rate@),
    ) + spec_field("Charlie mism.  : "@, spec_spread(t.mean_charlie_rate@, t.std_charlie_rate@))
        + spec_field(
        "Sig. accepted  : "@,
        spec_ratio(accept_count as nat, shots as nat, t.accept_pct@),
    ) + spec_field("Eve intercepts : "@, t.mean_eve@ + " avg"@)
}

/// The aggregate report of signature shots.
pub fn qds_aggregate_report(shots: usize, accept_count: usize, t: &QdsAggregateTexts) -> (s:
    String)
    ensures
        s@ == spec_qds_aggregate_report(shots, accept_count, *t),
{
    let mut s = banner(shots);
    s.append("Protocol       : GC01 (QDS)\n");
    s.append(
        text3(
            "Bob mismatch   : ",
            spread(t.mean_bob_rate.as_str(), t.std_bob_rate.as_str()).as_str(),
            "\n",
        ).as_str(),
    );
    s.append(
        text3(
            "Charlie mism.  : ",
            spread(t.mean_charlie_rate.as_str(), t.std_charlie_rate.as_str()).as_str(),
            "\n",
        ).as_str(),
    );
    s.append(
        text3(
            "Sig. accepted  : ",
            ratio(accept_count, shots, t.accept_pct.as_str()).as_str(),
            "\n",
        ).as_str(),
    );
    let eve = text3(t.mean_eve.as_str(), " avg", "");
    proof {
        reveal_strlit("");
        assert(eve@ =~= t.mean_eve@ + " avg"@);
    }
    s.append(text3("Eve intercepts : ", eve.as_str(), "\n").as_str());
    s
}

// ── The text output file ──────────────────────────────────────────────────────

/// The shots' reports, each followed by an empty line.
pub open spec fn blocks_text(blocks: Seq<Seq<char>>) -> Seq<char>
    decreases blocks.len(),
{
    if blocks.len() == 0 {
        Seq::empty()
    } else {
        blocks_text(blocks.drop_last()) + blocks.last() + "\n"@
    }
}

/// The text output file: the report of every shot, each followed by an
/// empty line, then the aggregate report.
pub open spec fn spec_text_file(blocks: Seq<Seq<char>>, aggregate: Seq<char>) -> Seq<char> {
    blocks_text(blocks) + aggregate
}

/// Assembles the text output file from the reports of the shots (one per
/// shot) and the aggregate report.
pub fn text_file(blocks: &Vec<String>, aggregate: &str) -> (s: String)
    ensures
        s@ == spec_text_file(blocks@.map_values(|b: String| b@), aggregate@),
{
    let ghost views = blocks@.map_values(|b: String| b@);
    let mut s = String::new();
    let mut i: usize = 0;
    while i < blocks.len()
        invariant
            i <= blocks@.len(),
            views == blocks@.map_values(|b: String| b@),
            s@ == blocks_text(views.take(i as int)),
        decreases blocks@.len() - i,
    {
        proof {
            assert(views.take((i + 1) as int).drop_last() =~= views.take(i as int));
            assert(views.take((i + 1) as int).last() == blocks@[i as int]@);
        }
        s.append(blocks[i].as_str());
        s.append("\n");
        i = i + 1;
    }
    assert(views.take(blocks@.len() as int) =~= views);
    s.append(aggregate);
    s
}


// ── The terminal ──────────────────────────────────────────────────────────────

/// What a run prints on the terminal: the report of its only shot, or the
/// aggregate report of its shots followed, when keys are shown, by a note
/// that they went to the output file.
pub open spec fn spec_terminal_text(
    shots: usize,
    detail: bool,
    shot_report: Seq<char>,
    aggregate: Seq<char>,
) -> Seq<char> {
    if shots == 1 {
        shot_report
    } else if detail {
        aggregate + "  (per-run detail + keys written to output file)\n"@
    } else {
        aggregate
    }
}

/// The terminal output of a run of `shots` shots, from the report of its
/// first shot and its aggregate report.
pub fn terminal_text(shots: usize, detail: bool, shot_report: &str, aggregate: &str) -> (s: String)
    ensures
        s@ == spec_terminal_text(shots, detail, shot_report@, aggregate@),
{
    if shots == 1 {
        owned(shot_report)
    } else if detail {
        let mut s = owned(aggregate);
        s.append("  (per-run detail + keys written to output file)\n");
        s
    } else {
        owned(aggregate)
    }
}


// ── What the aggregate reports say ────────────────────────────────────────────

/// Whether `part` occurs in `text`.
#[verifier::opaque]
pub open spec fn contains_text(text: Seq<char>, part: Seq<char>) -> bool {
    exists|i: int|
        0 <= i && i + part.len() <= text.len() && #[trigger] text.subrange(i, i + part.len()) == part
}

proof fn lemma_contains_prefix(x: Seq<char>, y: Seq<char>)
    ensures
        contains_text(x + y, x),
{
    reveal(contains_text);
    let i: int = 0;
    assert((x + y).subrange(i, i + x.len()) =~= x);
}

proof fn lemma_contains_suffix(x: Seq<char>, y: Seq<char>)
    ensures
        contains_text(x + y, y),
{
    reveal(contains_text);
    let i: int = x.len() as int;
    assert((x + y).subrange(i, i + y.len()) =~= y);
}

proof fn lemma_contains_trans(a: Seq<char>, b: Seq<char>, c: Seq<char>)
    requires
        contains_text(a, b),
        contains_text(b, c),
    ensures
        contains_text(a, c),
{
    reveal(contains_text);
    let i = choose|i: int|
        0 <= i && i + b.len() <= a.len() && #[trigger] a.subrange(i, i + b.len()) == b;
    let j = choose|j: int|
        0 <= j && j + c.len() <= b.len() && #[trigger] b.subrange(j, j + c.len()) == c;
    let k = i + j;
    assert(a.subrange(k, k + c.len()) =~= c);
}

/// The aggregate report of key-distribution shots opens with its banner
/// and shows, each on a line of its own, the protocol, the QBER as its mean
/// then its standard deviation, the key length likewise (in bits), the
/// number of shots with matching keys out of all shots with its percentage,
/// and, when given, the CHSH figures and the Bell violations out of all
/// shots.
pub proof fn lemma_qkd_aggregate_lines(
    protocol: Seq<char>,
    shots: usize,
    match_count: usize,
    t: QkdAggregateTexts,
)
    ensures
        ({
            let r = spec_qkd_aggregate_report(protocol, shots, match_count, t);
            &&& r.subrange(0, spec_banner(shots).len() as int) == spec_banner(shots)
            &&& contains_text(r, "Protocol       : "@ + protocol + "\n"@)
            &&& contains_text(
                r,
                "QBER           : "@ + (t.mean_qber@ + " ± "@ + t.std_qber@) + "\n"@,
            )
            &&& contains_text(
                r,
                "Key length     : "@ + (t.mean_key@ + " ± "@ + t.std_key@ + " bits"@) + "\n"@,
            )
            &&& contains_text(
                r,
                "Keys match     : "@ + (decimal_text(match_count as nat) + "/"@ + decimal_text(
                    shots as nat,
                ) + " ("@ + t.match_pct@ + "%)"@) + "\n"@,
            )
            &&& t.chsh matches Some(c) ==> {
                &&& contains_text(r, "CHSH S-value   : "@ + (c.mean@ + " ± "@ + c.std@) + "\n"@)
                &&& contains_text(
                    r,
                    "Bell violated  : "@ + (decimal_text(c.violations as nat) + "/"@
                        + decimal_text(shots as nat) + " ("@ + c.violation_pct@ + "%)"@) + "\n"@,
                )
            }
        }),
{
    let b = spec_banner(shots);
    let l0 = spec_field("Protocol       : "@, protocol);
    let l1 = spec_field("QBER           : "@, spec_spread(t.mean_qber@, t.std_qber@));
    let l2 = spec_field("Key length     : "@, spec_spread(t.mean_key@, t.std_key@) + " bits"@);
    let l3 = spec_field(
        "Keys match     : "@,
        spec_ratio(match_count as nat, shots as nat, t.match_pct@),
    );
    let ch = spec_chsh_lines(shots, t.chsh);
    let r = spec_qkd_aggregate_report(protocol, shots, match_count, t);
    let x0 = b + l0;
    let x1 = x0 + l1;
    let x2 = x1 + l2;
    let x3 = x2 + l3;
    assert(r == x3 + ch);
    lemma_contains_prefix(x3, ch);
    lemma_contains_prefix(x2, l3);
    lemma_contains_prefix(x1, l2);
    lemma_contains_prefix(x0, l1);
    lemma_contains_prefix(b, l0);
    lemma_contains_trans(r, x3, x2);
    lemma_contains_trans(r, x2, x1);
    lemma_contains_trans(r, x1, x0);
    lemma_contains_suffix(b, l0);
    lemma_contains_trans(r, x0, l0);
    lemma_contains_suffix(x0, l1);
    lemma_contains_trans(r, x1, l1);
    lemma_contains_suffix(x1, l2);
    lemma_contains_trans(r, x2, l2);
    lemma_contains_suffix(x2, l3);
    lemma_contains_trans(r, x3, l3);
    assert(r.subrange(0, b.len() as int) =~= b) by {
        assert(r =~= b + (l0 + l1 + l2 + l3 + ch));
    }
    if let Some(c) = t.chsh {
        let c0 = spec_field("CHSH S-value   : "@, spec_spread(c.mean@, c.std@));
        let c1 = spec_field(
            "Bell violated  : "@,
            spec_ratio(c.violations as nat, shots as nat, c.violation_pct@),
        );
        assert(ch == c0 + c1);
        lemma_contains_suffix(x3, ch);
        lemma_contains_prefix(c0, c1);
        lemma_contains_suffix(c0, c1);
        lemma_contains_trans(r, ch, c0);
        lemma_contains_trans(r, ch, c1);
    }
}


/// The aggregate report of authentication shots opens with its banner and
/// shows, each on a line of its own, the protocol, the accuracy as its mean
/// then its standard deviation, and the authenticated shots out of all
/// shots with their percentage.
pub proof fn lemma_auth_aggregate_lines(shots: usize, auth_count: usize, t: AuthAggregateTexts)
    ensures
        ({
            let r = spec_auth_aggregate_report(shots, auth_count, t);
            &&& r.subrange(0, spec_banner(shots).len() as int) == spec_banner(shots)
            &&& contains_text(r, "Protocol       : QIA-QZKP\n"@)
            &&& contains_text(
                r,
                "Accuracy       : "@ + (t.mean_accuracy@ + " ± "@ + t.std_accuracy@) + "\n"@,
            )
            &&& contains_text(
                r,
                "Auth rate      : "@ + (decimal_text(auth_count as nat) + "/"@ + decimal_text(
                    shots as nat,
                ) + " ("@ + t.auth_pct@ + "%)"@) + "\n"@,
            )
        }),
{
    let b = spec_banner(shots);
    let l0 = "Protocol       : QIA-QZKP\n"@;
    let l1 = spec_field("Accuracy       : "@, spec_spread(t.mean_accuracy@, t.std_accuracy@));
    let l2 = spec_field(
        "Auth rate      : "@,
        spec_ratio(auth_count as nat, shots as nat, t.auth_pct@),
    );
    let r = spec_auth_aggregate_report(shots, auth_count, t);
    let x0 = b + l0;
    let x1 = x0 + l1;
    assert(r == x1 + l2);
    lemma_contains_prefix(x1, l2);
    lemma_contains_prefix(x0, l1);
    lemma_contains_trans(r, x1, x0);
    lemma_contains_suffix(b, l0);
    lemma_contains_trans(r, x0, l0);
    lemma_contains_suffix(x0, l1);
    lemma_contains_trans(r, x1, l1);
    lemma_contains_suffix(x1, l2);
    assert(r.subrange(0, b.len() as int) =~= b) by {
        assert(r =~= b + (l0 + l1 + l2));
    }
}

/// The aggregate report of signature shots opens with its banner and shows,
/// each on a line of its own, the protocol, Bob's and Charlie's mismatch
/// rates as their means then their standard deviations, the accepted
/// signatures out of all shots with their percentage, and Eve's mean number
/// of interceptions.
pub proof fn lemma_qds_aggregate_lines(shots: usize, accept_count: usize, t: QdsAggregateTexts)
    ensures
        ({
            let r = spec_qds_aggregate_report(shots, accept_count, t);
            &&& r.subrange(0, spec_banner(shots).len() as int) == spec_banner(shots)
            &&& contains_text(r, "Protocol       : GC01 (QDS)\n"@)
            &&& contains_text(
                r,
                "Bob mismatch   : "@ + (t.mean_bob_rate@ + " ± "@ + t.std_bob_rate@) + "\n"@,
            )
            &&& contains_text(
                r,
                "Charlie mism.  : "@ + (t.mean_charlie_rate@ + " ± "@ + t.std_charlie_rate@)
                    + "\n"@,
            )
            &&& contains_text(
                r,
                "Sig. accepted  : "@ + (decimal_text(accept_count as nat) + "/"@ + decimal_text(
                    shots as nat,
                ) + " ("@ + t.accept_pct@ + "%)"@) + "\n"@,
            )
            &&& contains_text(r, "Eve intercepts : "@ + (t.mean_eve@ + " avg"@) + "\n"@)
        }),
{
    let b = spec_banner(shots);
    let l0 = "Protocol       : GC01 (QDS)\n"@;
    let l1 = spec_field("Bob mismatch   : "@, spec_spread(t.mean_bob_rate@, t.std_bob_rate@));
    let l2 = spec_field(
        "Charlie mism.  : "@,
        spec_spread(t.mean_charlie_rate@, t.std_charlie_rate@),
    );
    let l3 = spec_field(
        "Sig. accepted  : "@,
        spec_ratio(accept_count as nat, shots as nat, t.accept_pct@),
    );
    let l4 = spec_field("Eve intercepts : "@, t.mean_eve@ + " avg"@);
    let r = spec_qds_aggregate_report(shots, accept_count, t);
    let x0 = b + l0;
    let x1 = x0 + l1;
    let x2 = x1 + l2;
    let x3 = x2 + l3;
    assert(r == x3 + l4);
    lemma_contains_prefix(x3, l4);
    lemma_contains_prefix(x2, l3);
    lemma_contains_prefix(x1, l2);
    lemma_contains_prefix(x0, l1);
    lemma_contains_trans(r, x3, x2);
    lemma_contains_trans(r, x2, x1);
    lemma_contains_trans(r, x1, x0);
    lemma_contains_suffix(b, l0);
    lemma_contains_trans(r, x0, l0);
    lemma_contains_suffix(x0, l1);
    lemma_contains_trans(r, x1, l1);
    lemma_contains_suffix(x1, l2);
    lemma_contains_trans(r, x2, l2);
    lemma_contains_suffix(x2, l3);
    lemma_contains_trans(r, x3, l3);
    lemma_contains_suffix(x3, l4);
    assert(r.subrange(0, b.len() as int) =~= b) by {
        assert(r =~= b + (l0 + l1 + l2 + l3 + l4));
    }
}


/// The pieces of a text, joined in order.
pub open spec fn concat_all(pieces: Seq<Seq<char>>) -> Seq<char>
    decreases pieces.len(),
{
    if pieces.len() == 0 {
        Seq::empty()
    } else {
        concat_all(pieces.drop_last()) + pieces.last()
    }
}

proof fn lemma_pieces_contained(pieces: Seq<Seq<char>>)
    ensures
        forall|k: int| 0 <= k < pieces.len() ==> contains_text(concat_all(pieces), #[trigger] pieces[k]),
    decreases pieces.len(),
{
    if pieces.len() > 0 {
        let rest = pieces.drop_last();
        lemma_pieces_contained(rest);
        lemma_contains_prefix(concat_all(rest), pieces.last());
        lemma_contains_suffix(concat_all(rest), pieces.last());
        assert forall|k: int| 0 <= k < pieces.len() implies contains_text(
            concat_all(pieces),
            #[trigger] pieces[k],
        ) by {
            if k < rest.len() {
                assert(rest[k] == pieces[k]);
                lemma_contains_trans(concat_all(pieces), concat_all(rest), pieces[k]);
            }
        }
    }
}

proof fn lemma_first_piece_leads(pieces: Seq<Seq<char>>)
    requires
        pieces.len() > 0,
    ensures
        concat_all(pieces).len() >= pieces[0].len(),
        concat_all(pieces).subrange(0, pieces[0].len() as int) == pieces[0],
    decreases pieces.len(),
{
    if pieces.len() == 1 {
        assert(pieces.drop_last() =~= Seq::<Seq<char>>::empty());
        assert(concat_all(pieces.drop_last()) =~= Seq::<char>::empty());
        assert(pieces.last() == pieces[0]);
        assert(concat_all(pieces) =~= pieces[0]);
    } else {
        let rest = pieces.drop_last();
        lemma_first_piece_leads(rest);
        assert(rest[0] == pieces[0]);
        assert(concat_all(pieces).subrange(0, pieces[0].len() as int) =~= concat_all(rest).subrange(
            0,
            pieces[0].len() as int,
        ));
    }
}

/// The report of a key-distribution shot opens with the shot's header when
/// the run has several shots, and shows, each on a line of its own: the
/// protocol; the channel with its `p` (and its second parameter when
/// shown); the raw count; the sifted count with its percentage; the check
/// errors; the QBER with its percentage, or "N/A" without an estimate; the
/// CHSH value and the Bell verdict when the shot has a CHSH value; Eve's
/// interceptions; the key length; whether the keys match; and each recorded
/// key.
pub proof fn lemma_qkd_report_lines<N>(r: QkdRun<N>, shots: usize, t: QkdShotTexts)
    ensures
        ({
            let s = spec_qkd_report(r, shots, t);
            &&& shots > 1 ==> s.subrange(0, spec_shot_header(r.shot).len() as int)
                == spec_shot_header(r.shot)
            &&& contains_text(s, "Protocol       : "@ + r.protocol@ + "\n"@)
            &&& t.q is None ==> contains_text(
                s,
                "Channel        "@ + ": "@ + r.channel.channel_type@ + " (p="@ + t.p@ + ")\n"@,
            )
            &&& t.q matches Some(q) ==> contains_text(
                s,
                "Channel        "@ + ": "@ + r.channel.channel_type@ + " (p="@ + t.p@ + ", p2="@ + q@
                    + ")\n"@,
            )
            &&& contains_text(
                s,
                spec_raw_label(r.protocol@) + "    : "@ + decimal_text(r.raw_length as nat) + "\n"@,
            )
            &&& contains_text(
                s,
                spec_sift_label(r.protocol@) + "    : "@ + (decimal_text(r.sifted as nat) + " ("@
                    + t.sift_pct@ + "%)"@) + "\n"@,
            )
            &&& contains_text(
                s,
                "Check errors   : "@ + decimal_text(r.check_errors as nat) + "\n"@,
            )
            &&& r.qber_available ==> contains_text(
                s,
                "QBER           : "@ + t.qber@ + " ("@ + t.qber_pct@ + "%)\n"@,
            )
            &&& !r.qber_available ==> contains_text(s, "QBER           : N/A (no check bits)\n"@)
            &&& r.chsh_value is Some ==> contains_text(
                s,
                "CHSH S-value   : "@ + t.chsh@ + "  "@ + spec_bell_verdict(t.bell_violated) + "\n"@,
            )
            &&& contains_text(s, "Eve intercepts : "@ + decimal_text(r.eve_count as nat) + "\n"@)
            &&& contains_text(
                s,
                "Key length     : "@ + decimal_text(r.key_length as nat) + " bits"@ + "\n"@,
            )
            &&& contains_text(s, "Keys match     : "@ + spec_match_words(r.keys_match) + "\n"@)
            &&& r.alice_key_hex matches Some(h) ==> contains_text(
                s,
                "Alice key (hex): "@ + h@ + "\n"@,
            )
            &&& r.bob_key_hex matches Some(h) ==> contains_text(
                s,
                "Bob key (hex)  : "@ + h@ + "\n"@,
            )
        }),
{
    reveal_strlit("");
    let ps = seq![
        spec_header_if(r.shot, shots),
        spec_field("Protocol       : "@, r.protocol@),
        spec_channel_line("Channel        "@, r.channel.channel_type@, t.p@, opt_text(t.q)),
        spec_count_field(spec_raw_label(r.protocol@) + "    : "@, r.raw_length as nat, ""@),
        spec_field(
            spec_sift_label(r.protocol@) + "    : "@,
            spec_count_pct(r.sifted as nat, t.sift_pct@),
        ),
        spec_count_field("Check errors   : "@, r.check_errors as nat, ""@),
        spec_qber_line(r.qber_available, t.qber@, t.qber_pct@),
        spec_chsh_line(r.chsh_value is Some, t.chsh@, t.bell_violated),
        spec_count_field("Eve intercepts : "@, r.eve_count as nat, ""@),
        spec_count_field("Key length     : "@, r.key_length as nat, " bits"@),
        spec_field("Keys match     : "@, spec_match_words(r.keys_match)),
        spec_hex_line("Alice key (hex): "@, r.alice_key_hex),
        spec_hex_line("Bob key (hex)  : "@, r.bob_key_hex),
    ];
    let s = spec_qkd_report(r, shots, t);
    reveal_with_fuel(concat_all, 14);
    assert(concat_all(ps) =~= s);
    lemma_pieces_contained(ps);
    assert(ps[1] == ps[1]);
    if let Some(q) = t.q {
        assert(ps[2] =~= "Channel        "@ + ": "@ + r.channel.channel_type@ + " (p="@ + t.p@ + ", p2="@
            + q@ + ")\n"@);
    } else {
        assert(ps[2] =~= "Channel        "@ + ": "@ + r.channel.channel_type@ + " (p="@ + t.p@
            + ")\n"@);
    }
    assert(ps[3] =~= spec_raw_label(r.protocol@) + "    : "@ + decimal_text(r.raw_length as nat)
        + "\n"@);
    assert(ps[4] == ps[4]);
    assert(ps[5] =~= "Check errors   : "@ + decimal_text(r.check_errors as nat) + "\n"@);
    assert(ps[6] == ps[6]);
    assert(ps[7] == ps[7]);
    assert(ps[8] =~= "Eve intercepts : "@ + decimal_text(r.eve_count as nat) + "\n"@);
    assert(ps[9] == ps[9]);
    assert(ps[10] == ps[10]);
    assert(ps[11] == ps[11]);
    assert(ps[12] == ps[12]);
    lemma_first_piece_leads(ps);
}


/// The report of an authentication shot opens with the shot's header when
/// the run has several shots, and shows, each on a line of its own: the
/// protocol; the channel with its `p` (and its second parameter when
/// shown); the rounds; the matches out of the rounds; the accuracy with its
/// percentage; the verdict; and each recorded vector.
pub proof fn lemma_auth_report_lines<N>(r: AuthRun<N>, shots: usize, t: AuthShotTexts)
    ensures
        ({
            let s = spec_auth_report(r, shots, t);
            &&& shots > 1 ==> s.subrange(0, spec_shot_header(r.shot).len() as int)
                == spec_shot_header(r.shot)
            &&& contains_text(s, "Protocol       : QIA-QZKP\n"@)
            &&& t.q is None ==> contains_text(
                s,
                "Channel        "@ + ": "@ + r.channel.channel_type@ + " (p="@ + t.p@ + ")\n"@,
            )
            &&& t.q matches Some(q) ==> contains_text(
                s,
                "Channel        "@ + ": "@ + r.channel.channel_type@ + " (p="@ + t.p@ + ", p2="@
                    + q@ + ")\n"@,
            )
            &&& contains_text(s, "Rounds         : "@ + decimal_text(r.total_qubits as nat) + "\n"@)
            &&& contains_text(
                s,
                "Matches        : "@ + (decimal_text(r.matches as nat) + " / "@ + decimal_text(
                    r.total_qubits as nat,
                )) + "\n"@,
            )
            &&& contains_text(
                s,
                "Accuracy       : "@ + (t.accuracy@ + " ("@ + t.accuracy_pct@ + "%)"@) + "\n"@,
            )
            &&& contains_text(s, "Authenticated  : "@ + spec_auth_words(r.authenticated) + "\n"@)
            &&& r.alice_id_hex matches Some(h) ==> contains_text(
                s,
                "Alice id 'a'   : "@ + h@ + "\n"@,
            )
            &&& r.alice_commitment_hex matches Some(h) ==> contains_text(
                s,
                "Alice commit'b': "@ + h@ + "\n"@,
            )
            &&& r.bob_challenge_hex matches Some(h) ==> contains_text(
                s,
                "Bob challenge  : "@ + h@ + "\n"@,
            )
            &&& r.bob_recovered_hex matches Some(h) ==> contains_text(
                s,
                "Bob recovered  : "@ + h@ + "\n"@,
            )
        }),
{
    reveal_strlit("");
    let ps = seq![
        spec_header_if(r.shot, shots),
        "Protocol       : QIA-QZKP\n"@,
        spec_channel_line("Channel        "@, r.channel.channel_type@, t.p@, opt_text(t.q)),
        spec_count_field("Rounds         : "@, r.total_qubits as nat, ""@),
        spec_field(
            "Matches        : "@,
            decimal_text(r.matches as nat) + " / "@ + decimal_text(r.total_qubits as nat),
        ),
        spec_field("Accuracy       : "@, t.accuracy@ + " ("@ + t.accuracy_pct@ + "%)"@),
        spec_field("Authenticated  : "@, spec_auth_words(r.authenticated)),
        spec_hex_line("Alice id 'a'   : "@, r.alice_id_hex),
        spec_hex_line("Alice commit'b': "@, r.alice_commitment_hex),
        spec_hex_line("Bob challenge  : "@, r.bob_challenge_hex),
        spec_hex_line("Bob recovered  : "@, r.bob_recovered_hex),
    ];
    let s = spec_auth_report(r, shots, t);
    reveal_with_fuel(concat_all, 12);
    assert(concat_all(ps) =~= s);
    lemma_pieces_contained(ps);
    assert(ps[1] == ps[1]);
    if let Some(q) = t.q {
        assert(ps[2] =~= "Channel        "@ + ": "@ + r.channel.channel_type@ + " (p="@ + t.p@
            + ", p2="@ + q@ + ")\n"@);
    } else {
        assert(ps[2] =~= "Channel        "@ + ": "@ + r.channel.channel_type@ + " (p="@ + t.p@
            + ")\n"@);
    }
    assert(ps[3] =~= "Rounds         : "@ + decimal_text(r.total_qubits as nat) + "\n"@);
    assert(ps[4] == ps[4]);
    assert(ps[5] == ps[5]);
    assert(ps[6] == ps[6]);
    assert(ps[7] == ps[7]);
    assert(ps[8] == ps[8]);
    assert(ps[9] == ps[9]);
    assert(ps[10] == ps[10]);
    lemma_first_piece_leads(ps);
}

/// The report of a signature shot opens with the shot's header when the
/// run has several shots, and shows, each on a line of its own: the
/// protocol; Bob's and Charlie's channels with their `p` (and second
/// parameters when shown); the key length; the message bit; Bob's and
/// Charlie's mismatches with their rates; the verdict on the signature; and
/// Eve's interceptions.
pub proof fn lemma_qds_report_lines<N>(r: QdsRun<N>, shots: usize, t: QdsShotTexts)
    ensures
        ({
            let s = spec_qds_report(r, shots, t);
            &&& shots > 1 ==> s.subrange(0, spec_shot_header(r.shot).len() as int)
                == spec_shot_header(r.shot)
            &&& contains_text(s, "Protocol       : GC01 (QDS)\n"@)
            &&& t.bob_q is None ==> contains_text(
                s,
                "Channel Bob    "@ + ": "@ + r.channel_bob.channel_type@ + " (p="@ + t.bob_p@
                    + ")\n"@,
            )
            &&& t.bob_q matches Some(q) ==> contains_text(
                s,
                "Channel Bob    "@ + ": "@ + r.channel_bob.channel_type@ + " (p="@ + t.bob_p@
                    + ", p2="@ + q@ + ")\n"@,
            )
            &&& t.charlie_q is None ==> contains_text(
                s,
                "Channel Charlie"@ + ": "@ + r.channel_charlie.channel_type@ + " (p="@
                    + t.charlie_p@ + ")\n"@,
            )
            &&& t.charlie_q matches Some(q) ==> contains_text(
                s,
                "Channel Charlie"@ + ": "@ + r.channel_charlie.channel_type@ + " (p="@
                    + t.charlie_p@ + ", p2="@ + q@ + ")\n"@,
            )
            &&& contains_text(
                s,
                "Key length     : "@ + decimal_text(r.num_qubits as nat) + " qubits"@ + "\n"@,
            )
            &&& contains_text(
                s,
                "Message bit    : "@ + (if r.message {
                    "1"@
                } else {
                    "0"@
                }) + "\n"@,
            )
            &&& contains_text(
                s,
                "Bob mismatch   : "@ + (decimal_text(r.bob_mismatches as nat) + " ("@ + t.bob_rate@
                    + ")"@) + "\n"@,
            )
            &&& contains_text(
                s,
                "Charlie mism.  : "@ + (decimal_text(r.charlie_mismatches as nat) + " ("@
                    + t.charlie_rate@ + ")"@) + "\n"@,
            )
            &&& contains_text(
                s,
                "Signature      : "@ + (if r.signature_accepted {
                    "ACCEPTED"@
                } else {
                    "REJECTED"@
                }) + "\n"@,
            )
            &&& contains_text(
                s,
                "Eve intercepts : "@ + decimal_text(r.eve_intercepted_count as nat) + "\n"@,
            )
        }),
{
    reveal_strlit("");
    let ps = seq![
        spec_header_if(r.shot, shots),
        "Protocol       : GC01 (QDS)\n"@,
        spec_channel_line("Channel Bob    "@, r.channel_bob.channel_type@, t.bob_p@, opt_text(t.bob_q)),
        spec_channel_line(
            "Channel Charlie"@,
            r.channel_charlie.channel_type@,
            t.charlie_p@,
            opt_text(t.charlie_q),
        ),
        spec_count_field("Key length     : "@, r.num_qubits as nat, " qubits"@),
        spec_field(
            "Message bit    : "@,
            if r.message {
                "1"@
            } else {
                "0"@
            },
        ),
        spec_field(
            "Bob mismatch   : "@,
            decimal_text(r.bob_mismatches as nat) + " ("@ + t.bob_rate@ + ")"@,
        ),
        spec_field(
            "Charlie mism.  : "@,
            decimal_text(r.charlie_mismatches as nat) + " ("@ + t.charlie_rate@ + ")"@,
        ),
        spec_field(
            "Signature      : "@,
            if r.signature_accepted {
                "ACCEPTED"@
            } else {
                "REJECTED"@
            },
        ),
        spec_count_field("Eve intercepts : "@, r.eve_intercepted_count as nat, ""@),
    ];
    let s = spec_qds_report(r, shots, t);
    reveal_with_fuel(concat_all, 11);
    assert(concat_all(ps) =~= s);
    lemma_pieces_contained(ps);
    assert(ps[1] == ps[1]);
    if let Some(q) = t.bob_q {
        assert(ps[2] =~= "Channel Bob    "@ + ": "@ + r.channel_bob.channel_type@ + " (p="@ + t.bob_p@
            + ", p2="@ + q@ + ")\n"@);
    } else {
        assert(ps[2] =~= "Channel Bob    "@ + ": "@ + r.channel_bob.channel_type@ + " (p="@ + t.bob_p@
            + ")\n"@);
    }
    if let Some(q) = t.charlie_q {
        assert(ps[3] =~= "Channel Charlie"@ + ": "@ + r.channel_charlie.channel_type@ + " (p="@
            + t.charlie_p@ + ", p2="@ + q@ + ")\n"@);
    } else {
        assert(ps[3] =~= "Channel Charlie"@ + ": "@ + r.channel_charlie.channel_type@ + " (p="@
            + t.charlie_p@ + ")\n"@);
    }
    assert(ps[4] == ps[4]);
    assert(ps[5] == ps[5]);
    assert(ps[6] == ps[6]);
    assert(ps[7] == ps[7]);
    assert(ps[8] == ps[8]);
    assert(ps[9] =~= "Eve intercepts : "@ + decimal_text(r.eve_intercepted_count as nat) + "\n"@);
    lemma_first_piece_leads(ps);
}

/// The text output file holds every shot's report in order, each followed
/// by an empty line, and ends with the aggregate report, whatever the number
/// of shots.
pub proof fn lemma_text_file_layout(blocks: Seq<Seq<char>>, aggregate: Seq<char>)
    ensures
        spec_text_file(blocks, aggregate) == concat_all(
            blocks.map_values(|b: Seq<char>| b + "\n"@),
        ) + aggregate,
        blocks.len() > 0 ==> spec_text_file(blocks, aggregate).subrange(
            0,
            blocks[0].len() as int,
        ) == blocks[0],
        spec_text_file(blocks, aggregate).subrange(
            spec_text_file(blocks, aggregate).len() - aggregate.len(),
            spec_text_file(blocks, aggregate).len() as int,
        ) == aggregate,
    decreases blocks.len(),
{
    let lines = blocks.map_values(|b: Seq<char>| b + "\n"@);
    lemma_blocks_are_lines(blocks);
    let t = spec_text_file(blocks, aggregate);
    assert(t.subrange(t.len() - aggregate.len(), t.len() as int) =~= aggregate);
    if blocks.len() > 0 {
        lemma_first_piece_leads(lines);
        assert(lines[0] == blocks[0] + "\n"@);
        assert(t.subrange(0, blocks[0].len() as int) =~= concat_all(lines).subrange(
            0,
            lines[0].len() as int,
        ).subrange(0, blocks[0].len() as int));
    }
}

proof fn lemma_blocks_are_lines(blocks: Seq<Seq<char>>)
    ensures
        blocks_text(blocks) == concat_all(blocks.map_values(|b: Seq<char>| b + "\n"@)),
    decreases blocks.len(),
{
    if blocks.len() > 0 {
        lemma_blocks_are_lines(blocks.drop_last());
        assert(blocks.map_values(|b: Seq<char>| b + "\n"@).drop_last() =~= blocks.drop_last().map_values(
            |b: Seq<char>| b + "\n"@,
        ));
    } else {
        assert(blocks.map_values(|b: Seq<char>| b + "\n"@) =~= Seq::<Seq<char>>::empty());
    }
}

/// A one-shot run prints that shot's report alone; a run of several shots
/// prints the aggregate report first, followed at most by the note on keys.
pub proof fn lemma_terminal_choice(
    shots: usize,
    detail: bool,
    shot_report: Seq<char>,
    aggregate: Seq<char>,
)
    ensures
        shots == 1 ==> spec_terminal_text(shots, detail, shot_report, aggregate) == shot_report,
        shots != 1 ==> spec_terminal_text(shots, detail, shot_report, aggregate).subrange(
            0,
            aggregate.len() as int,
        ) == aggregate,
        shots != 1 && !detail ==> spec_terminal_text(shots, detail, shot_report, aggregate)
            == aggregate,
{
    let t = spec_terminal_text(shots, detail, shot_report, aggregate);
    if shots != 1 {
        assert(t.subrange(0, aggregate.len() as int) =~= aggregate);
    }
}

} // verus!
