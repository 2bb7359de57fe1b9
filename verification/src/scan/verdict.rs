//! Verdicts of the two engines and their union.
//!
//! The signature engine says whether a file is infected and by what; the
//! heuristics give a score out of a hundred with their findings. One file gives
//! one detection.

use crate::text::{
    contains, decimal, decimal_text, lowercased, occurs, owned_view, text_view, to_lowercase,
};
use vstd::prelude::*;

verus! {

/// Layer of the heuristics that a finding comes from.
#[derive(Debug, Clone, Copy, PartialEq, Eq, Structural)]
pub enum Layer {
    Signature,
    MimeValidation,
    StructuralAnalysis,
    PackerDetection,
    ScriptAnalysis,
    PatternDetection,
    FileDeception,
    IocCorrelation,
    YaraRules,
    Reputation,
    Authenticode,
    Other,
}

/// One finding of the heuristics.
#[derive(Debug)]
pub struct Finding {
    pub layer: Layer,
    pub weight: u32,
    pub description: String,
}

/// How thoroughly a file was analysed.
#[derive(Debug, Clone, Copy, PartialEq, Eq, Structural)]
pub enum ScanStrategy {
    FullAnalysis,
    LightAnalysis,
    SignatureOnly,
    SkipSafe,
    TooLarge,
}

/// Where the time for one file went, in microseconds.
#[derive(Debug, Clone, Copy, PartialEq, Eq, Structural)]
pub struct ScanTiming {
    pub strategy: Option<ScanStrategy>,
    pub argus_total_us: u64,
    pub yara_us: u64,
    pub hash_us: u64,
    pub clamav_us: u64,
}

/// Verdict of the heuristics on one file.
#[derive(Debug)]
pub struct ArgusVerdict {
    pub path: String,
    pub file_size: u64,
    pub score: u32,
    /// The verdict in words.
    pub label: String,
    pub findings: Vec<Finding>,
    pub timing: Option<ScanTiming>,
}

/// Score from which the heuristics alone call a file a threat.
pub const ARGUS_THREAT_SCORE: u32 = 76;

/// Score that the heuristics need where the signatures do not agree.
pub const ARGUS_ALONE_SCORE: u32 = 85;

/// Whether a score of the heuristics is that of a threat.
pub open spec fn alarming(score: u32) -> bool {
    score >= ARGUS_THREAT_SCORE
}

impl ArgusVerdict {
    pub fn is_threat(&self) -> (yes: bool)
        ensures
            yes == alarming(self.score),
            yes == (self.score >= ARGUS_THREAT_SCORE),
    {
        self.score >= ARGUS_THREAT_SCORE
    }
}

/// Whether the two engines together call a file a threat.
pub open spec fn threat(clamav_infected: bool, score: u32) -> bool {
    clamav_infected || score >= ARGUS_ALONE_SCORE
}

/// The class of a pattern finding, told from its description.
pub open spec fn pattern_category(description: Seq<char>) -> Seq<char> {
    if occurs("Discord"@, description) || occurs("token"@, description) {
        "Stealer.Discord"@
    } else if occurs("credential"@, description) || occurs("browser"@, description) {
        "Stealer.Credentials"@
    } else if occurs("webhook"@, description) || occurs("exfiltrat"@, description) {
        "Stealer.Exfiltration"@
    } else if occurs("crypto"@, description) || occurs("mining"@, description) {
        "Miner.CryptoJack"@
    } else if occurs("persistence"@, description) {
        "Persistence.Suspicious"@
    } else {
        "Suspicious.Behavior"@
    }
}

fn pattern_class(description: &str) -> (category: &'static str)
    ensures
        category@ == pattern_category(description@),
{
    if contains(description, "Discord") || contains(description, "token") {
        "Stealer.Discord"
    } else if contains(description, "credential") || contains(description, "browser") {
        "Stealer.Credentials"
    } else if contains(description, "webhook") || contains(description, "exfiltrat") {
        "Stealer.Exfiltration"
    } else if contains(description, "crypto") || contains(description, "mining") {
        "Miner.CryptoJack"
    } else if contains(description, "persistence") {
        "Persistence.Suspicious"
    } else {
        "Suspicious.Behavior"
    }
}

/// The class of a heuristic detection: that of its first finding.
pub open spec fn category(findings: Seq<Finding>) -> Seq<char> {
    if findings.len() == 0 {
        pattern_category(""@)
    } else {
        match findings[0].layer {
            Layer::PatternDetection => pattern_category(findings[0].description@),
            Layer::PackerDetection => "Packed.Suspicious"@,
            Layer::ScriptAnalysis => "Script.Malicious"@,
            Layer::FileDeception => "Deception.Disguised"@,
            Layer::MimeValidation => "Deception.FakeExtension"@,
            Layer::IocCorrelation => "IOC.KnownMalicious"@,
            Layer::StructuralAnalysis => "Suspicious.Structure"@,
            _ => "Suspicious.Generic"@,
        }
    }
}

fn class_of(findings: &Vec<Finding>) -> (name: &'static str)
    ensures
        name@ == category(findings@),
{
    if findings.len() == 0 {
        return pattern_class("");
    }
    match findings[0].layer {
        Layer::PatternDetection => pattern_class(findings[0].description.as_str()),
        Layer::PackerDetection => "Packed.Suspicious",
        Layer::ScriptAnalysis => "Script.Malicious",
        Layer::FileDeception => "Deception.Disguised",
        Layer::MimeValidation => "Deception.FakeExtension",
        Layer::IocCorrelation => "IOC.KnownMalicious",
        Layer::StructuralAnalysis => "Suspicious.Structure",
        _ => "Suspicious.Generic",
    }
}

/// The name of the detection. The signature engine's name is authoritative; the
/// heuristics add their score where they agree.
pub open spec fn detection_name(
    clamav_infected: bool,
    clamav_name: Option<Seq<char>>,
    argus: ArgusVerdict,
) -> Seq<char> {
    if clamav_infected {
        let base = match clamav_name {
            Some(name) => name,
            None => "Malware.Generic"@,
        };
        if argus.score > 50 {
            base + " [ARGUS: "@ + decimal(argus.score as nat) + "/100]"@
        } else {
            base
        }
    } else {
        "ARGUS/"@ + category(argus.findings@) + " ["@ + decimal(argus.score as nat) + "/100]"@
    }
}

/// Whether the user excluded a detection: one of the exclusions occurs in its
/// name, whatever the case.
pub open spec fn excluded(name: Seq<char>, exclusions: Seq<String>) -> bool {
    exists|i: int|
        0 <= i < exclusions.len() && occurs(
            lowercased((#[trigger] exclusions[i])@),
            lowercased(name),
        )
}

/// What the two engines say together: the name of the threat, if there is one.
pub open spec fn united(
    clamav_infected: bool,
    clamav_name: Option<Seq<char>>,
    argus: ArgusVerdict,
    exclusions: Seq<String>,
) -> Option<Seq<char>> {
    let name = detection_name(clamav_infected, clamav_name, argus);
    if threat(clamav_infected, argus.score) && !excluded(name, exclusions) {
        Some(name)
    } else {
        None
    }
}

pub fn is_excluded_detection(name: &str, exclusions: &[String]) -> (yes: bool)
    ensures
        yes == excluded(name@, exclusions@),
{
    let lower = to_lowercase(name);
    let mut i: usize = 0;
    while i < exclusions.len()
        invariant
            lower@ == lowercased(name@),
            i <= exclusions@.len(),
            forall|j: int|
                0 <= j < i ==> !occurs(
                    lowercased((#[trigger] exclusions@[j])@),
                    lowercased(name@),
                ),
        decreases exclusions@.len() - i,
    {
        let needle = to_lowercase(exclusions[i].as_str());
        if contains(lower.as_str(), needle.as_str()) {
            assert(occurs(lowercased(exclusions@[i as int]@), lowercased(name@)));
            return true;
        }
        i = i + 1;
    }
    false
}

/// Unite the verdicts of the two engines. A signature match is always a threat;
/// the heuristics alone need a high score.
pub fn unify_detection_filtered(
    clamav_infected: bool,
    clamav_name: Option<&str>,
    argus: &ArgusVerdict,
    excluded_detections: &[String],
) -> (unified: (bool, Option<String>))
    ensures
        unified.0 == (unified.1 is Some),
        owned_view(unified.1) == united(
            clamav_infected,
            text_view(clamav_name),
            *argus,
            excluded_detections@,
        ),
{
    let argus_threat = if clamav_infected {
        argus.is_threat()
    } else {
        argus.score >= ARGUS_ALONE_SCORE
    };
    if !(clamav_infected || argus_threat) {
        return (false, None);
    }
    let name = if clamav_infected {
        let mut name = match clamav_name {
            Some(name) => name.to_owned(),
            None => "Malware.Generic".to_owned(),
        };
        if argus.score > 50 {
            name.append(" [ARGUS: ");
            name.append(decimal_text(argus.score as u64).as_str());
            name.append("/100]");
        }
        name
    } else {
        let mut name = "ARGUS/".to_owned();
        name.append(class_of(&argus.findings));
        name.append(" [");
        name.append(decimal_text(argus.score as u64).as_str());
        name.append("/100]");
        name
    };
    if is_excluded_detection(name.as_str(), excluded_detections) {
        return (false, None);
    }
    (true, Some(name))
}

/// A signature match is a threat unless the user excluded its name.
pub proof fn signature_match_is_threat(
    clamav_name: Option<Seq<char>>,
    argus: ArgusVerdict,
    exclusions: Seq<String>,
)
    requires
        !excluded(detection_name(true, clamav_name, argus), exclusions),
    ensures
        united(true, clamav_name, argus, exclusions) == Some(
            detection_name(true, clamav_name, argus),
        ),
{
}

/// Without a signature match, no file below the higher score is a threat.
pub proof fn heuristics_alone_need_high_score(
    clamav_name: Option<Seq<char>>,
    argus: ArgusVerdict,
    exclusions: Seq<String>,
)
    requires
        argus.score < 85,
    ensures
        united(false, clamav_name, argus, exclusions) is None,
{
}

/// Without exclusions nothing is suppressed.
pub proof fn no_exclusions_suppress_nothing(
    clamav_infected: bool,
    clamav_name: Option<Seq<char>>,
    argus: ArgusVerdict,
)
    ensures
        united(clamav_infected, clamav_name, argus, Seq::empty()) is Some <==> threat(
            clamav_infected,
            argus.score,
        ),
{
}

/// Excluding a detection by its own name suppresses it, whatever the case.
pub proof fn excluded_name_is_suppressed(
    clamav_infected: bool,
    clamav_name: Option<Seq<char>>,
    argus: ArgusVerdict,
    exclusions: Seq<String>,
    i: int,
)
    requires
        0 <= i < exclusions.len(),
        lowercased(exclusions[i]@) == lowercased(
            detection_name(clamav_infected, clamav_name, argus),
        ),
    ensures
        united(clamav_infected, clamav_name, argus, exclusions) is None,
{
    let name = lowercased(detection_name(clamav_infected, clamav_name, argus));
    assert(name.subrange(0, name.len() as int) =~= name);
    assert(crate::text::stands_at(name, name, 0));
    assert(occurs(lowercased(exclusions[i]@), name));
}

/// A signature match, or a score of at least 85, is reported under the name of the
/// detection unless one of the exclusions occurs in that name, whatever the case.
pub proof fn threat_is_reported_unless_excluded(
    clamav_infected: bool,
    clamav_name: Option<Seq<char>>,
    argus: ArgusVerdict,
    exclusions: Seq<String>,
)
    requires
        clamav_infected || argus.score >= 85,
        forall|i: int, at: int|
            0 <= i < exclusions.len() ==> !(#[trigger] crate::text::stands_at(
                lowercased(detection_name(clamav_infected, clamav_name, argus)),
                lowercased(exclusions[i]@),
                at,
            )),
    ensures
        united(clamav_infected, clamav_name, argus, exclusions) == Some(
            detection_name(clamav_infected, clamav_name, argus),
        ),
{
    let name = detection_name(clamav_infected, clamav_name, argus);
    if excluded(name, exclusions) {
        let i = choose|i: int|
            0 <= i < exclusions.len() && occurs(
                lowercased((#[trigger] exclusions[i])@),
                lowercased(name),
            );
        let at = choose|at: int|
            crate::text::stands_at(lowercased(name), lowercased(exclusions[i]@), at);
        assert(crate::text::stands_at(lowercased(name), lowercased(exclusions[i]@), at));
    }
}

/// A threat that is not reported was excluded: some exclusion of the list occurs in
/// its name.
pub proof fn suppression_has_a_cause(
    clamav_infected: bool,
    clamav_name: Option<Seq<char>>,
    argus: ArgusVerdict,
    exclusions: Seq<String>,
)
    requires
        clamav_infected || argus.score >= 85,
        united(clamav_infected, clamav_name, argus, exclusions) is None,
    ensures
        exists|i: int, at: int|
            0 <= i < exclusions.len() && #[trigger] crate::text::stands_at(
                lowercased(detection_name(clamav_infected, clamav_name, argus)),
                lowercased(exclusions[i]@),
                at,
            ),
{
    if forall|i: int, at: int|
        0 <= i < exclusions.len() ==> !(#[trigger] crate::text::stands_at(
            lowercased(detection_name(clamav_infected, clamav_name, argus)),
            lowercased(exclusions[i]@),
            at,
        )) {
        threat_is_reported_unless_excluded(clamav_infected, clamav_name, argus, exclusions);
    }
}

/// An exclusion that occurs in the name suppresses the detection, wherever it stands
/// in the list.
pub proof fn exclusion_in_the_name_suppresses(
    clamav_infected: bool,
    clamav_name: Option<Seq<char>>,
    argus: ArgusVerdict,
    exclusions: Seq<String>,
    i: int,
    before: Seq<char>,
    after: Seq<char>,
)
    requires
        0 <= i < exclusions.len(),
        lowercased(detection_name(clamav_infected, clamav_name, argus)) == before + lowercased(
            exclusions[i]@,
        ) + after,
    ensures
        united(clamav_infected, clamav_name, argus, exclusions) is None,
{
    let name = lowercased(detection_name(clamav_infected, clamav_name, argus));
    let needle = lowercased(exclusions[i]@);
    let at = before.len() as int;
    assert(name.subrange(at, at + needle.len()) =~= needle);
    assert(crate::text::stands_at(name, needle, at));
    assert(occurs(needle, name));
}

/// More exclusions never make a threat of what is none, nor change a name.
pub proof fn fewer_exclusions_report_no_less(
    clamav_infected: bool,
    clamav_name: Option<Seq<char>>,
    argus: ArgusVerdict,
    fewer: Seq<String>,
    more: Seq<String>,
)
    requires
        forall|i: int| 0 <= i < fewer.len() ==> more.contains(#[trigger] fewer[i]),
        united(clamav_infected, clamav_name, argus, more) is Some,
    ensures
        united(clamav_infected, clamav_name, argus, fewer) == united(
            clamav_infected,
            clamav_name,
            argus,
            more,
        ),
{
    let name = detection_name(clamav_infected, clamav_name, argus);
    if excluded(name, fewer) {
        let i = choose|i: int|
            0 <= i < fewer.len() && occurs(lowercased((#[trigger] fewer[i])@), lowercased(name));
        assert(more.contains(fewer[i]));
        let j = choose|j: int| 0 <= j < more.len() && more[j] == fewer[i];
        assert(occurs(lowercased(more[j]@), lowercased(name)));
    }
}

/// The name that the signature engine gives is the name of the detection. The
/// heuristics add their score behind it where it is above fifty, and change nothing
/// else.
pub proof fn signature_name_is_authoritative(
    name: Seq<char>,
    argus: ArgusVerdict,
    exclusions: Seq<String>,
)
    ensures
        argus.score <= 50 ==> detection_name(true, Some(name), argus) == name,
        argus.score > 50 ==> detection_name(true, Some(name), argus) == name + " [ARGUS: "@
            + decimal(argus.score as nat) + "/100]"@,
        argus.score <= 50 ==> detection_name(true, None, argus) == "Malware.Generic"@,
        argus.score > 50 ==> detection_name(true, None, argus) == "Malware.Generic"@
            + " [ARGUS: "@ + decimal(argus.score as nat) + "/100]"@,
        united(true, Some(name), argus, exclusions) matches Some(given) ==> given.len()
            >= name.len() && given.take(name.len() as int) =~= name,
{
    let full = detection_name(true, Some(name), argus);
    assert(full.take(name.len() as int) =~= name);
}

/// A detection by the heuristics alone is named after the layer of the first
/// finding, with the score; what the signature engine might be called does not
/// matter.
pub proof fn heuristic_name_tells_layer_and_score(
    clamav_name: Option<Seq<char>>,
    argus: ArgusVerdict,
)
    ensures
        ({
            let named = |class: Seq<char>|
                detection_name(false, clamav_name, argus) == "ARGUS/"@ + class + " ["@ + decimal(
                    argus.score as nat,
                ) + "/100]"@;
            &&& argus.findings@.len() == 0 ==> named("Suspicious.Behavior"@)
            &&& argus.findings@.len() > 0 ==> {
                let f = argus.findings@[0];
                &&& f.layer is PackerDetection ==> named("Packed.Suspicious"@)
                &&& f.layer is ScriptAnalysis ==> named("Script.Malicious"@)
                &&& f.layer is FileDeception ==> named("Deception.Disguised"@)
                &&& f.layer is MimeValidation ==> named("Deception.FakeExtension"@)
                &&& f.layer is IocCorrelation ==> named("IOC.KnownMalicious"@)
                &&& f.layer is StructuralAnalysis ==> named("Suspicious.Structure"@)
                &&& f.layer is Signature || f.layer is YaraRules || f.layer is Reputation
                    || f.layer is Authenticode || f.layer is Other ==> named(
                    "Suspicious.Generic"@,
                )
                &&& f.layer is PatternDetection ==> {
                    let d = f.description@;
                    let discord = occurs("Discord"@, d) || occurs("token"@, d);
                    let credentials = occurs("credential"@, d) || occurs("browser"@, d);
                    let sent = occurs("webhook"@, d) || occurs("exfiltrat"@, d);
                    let mined = occurs("crypto"@, d) || occurs("mining"@, d);
                    let stays = occurs("persistence"@, d);
                    &&& discord ==> named("Stealer.Discord"@)
                    &&& !discord && credentials ==> named("Stealer.Credentials"@)
                    &&& !discord && !credentials && sent ==> named("Stealer.Exfiltration"@)
                    &&& !discord && !credentials && !sent && mined ==> named("Miner.CryptoJack"@)
                    &&& !discord && !credentials && !sent && !mined && stays ==> named(
                        "Persistence.Suspicious"@,
                    )
                    &&& !discord && !credentials && !sent && !mined && !stays ==> named(
                        "Suspicious.Behavior"@,
                    )
                }
            }
        }),
{
    reveal_strlit("");
    reveal_strlit("Discord");
    reveal_strlit("token");
    reveal_strlit("credential");
    reveal_strlit("browser");
    reveal_strlit("webhook");
    reveal_strlit("exfiltrat");
    reveal_strlit("crypto");
    reveal_strlit("mining");
    reveal_strlit("persistence");
    assert(""@.len() == 0);
    assert("Discord"@.len() > 0 && "token"@.len() > 0 && "credential"@.len() > 0
        && "browser"@.len() > 0 && "webhook"@.len() > 0 && "exfiltrat"@.len() > 0
        && "crypto"@.len() > 0 && "mining"@.len() > 0 && "persistence"@.len() > 0);
    assert(pattern_category(""@) == "Suspicious.Behavior"@);
}

/// Findings behind the first one do not change the name.
pub proof fn first_finding_decides_the_name(
    clamav_infected: bool,
    clamav_name: Option<Seq<char>>,
    a: ArgusVerdict,
    b: ArgusVerdict,
)
    requires
        a.score == b.score,
        a.findings@.len() > 0,
        b.findings@.len() > 0,
        a.findings@[0] == b.findings@[0],
    ensures
        detection_name(clamav_infected, clamav_name, a) == detection_name(
            clamav_infected,
            clamav_name,
            b,
        ),
{
}

/// The heuristics call a file a threat from a score of 76 on.
pub proof fn alarm_begins_at_its_score(score: u32)
    ensures
        alarming(score) <==> score > 75,
{
}

} // verus!
