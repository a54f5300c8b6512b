//! Advisory strength feedback for a password, from the `zxcvbn` estimator.
//! The estimate never blocks a password; it only describes it.

use vstd::prelude::*;
use vstd::string::*;

verus! {

/// The qualitative tier of a score.
#[derive(Clone, Copy, Debug, PartialEq, Eq, Structural)]
pub enum StrengthLabel {
    Weak,
    Moderate,
    Strong,
    Unknown,
}

/// What the estimator says of one password.
#[derive(Debug)]
pub struct StrengthReport {
    /// The score, from 0 (guessed at once) to 4 (hard to guess).
    pub score: u8,
    /// What is wrong with the password, if the estimator names something.
    pub warning: Option<String>,
    /// Advice on choosing a better password, possibly none.
    pub suggestions: Vec<String>,
}

/// The estimator's advice on one password, as text.
#[derive(Debug)]
pub struct EstimatorFeedback {
    /// What is wrong with the password, if the estimator names something.
    pub warning: Option<String>,
    /// Advice on choosing a better password.
    pub suggestions: Vec<String>,
}

/// What the estimator returns for one password.
#[derive(Debug)]
pub struct Estimate {
    /// The score, from 0 to 4.
    pub score: u8,
    /// The advice, where the estimator gives any.
    pub feedback: Option<EstimatorFeedback>,
}

/// The longest password, in characters, that is handed to the estimator:
/// 20 where `usize` has 64 bits, 12 where it has fewer.
pub open spec fn spec_max_estimated_chars() -> nat {
    if usize::MAX > 0xFFFF_FFFF {
        20
    } else {
        12
    }
}

/// Whether the estimator can be asked about `password`: it is asked only
/// about passwords within the length on which its arithmetic stays in
/// range.
pub open spec fn is_estimable(password: Seq<char>) -> bool {
    password.len() <= spec_max_estimated_chars()
}

/// The longest password, in characters, that is handed to the estimator.
pub fn max_estimated_chars() -> (n: usize)
    ensures
        n == spec_max_estimated_chars(),
{
    if usize::MAX > 0xFFFF_FFFF {
        20
    } else {
        12
    }
}

/// Whether the estimator can be asked about `password`.
pub fn can_estimate(password: &str) -> (b: bool)
    ensures
        b == is_estimable(password@),
{
    password.unicode_len() <= max_estimated_chars()
}

/// The advice that the estimator gives where it has found no pattern to
/// speak of, as it does for the empty password.
pub open spec fn is_default_advice(suggestions: Seq<String>) -> bool {
    &&& suggestions.len() == 2
    &&& suggestions[0]@ == "Use a few words, avoid common phrases."@
    &&& suggestions[1]@ == "No need for symbols, digits, or uppercase letters."@
}

/// The advice that leads wherever the estimator has found a pattern in a
/// password and scores it 2 or less.
pub open spec fn leading_advice() -> Seq<char> {
    "Add another word or two. Uncommon words are better."@
}

/// What holds of every report that the estimator can give for `password`.
/// The score is at most 4. The empty password scores 0 and gets no warning
/// and the default advice. Any other password gets, at a score of 2 or
/// less, suggestions of which the first is the leading advice, and at a
/// score of 3 or 4 neither warning nor suggestions.
pub open spec fn is_report_for(password: Seq<char>, report: StrengthReport) -> bool {
    &&& report.score <= 4
    &&& if password.len() == 0 {
        &&& report.score == 0
        &&& report.warning is None
        &&& is_default_advice(report.suggestions@)
    } else if report.score <= 2 {
        &&& report.suggestions@.len() >= 1
        &&& report.suggestions@[0]@ == leading_advice()
    } else {
        &&& report.warning is None
        &&& report.suggestions@.len() == 0
    }
}

/// The tier of a score: 0 and 1 are weak, 2 and 3 moderate, 4 is strong, and
/// any other number has no known tier.
pub open spec fn label_of(score: u8) -> StrengthLabel {
    if score <= 1 {
        StrengthLabel::Weak
    } else if score <= 3 {
        StrengthLabel::Moderate
    } else if score == 4 {
        StrengthLabel::Strong
    } else {
        StrengthLabel::Unknown
    }
}

/// The tier of a score.
pub fn strength_label(score: u8) -> (label: StrengthLabel)
    ensures
        label == label_of(score),
{
    match score {
        0 | 1 => StrengthLabel::Weak,
        2 | 3 => StrengthLabel::Moderate,
        4 => StrengthLabel::Strong,
        _ => StrengthLabel::Unknown,
    }
}

impl StrengthLabel {
    /// The sentence that describes the tier.
    pub open spec fn spec_description(self) -> Seq<char> {
        match self {
            StrengthLabel::Weak => "Weak password - consider adding more characters or complexity"@,
            StrengthLabel::Moderate => "Moderate password strength"@,
            StrengthLabel::Strong => "Strong password"@,
            StrengthLabel::Unknown => "Unknown password strength score"@,
        }
    }

    /// The sentence that describes the tier.
    pub fn description(&self) -> (text: &'static str)
        ensures
            text@ == self.spec_description(),
    {
        match self {
            StrengthLabel::Weak => "Weak password - consider adding more characters or complexity",
            StrengthLabel::Moderate => "Moderate password strength",
            StrengthLabel::Strong => "Strong password",
            StrengthLabel::Unknown => "Unknown password strength score",
        }
    }
}

impl StrengthReport {
    /// The tier of the report's score.
    pub fn label(&self) -> (label: StrengthLabel)
        ensures
            label == label_of(self.score),
    {
        strength_label(self.score)
    }
}

/// `zxcvbn::zxcvbn` on the password, with no user inputs; the score as the
/// number that the crate's conversion to `u8` gives, the feedback as the
/// texts that the crate prints for it.
///
/// Required: the password is within `spec_max_estimated_chars` characters.
/// The estimator computes the factorial of the number of matches in a
/// candidate sequence in `usize`, a power of the keyboard's average degree
/// by the number of turns of a keyboard walk in `u64`, and the product of a
/// dictionary rank with the counts of capitalisations and of substitutions
/// in `u64`, none of them guarded; on long passwords these overflow, which
/// panics where overflow is checked. A password of `n` characters has at
/// most `n` matches in a sequence and fewer than `n` turns, its counts are
/// below `2^n` each, and no rank is above 30000: within the bound 20!, 8^19
/// and 30000 * 2^41 fit in 64 bits, and 12! fits in 32.
///
/// The estimate depends on the current year and on the order in which the
/// estimator walks its hash maps, as well as on the password, so only this
/// is claimed, which holds of every outcome. The score is at most 4.
/// Feedback that is given holds a suggestion. The empty password scores 0,
/// with no warning and the default advice. For any other password feedback
/// is given exactly at a score of 2 or less, and its first suggestion is
/// the leading advice.
#[verifier::external_body]
fn estimate(password: &str) -> (r: Estimate)
    requires
        is_estimable(password@),
    ensures
        r.score <= 4,
        r.feedback is None ==> r.score >= 3,
        r.feedback matches Some(f) ==> f.suggestions@.len() >= 1,
        password@.len() == 0 ==> r.score == 0,
        password@.len() == 0 ==> r.feedback is Some,
        password@.len() == 0 ==> r.feedback.unwrap().warning is None,
        password@.len() == 0 ==> is_default_advice(r.feedback.unwrap().suggestions@),
        password@.len() > 0 ==> (r.feedback is Some <==> r.score <= 2),
        password@.len() > 0 && r.feedback is Some ==> r.feedback.unwrap().suggestions@[0]@
            == leading_advice(),
{
    let entropy = zxcvbn::zxcvbn(password, &[]);
    let feedback = entropy.feedback().map(
        |f| EstimatorFeedback {
            warning: f.warning().map(|w| w.to_string()),
            suggestions: f.suggestions().iter().map(|s| s.to_string()).collect(),
        },
    );
    Estimate { score: u8::from(entropy.score()), feedback }
}

/// The report for an estimate: its score as it is, the warning and the
/// suggestions of its feedback, and neither warning nor suggestions where
/// it holds no feedback.
pub fn strength_report(estimate: Estimate) -> (report: StrengthReport)
    ensures
        report.score == estimate.score,
        match estimate.feedback {
            Some(f) => report.warning == f.warning && report.suggestions == f.suggestions,
            None => report.warning is None && report.suggestions@.len() == 0,
        },
{
    let score = estimate.score;
    match estimate.feedback {
        Some(f) => StrengthReport { score, warning: f.warning, suggestions: f.suggestions },
        None => StrengthReport { score, warning: None, suggestions: Vec::new() },
    }
}

/// Estimates the strength of `password`, which must be one that the
/// estimator can be asked about (`can_estimate` tells). The estimate is the
/// estimator's own; the report holds what `is_report_for` says of every
/// estimate for this password, and its score has a known tier.
pub fn evaluate_password_strength(password: &str) -> (report: StrengthReport)
    requires
        is_estimable(password@),
    ensures
        is_report_for(password@, report),
        label_of(report.score) != StrengthLabel::Unknown,
{
    strength_report(estimate(password))
}

/// Estimates the strength of `password` where the estimator can be asked
/// about it, and gives no report where it cannot.
pub fn try_evaluate_password_strength(password: &str) -> (report: Option<StrengthReport>)
    ensures
        report is Some <==> is_estimable(password@),
        report matches Some(r) ==> is_report_for(password@, r),
{
    if can_estimate(password) {
        Some(evaluate_password_strength(password))
    } else {
        None
    }
}

} // verus!
