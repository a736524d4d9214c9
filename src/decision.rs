//! The transcript decision engine: a finished transcript is, in this order, a
//! reply to a pending confirmation, an allow-listed command, or a question.
use vstd::prelude::*;
use crate::executor::{
    reply_spec, route_spec, is_affirmative, is_negative, ExecState, ExecStatus, Executor,
    RoutedIntent,
};
use crate::text::{normalize_short, normalized, trim, trimmed};

verus! {

/// The settings that gate routing.
pub struct DecisionConfig {
    /// Least deterministic score, in thousandths, at which a command is taken.
    pub deterministic_threshold: u32,
    /// Whether questions go through the web-search workflow.
    pub search_enabled: bool,
}

/// What became of a transcript.
pub enum Decision {
    /// A confirmation reply, with what the executor did.
    Confirmation(ExecStatus),
    /// Something else said while a confirmation was pending.
    Ignored,
    /// An accepted command, with what the executor did.
    Command(ExecStatus),
    /// A question for the web-search workflow.
    SearchQuestion(String),
    /// A question for the language model alone.
    DirectQuestion(String),
    /// Nothing left to answer once trimmed.
    Empty,
}

/// The deterministic score of a routed intent; no score counts as zero.
pub open spec fn score_of(intent: RoutedIntent) -> u32 {
    match intent.deterministic_score {
        Some(s) => s,
        None => 0,
    }
}

/// Whether a routed intent passes the allow-list and the deterministic gate.
pub open spec fn accepted(intent: RoutedIntent, threshold: u32) -> bool {
    intent.command_id is Some && score_of(intent) >= threshold
}

/// How a question is dispatched, given the trimmed transcript.
pub open spec fn question_decision(q: Seq<char>, search_enabled: bool, d: Decision) -> bool {
    if q.len() == 0 {
        d is Empty
    } else if search_enabled {
        d matches Decision::SearchQuestion(s) && s@ == q
    } else {
        d matches Decision::DirectQuestion(s) && s@ == q
    }
}

/// The executor after `text`, with `routed` its classification, and what was
/// decided.
pub open spec fn decide_spec(
    text: Seq<char>,
    s: ExecState,
    routed: RoutedIntent,
    cfg: DecisionConfig,
    now: u64,
    s2: ExecState,
    d: Decision,
) -> bool {
    let norm = normalized(text);
    if s.pending is Some {
        if is_affirmative(norm) || is_negative(norm) {
            d matches Decision::Confirmation(st) && (s2, st) == reply_spec(s, norm)
        } else {
            s2 == s && d is Ignored
        }
    } else if accepted(routed, cfg.deterministic_threshold) {
        d matches Decision::Command(st) && (s2, st) == route_spec(s, routed, now)
    } else {
        s2 == s && question_decision(trimmed(text), cfg.search_enabled, d)
    }
}

/// Decides what `text` is, and acts on the executor where it is a
/// confirmation reply or an accepted command. `routed` is the intent
/// classifier's result for `text`; it is not looked at while a confirmation is
/// pending.
pub fn handle_transcript(
    text: &str,
    exec: &mut Executor,
    routed: RoutedIntent,
    cfg: &DecisionConfig,
    now_ms: u64,
) -> (r: Decision)
    ensures
        decide_spec(text@, old(exec)@, routed, *cfg, now_ms, final(exec)@, r),
{
    let norm = normalize_short(text);
    if exec.has_pending() {
        if !crate::executor::is_affirmative_reply(norm.as_str())
            && !crate::executor::is_negative_reply(norm.as_str()) {
            return Decision::Ignored;
        }
        let st = exec.handle_confirmation_text(norm.as_str());
        return Decision::Confirmation(st);
    }
    let score = match routed.deterministic_score {
        Some(s) => s,
        None => 0,
    };
    if routed.command_id.is_some() && score >= cfg.deterministic_threshold {
        let st = exec.handle_intent(routed, now_ms);
        return Decision::Command(st);
    }
    let question = trim(text);
    if question.as_str().is_empty() {
        Decision::Empty
    } else if cfg.search_enabled {
        Decision::SearchQuestion(question)
    } else {
        Decision::DirectQuestion(question)
    }
}

/// While a confirmation is pending, a transcript whose normalised form is
/// neither an affirmative nor a negative reply changes nothing and executes
/// nothing.
pub proof fn lemma_pending_ignores_other_input(
    text: Seq<char>,
    s: ExecState,
    routed: RoutedIntent,
    cfg: DecisionConfig,
    now: u64,
    s2: ExecState,
    d: Decision,
)
    requires
        s.pending is Some,
        !is_affirmative(normalized(text)),
        !is_negative(normalized(text)),
        decide_spec(text, s, routed, cfg, now, s2, d),
    ensures
        s2 == s,
        d is Ignored,
{
}

/// With nothing pending, a transcript whose deterministic score is below the
/// threshold is never a command, whatever command the classifier proposed: it
/// is handled as a question and the executor is untouched.
pub proof fn lemma_low_score_is_question(
    text: Seq<char>,
    s: ExecState,
    routed: RoutedIntent,
    cfg: DecisionConfig,
    now: u64,
    s2: ExecState,
    d: Decision,
)
    requires
        s.pending is None,
        score_of(routed) < cfg.deterministic_threshold,
        decide_spec(text, s, routed, cfg, now, s2, d),
    ensures
        s2 == s,
        !(d is Command),
        d is Empty || d is SearchQuestion || d is DirectQuestion,
{
}

} // verus!
