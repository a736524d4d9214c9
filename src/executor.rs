//! The confirmation-gated executor: it owns at most one dangerous command that
//! waits for the user's confirmation, and expires it after a timeout.
use vstd::prelude::*;
use crate::text::{ascii_lowercase, lower_spec, trim, trimmed};

verus! {

/// `serde_json::Value`, carried unopened as the parameters of a command.
#[verifier::external_type_specification]
#[verifier::external_body]
pub struct ExJsonValue(serde_json::Value);

/// A command chosen by the intent classifier for one transcript.
pub struct RoutedIntent {
    /// The allow-listed command, if one matched.
    pub command_id: Option<String>,
    /// The command's arguments, as the classifier gave them.
    pub parameters: serde_json::Value,
    /// Confidence of the deterministic matcher, in thousandths (0 to 1000).
    pub deterministic_score: Option<u32>,
    /// Whether the command needs an explicit confirmation before it runs.
    pub dangerous: bool,
}

/// A dangerous command that waits for confirmation.
pub struct PendingConfirmation {
    pub request_id: u64,
    pub intent: RoutedIntent,
    pub created_at_ms: u64,
    pub timeout_ms: u64,
}

/// What the executor did with a request. `Executed` hands the command to the
/// caller, which runs it.
pub enum ExecStatus {
    Executed(RoutedIntent),
    AwaitingConfirmation(u64),
    AlreadyPending(u64),
    StillPending(u64),
    Canceled(u64),
    Expired(u64),
    NothingPending,
}

/// The abstract state of an executor.
pub struct ExecState {
    pub pending: Option<PendingConfirmation>,
    pub timeout_ms: u64,
    pub next_id: u64,
}

pub struct Executor {
    pending: Option<PendingConfirmation>,
    timeout_ms: u64,
    next_id: u64,
}

impl View for Executor {
    type V = ExecState;

    closed spec fn view(&self) -> ExecState {
        ExecState { pending: self.pending, timeout_ms: self.timeout_ms, next_id: self.next_id }
    }
}

/// The affirmative replies to a confirmation request, in normalised form.
pub open spec fn is_affirmative(s: Seq<char>) -> bool {
    s == "yes"@ || s == "confirm"@ || s == "do it"@
}

/// The negative replies to a confirmation request, in normalised form.
pub open spec fn is_negative(s: Seq<char>) -> bool {
    s == "no"@ || s == "cancel"@ || s == "stop"@
}

/// Whether a pending confirmation created at `created` with `timeout` has
/// expired at `now`.
pub open spec fn expired_at(created: u64, timeout: u64, now: u64) -> bool {
    now >= created + timeout
}

/// The identifier that follows `id`.
pub open spec fn next_request_id(id: u64) -> u64 {
    if id < u64::MAX {
        (id + 1) as u64
    } else {
        0
    }
}

/// The executor after `intent` was routed to it at `now`, and what it reports.
pub open spec fn route_spec(s: ExecState, intent: RoutedIntent, now: u64) -> (ExecState, ExecStatus) {
    if !intent.dangerous {
        (s, ExecStatus::Executed(intent))
    } else if s.pending is Some {
        (s, ExecStatus::AlreadyPending(s.pending->0.request_id))
    } else {
        (
            ExecState {
                pending: Some(
                    PendingConfirmation {
                        request_id: s.next_id,
                        intent,
                        created_at_ms: now,
                        timeout_ms: s.timeout_ms,
                    },
                ),
                timeout_ms: s.timeout_ms,
                next_id: next_request_id(s.next_id),
            },
            ExecStatus::AwaitingConfirmation(s.next_id),
        )
    }
}

/// The executor after a confirmation, and what it reports.
pub open spec fn confirm_spec(s: ExecState) -> (ExecState, ExecStatus) {
    match s.pending {
        Some(p) => (ExecState { pending: None, ..s }, ExecStatus::Executed(p.intent)),
        None => (s, ExecStatus::NothingPending),
    }
}

/// The executor after a cancellation, and what it reports.
pub open spec fn cancel_spec(s: ExecState) -> (ExecState, ExecStatus) {
    match s.pending {
        Some(p) => (ExecState { pending: None, ..s }, ExecStatus::Canceled(p.request_id)),
        None => (s, ExecStatus::NothingPending),
    }
}

/// The executor after a clock tick at `now`, and what it reports.
pub open spec fn tick_spec(s: ExecState, now: u64) -> (ExecState, ExecStatus) {
    match s.pending {
        Some(p) => if expired_at(p.created_at_ms, p.timeout_ms, now) {
            (ExecState { pending: None, ..s }, ExecStatus::Expired(p.request_id))
        } else {
            (s, ExecStatus::StillPending(p.request_id))
        },
        None => (s, ExecStatus::NothingPending),
    }
}

/// The executor after a normalised confirmation reply, and what it reports:
/// anything but an affirmative or a negative reply changes nothing.
pub open spec fn reply_spec(s: ExecState, norm: Seq<char>) -> (ExecState, ExecStatus) {
    if is_affirmative(norm) {
        confirm_spec(s)
    } else if is_negative(norm) {
        cancel_spec(s)
    } else {
        match s.pending {
            Some(p) => (s, ExecStatus::StillPending(p.request_id)),
            None => (s, ExecStatus::NothingPending),
        }
    }
}

/// A token read from the confirmation channel: trimmed and lower-cased.
pub open spec fn channel_token(raw: Seq<char>) -> Seq<char> {
    trimmed(raw).map_values(|c: char| lower_spec(c))
}

/// The executor after a confirmation-channel token, and what it reports:
/// "yes" confirms, "no" cancels, anything else changes nothing.
pub open spec fn token_spec(s: ExecState, raw: Seq<char>) -> (ExecState, ExecStatus) {
    let t = channel_token(raw);
    if t == "no"@ {
        cancel_spec(s)
    } else if t == "yes"@ {
        confirm_spec(s)
    } else {
        match s.pending {
            Some(p) => (s, ExecStatus::StillPending(p.request_id)),
            None => (s, ExecStatus::NothingPending),
        }
    }
}

/// Whether two strings hold the same characters.
pub fn same_text(a: &str, b: &str) -> (r: bool)
    ensures
        r == (a@ == b@),
{
    let x = crate::text::chars_of(a);
    let y = crate::text::chars_of(b);
    if x.len() != y.len() {
        return false;
    }
    let mut i: usize = 0;
    while i < x.len()
        invariant
            i <= x.len() == y.len(),
            x@ == a@,
            y@ == b@,
            forall|k: int| 0 <= k < i ==> x@[k] == y@[k],
        decreases x.len() - i,
    {
        if x[i] != y[i] {
            return false;
        }
        i = i + 1;
    }
    assert(x@ =~= y@);
    true
}

/// Whether a normalised reply confirms.
pub fn is_affirmative_reply(norm: &str) -> (r: bool)
    ensures
        r == is_affirmative(norm@),
{
    same_text(norm, "yes") || same_text(norm, "confirm") || same_text(norm, "do it")
}

/// Whether a normalised reply cancels.
pub fn is_negative_reply(norm: &str) -> (r: bool)
    ensures
        r == is_negative(norm@),
{
    same_text(norm, "no") || same_text(norm, "cancel") || same_text(norm, "stop")
}

impl Executor {
    /// An executor with nothing pending, whose confirmations expire after
    /// `timeout_ms`.
    pub fn new(timeout_ms: u64) -> (r: Self)
        ensures
            r@.pending is None,
            r@.timeout_ms == timeout_ms,
    {
        Executor { pending: None, timeout_ms, next_id: 1 }
    }

    pub fn has_pending(&self) -> (r: bool)
        ensures
            r == self@.pending is Some,
    {
        self.pending.is_some()
    }

    pub fn pending_request_id(&self) -> (r: Option<u64>)
        ensures
            r == (match self@.pending {
                Some(p) => Some(p.request_id),
                None => None,
            }),
    {
        match &self.pending {
            Some(p) => Some(p.request_id),
            None => None,
        }
    }

    /// Runs a harmless command at once; holds a dangerous one for
    /// confirmation, unless one is held already, which then stays as it was.
    pub fn handle_intent(&mut self, intent: RoutedIntent, now_ms: u64) -> (r: ExecStatus)
        ensures
            (final(self)@, r) == route_spec(old(self)@, intent, now_ms),
    {
        if !intent.dangerous {
            return ExecStatus::Executed(intent);
        }
        match &self.pending {
            Some(p) => {
                return ExecStatus::AlreadyPending(p.request_id);
            },
            None => {},
        }
        let id = self.next_id;
        self.next_id = if id < u64::MAX {
            id + 1
        } else {
            0
        };
        self.pending = Some(
            PendingConfirmation {
                request_id: id,
                intent,
                created_at_ms: now_ms,
                timeout_ms: self.timeout_ms,
            },
        );
        ExecStatus::AwaitingConfirmation(id)
    }

    /// Hands the pending command over for execution and forgets it.
    pub fn confirm_pending(&mut self) -> (r: ExecStatus)
        ensures
            (final(self)@, r) == confirm_spec(old(self)@),
    {
        match self.pending.take() {
            Some(p) => ExecStatus::Executed(p.intent),
            None => ExecStatus::NothingPending,
        }
    }

    /// Forgets the pending command without running it.
    pub fn cancel_pending(&mut self) -> (r: ExecStatus)
        ensures
            (final(self)@, r) == cancel_spec(old(self)@),
    {
        match self.pending.take() {
            Some(p) => ExecStatus::Canceled(p.request_id),
            None => ExecStatus::NothingPending,
        }
    }

    /// Expires the pending command once its timeout has passed at `now_ms`.
    pub fn handle_tick(&mut self, now_ms: u64) -> (r: ExecStatus)
        ensures
            (final(self)@, r) == tick_spec(old(self)@, now_ms),
    {
        let expired = match &self.pending {
            Some(p) => {
                if now_ms >= p.created_at_ms && now_ms - p.created_at_ms >= p.timeout_ms {
                    Some(p.request_id)
                } else {
                    return ExecStatus::StillPending(p.request_id);
                }
            },
            None => None,
        };
        match expired {
            Some(id) => {
                self.pending = None;
                ExecStatus::Expired(id)
            },
            None => ExecStatus::NothingPending,
        }
    }

    /// Acts on a token that the out-of-process confirmation channel delivered
    /// for the pending request.
    pub fn handle_channel_token(&mut self, raw: &str) -> (r: ExecStatus)
        ensures
            (final(self)@, r) == token_spec(old(self)@, raw@),
    {
        let t = ascii_lowercase(trim(raw).as_str());
        if same_text(t.as_str(), "no") {
            self.cancel_pending()
        } else if same_text(t.as_str(), "yes") {
            self.confirm_pending()
        } else {
            match &self.pending {
                Some(p) => ExecStatus::StillPending(p.request_id),
                None => ExecStatus::NothingPending,
            }
        }
    }

    /// Confirms on an affirmative reply, cancels on a negative one, and
    /// ignores anything else.
    pub fn handle_confirmation_text(&mut self, norm: &str) -> (r: ExecStatus)
        ensures
            (final(self)@, r) == reply_spec(old(self)@, norm@),
    {
        if is_affirmative_reply(norm) {
            self.confirm_pending()
        } else if is_negative_reply(norm) {
            self.cancel_pending()
        } else {
            match &self.pending {
                Some(p) => ExecStatus::StillPending(p.request_id),
                None => ExecStatus::NothingPending,
            }
        }
    }
}

/// A tick at or after the pending command's deadline always discards it,
/// and reports its expiry: it is never executed.
pub proof fn lemma_tick_expires(s: ExecState, now: u64, s2: ExecState, r: ExecStatus)
    requires
        s.pending is Some,
        now >= s.pending->0.created_at_ms + s.pending->0.timeout_ms,
        (s2, r) == tick_spec(s, now),
    ensures
        s2.pending is None,
        r == ExecStatus::Expired(s.pending->0.request_id),
        !(r is Executed),
{
}

/// Routing never creates a second pending confirmation: while one exists it
/// stays exactly as it was.
pub proof fn lemma_single_pending(
    s: ExecState,
    intent: RoutedIntent,
    now: u64,
    s2: ExecState,
    r: ExecStatus,
)
    requires
        s.pending is Some,
        (s2, r) == route_spec(s, intent, now),
    ensures
        s2.pending == s.pending,
{
}

} // verus!
