//! The background loop of a session, as a machine that is driven from
//! outside.
//!
//! The loop asks the model for a few tokens at a time, so that a pause, a new
//! mix or a cancellation takes hold within one short step. Waiting and
//! talking to the model are the caller's part. The caller hands each event to
//! the machine — that it is time to look at the slot again, or that the model
//! has answered — under the slot's lock, and gets back what to publish and
//! what to do next.

use vstd::prelude::*;
use crate::error::MixError;
use crate::protocol::{
    build_step_request, messages_view, step_request, ChatMessage, CompletionRequest, MessageView,
    RequestView,
};
use crate::session::{MixingSession, SessionState, StoreView, fresh_session};
use crate::think::{ends_inside, strip_think_tags, visible_text};

verus! {

/// How long the loop waits before it looks again at a paused session, in
/// milliseconds.
pub const PAUSE_POLL_MS: u64 = 100;

/// How long the loop waits before it looks again at a session whose prompt
/// is being recomputed, in milliseconds.
pub const MIXING_POLL_MS: u64 = 50;

/// The most tokens that one session may ask for, whatever the caller wants.
pub const MAX_TOKEN_BUDGET: i64 = 2048;

/// The number of tokens that one step counts for.
pub const TOKENS_PER_STEP: i64 = 2;

/// The status that the completion notification carries.
pub const COMPLETE_STATUS: &'static str = "complete";

/// The name under which a token notification is published.
pub const TOKEN_EVENT: &'static str = "llm:token";

/// The name under which a status notification is published.
pub const STATUS_EVENT: &'static str = "llm:status";

/// The name under which an error notification is published.
pub const ERROR_EVENT: &'static str = "llm:error";

/// The name under which the completion notification is published.
pub const COMPLETE_EVENT: &'static str = "llm:complete";

/// Why a loop ended.
#[derive(Clone, Copy, Debug, PartialEq, Eq, Structural)]
pub enum ExitReason {
    /// Cancellation was asked for, or another session took the slot.
    Cancelled,
    /// The session was found already ended.
    SessionEnded,
    /// The model had nothing more to say.
    NaturalStop,
    /// The session has asked for as many tokens as it may.
    TokenBudget,
    /// A call to the model failed.
    Error,
}

/// Where a loop stands.
#[derive(Clone, Copy, Debug, PartialEq, Eq, Structural)]
pub enum LoopPhase {
    /// About to look at the slot.
    Polling,
    /// A call to the model is under way; `delay_ms` is the pause that was in
    /// force when the call was made.
    AwaitingReply { delay_ms: u64 },
    /// Ended, for the reason given.
    Finished(ExitReason),
}

/// What the caller is to do next.
#[derive(Clone, Debug, PartialEq, Eq)]
pub enum LoopAction {
    /// Wait this many milliseconds, then poll.
    Sleep(u64),
    /// Send the request to the model, then hand in the reply.
    Call(CompletionRequest),
    /// Stop driving the loop.
    Stop(ExitReason),
}

/// A `LoopAction` as plain values.
pub enum ActionView {
    Sleep(u64),
    Call(RequestView),
    Stop(ExitReason),
}

impl View for LoopAction {
    type V = ActionView;

    open spec fn view(&self) -> ActionView {
        match self {
            LoopAction::Sleep(ms) => ActionView::Sleep(*ms),
            LoopAction::Call(request) => ActionView::Call(request@),
            LoopAction::Stop(reason) => ActionView::Stop(*reason),
        }
    }
}

/// What one event leads to: the notifications to publish, in the order
/// token, error, completion, and what to do next.
#[derive(Clone, Debug, PartialEq, Eq)]
pub struct LoopStep {
    /// The text of a token notification.
    pub token: Option<String>,
    /// The text of an error notification.
    pub error: Option<String>,
    /// Whether the completion notification is due.
    pub complete: bool,
    /// What to do next.
    pub action: LoopAction,
}

/// A `LoopStep` as plain values.
pub struct StepView {
    pub token: Option<Seq<char>>,
    pub error: Option<Seq<char>>,
    pub complete: bool,
    pub action: ActionView,
}

impl View for LoopStep {
    type V = StepView;

    open spec fn view(&self) -> StepView {
        StepView {
            token: match self.token {
                Some(text) => Some(text@),
                None => None,
            },
            error: match self.error {
                Some(text) => Some(text@),
                None => None,
            },
            complete: self.complete,
            action: self.action@,
        }
    }
}

/// The state that one loop carries from event to event.
#[derive(Debug)]
pub struct StreamingLoop {
    session_id: u64,
    history: Vec<ChatMessage>,
    token_budget: i64,
    token_count: i64,
    in_think: bool,
    phase: LoopPhase,
}

/// A loop as plain values.
pub struct LoopView {
    /// The identity of the session that the loop works for.
    pub session_id: nat,
    /// The conversation that precedes the session; it never changes.
    pub history: Seq<MessageView>,
    /// The number of tokens that the session may ask for.
    pub token_budget: int,
    /// The number of tokens asked for so far.
    pub token_count: int,
    /// Whether the model's output so far ends inside a reasoning block.
    pub in_think: bool,
    pub phase: LoopPhase,
}

impl LoopView {
    /// What holds of every loop: the budget is capped, and a loop that has
    /// not ended has not used its budget up.
    pub open spec fn wf(self) -> bool {
        &&& self.token_budget <= MAX_TOKEN_BUDGET
        &&& self.token_count >= 0
        &&& self.phase is Finished || self.token_count == 0 || self.token_count
            < self.token_budget
    }
}

/// The loop of a session that starts: nothing asked for yet, outside any
/// reasoning block, with a budget of `max_tokens` but no more than 2048.
pub open spec fn initial_loop(session_id: nat, history: Seq<MessageView>, max_tokens: int) -> LoopView {
    LoopView {
        session_id,
        history,
        token_budget: if max_tokens < MAX_TOKEN_BUDGET {
            max_tokens
        } else {
            MAX_TOKEN_BUDGET as int
        },
        token_count: 0,
        in_think: false,
        phase: LoopPhase::Polling,
    }
}

/// The loop and the slot after an event, and what the event led to.
pub struct Outcome {
    pub lp: LoopView,
    pub store: StoreView,
    pub step: StepView,
}

/// A step that publishes nothing.
pub open spec fn quiet_step(action: ActionView) -> StepView {
    StepView { token: None, error: None, complete: false, action }
}

/// The end of a loop: the loop is finished, its session — if it is still the
/// one in the slot — is marked as ended, and the completion notification is
/// due, after the token or the error that the last event brought.
pub open spec fn exit_outcome(
    lp: LoopView,
    store: StoreView,
    reason: ExitReason,
    token: Option<Seq<char>>,
    error: Option<Seq<char>>,
) -> Outcome {
    Outcome {
        lp: LoopView { phase: LoopPhase::Finished(reason), ..lp },
        store: store.ended(lp.session_id),
        step: StepView { token, error, complete: true, action: ActionView::Stop(reason) },
    }
}

/// What a look at the slot leads to.
///
/// A finished loop stays finished and publishes nothing. Otherwise, in this
/// order: if the loop's session is no longer in the slot, or cancellation
/// was asked for, the loop ends as cancelled; if the session has ended, the
/// loop ends; if the session is paused or its prompt is being recomputed,
/// the loop waits; else it asks the model for the next step, with the
/// session's composite prompt, the conversation, and what the model has
/// produced so far.
pub open spec fn poll_model(lp: LoopView, store: StoreView) -> Outcome {
    match lp.phase {
        LoopPhase::Finished(reason) => Outcome {
            lp,
            store,
            step: quiet_step(ActionView::Stop(reason)),
        },
        _ => match store.session {
            Some(s) if store.generation == lp.session_id => {
                if s.cancel_requested {
                    exit_outcome(lp, store, ExitReason::Cancelled, None, None)
                } else if !s.active {
                    exit_outcome(lp, store, ExitReason::SessionEnded, None, None)
                } else if s.paused {
                    Outcome {
                        lp: LoopView { phase: LoopPhase::Polling, ..lp },
                        store,
                        step: quiet_step(ActionView::Sleep(PAUSE_POLL_MS)),
                    }
                } else if s.mixing {
                    Outcome {
                        lp: LoopView { phase: LoopPhase::Polling, ..lp },
                        store,
                        step: quiet_step(ActionView::Sleep(MIXING_POLL_MS)),
                    }
                } else {
                    Outcome {
                        lp: LoopView {
                            phase: LoopPhase::AwaitingReply { delay_ms: s.delay_ms },
                            ..lp
                        },
                        store,
                        step: quiet_step(
                            ActionView::Call(
                                step_request(s.composite_prompt, lp.history, s.generated_text),
                            ),
                        ),
                    }
                }
            },
            _ => exit_outcome(lp, store, ExitReason::Cancelled, None, None),
        },
    }
}

/// What the model's reply leads to.
///
/// A reply that no call is waiting for changes nothing. If the loop's
/// session is no longer in the slot, the reply is dropped and the loop ends
/// as cancelled. A failure is published and ends the loop. An empty text
/// ends the loop. Any other text is added, as it came, to what the session
/// has generated; what is visible of it is published as a token; the step
/// counts against the budget, and the loop either ends on the budget or
/// waits for the pause that was in force when the call was made.
pub open spec fn reply_model(lp: LoopView, store: StoreView, reply: Result<String, MixError>) -> Outcome {
    match lp.phase {
        LoopPhase::AwaitingReply { delay_ms } => {
            if !store.holds(lp.session_id) {
                exit_outcome(lp, store, ExitReason::Cancelled, None, None)
            } else {
                match reply {
                    Err(e) => exit_outcome(
                        lp,
                        store,
                        ExitReason::Error,
                        None,
                        Some(e.message_text()),
                    ),
                    Ok(text) => if text@.len() == 0 {
                        exit_outcome(lp, store, ExitReason::NaturalStop, None, None)
                    } else {
                        let shown = visible_text(text@, lp.in_think);
                        let token = if shown.len() > 0 {
                            Some(shown)
                        } else {
                            None
                        };
                        let advanced = LoopView {
                            token_count: lp.token_count + TOKENS_PER_STEP,
                            in_think: ends_inside(text@, lp.in_think),
                            ..lp
                        };
                        let grown = store.extended(lp.session_id, text@);
                        if advanced.token_count >= lp.token_budget {
                            exit_outcome(advanced, grown, ExitReason::TokenBudget, token, None)
                        } else {
                            Outcome {
                                lp: LoopView { phase: LoopPhase::Polling, ..advanced },
                                store: grown,
                                step: StepView {
                                    token,
                                    error: None,
                                    complete: false,
                                    action: ActionView::Sleep(delay_ms),
                                },
                            }
                        }
                    },
                }
            }
        },
        LoopPhase::Polling => Outcome { lp, store, step: quiet_step(ActionView::Sleep(0)) },
        LoopPhase::Finished(reason) => Outcome {
            lp,
            store,
            step: quiet_step(ActionView::Stop(reason)),
        },
    }
}

impl View for StreamingLoop {
    type V = LoopView;

    closed spec fn view(&self) -> LoopView {
        LoopView {
            session_id: self.session_id as nat,
            history: messages_view(self.history@),
            token_budget: self.token_budget as int,
            token_count: self.token_count as int,
            in_think: self.in_think,
            phase: self.phase,
        }
    }
}

/// What the slot shows of the loop's session, as far as the loop's next move
/// depends on it.
enum Sight {
    Gone,
    Cancelled,
    Ended,
    Paused,
    Mixing,
    Ready(CompletionRequest, u64),
}

impl StreamingLoop {
    #[verifier::type_invariant]
    spec fn well_formed(self) -> bool {
        self@.wf()
    }

    /// The loop for the session with identity `session_id`.
    pub fn new(session_id: u64, history: Vec<ChatMessage>, max_tokens: i64) -> (out: Self)
        ensures
            out@ == initial_loop(session_id as nat, messages_view(history@), max_tokens as int),
    {
        let token_budget = if max_tokens < MAX_TOKEN_BUDGET {
            max_tokens
        } else {
            MAX_TOKEN_BUDGET
        };
        StreamingLoop {
            session_id,
            history,
            token_budget,
            token_count: 0,
            in_think: false,
            phase: LoopPhase::Polling,
        }
    }

    /// The identity of the session that the loop works for.
    pub fn session_id(&self) -> (out: u64)
        ensures
            out == self@.session_id,
    {
        self.session_id
    }

    /// Where the loop stands.
    pub fn phase(&self) -> (out: LoopPhase)
        ensures
            out == self@.phase,
    {
        self.phase
    }

    /// The number of tokens asked for so far.
    pub fn token_count(&self) -> (out: i64)
        ensures
            out == self@.token_count,
    {
        self.token_count
    }

    /// The number of tokens that the session may ask for.
    pub fn token_budget(&self) -> (out: i64)
        ensures
            out == self@.token_budget,
    {
        self.token_budget
    }

    fn look(&self, store: &SessionState) -> (out: Sight)
        ensures
            match out {
                Sight::Gone => !store@.holds(self@.session_id),
                Sight::Cancelled => store@.holds(self@.session_id)
                    && store@.session->0.cancel_requested,
                Sight::Ended => store@.holds(self@.session_id) && {
                    let s = store@.session->0;
                    !s.cancel_requested && !s.active
                },
                Sight::Paused => store@.holds(self@.session_id) && {
                    let s = store@.session->0;
                    !s.cancel_requested && s.active && s.paused
                },
                Sight::Mixing => store@.holds(self@.session_id) && {
                    let s = store@.session->0;
                    !s.cancel_requested && s.active && !s.paused && s.mixing
                },
                Sight::Ready(request, delay_ms) => store@.holds(self@.session_id) && {
                    let s = store@.session->0;
                    &&& !s.cancel_requested && s.active && !s.paused && !s.mixing
                    &&& delay_ms == s.delay_ms
                    &&& request@ == step_request(
                        s.composite_prompt,
                        self@.history,
                        s.generated_text,
                    )
                },
            },
    {
        if store.generation() != self.session_id {
            return Sight::Gone;
        }
        match store.session() {
            None => Sight::Gone,
            Some(s) => {
                if s.cancel_token {
                    Sight::Cancelled
                } else if !s.is_active {
                    Sight::Ended
                } else if s.is_paused {
                    Sight::Paused
                } else if s.is_mixing {
                    Sight::Mixing
                } else {
                    let request = build_step_request(
                        s.current_promx.as_str(),
                        &self.history,
                        s.generated_text.as_str(),
                    );
                    Sight::Ready(request, s.midtoken_sleep_ms)
                }
            },
        }
    }

    fn finish(
        &mut self,
        store: &mut SessionState,
        reason: ExitReason,
        token: Option<String>,
        error: Option<String>,
    ) -> (step: LoopStep)
        ensures
            (Outcome { lp: final(self)@, store: final(store)@, step: step@ }) == exit_outcome(
                old(self)@,
                old(store)@,
                reason,
                match token {
                    Some(text) => Some(text@),
                    None => None,
                },
                match error {
                    Some(text) => Some(text@),
                    None => None,
                },
            ),
    {
        proof {
            use_type_invariant(&*self);
        }
        self.phase = LoopPhase::Finished(reason);
        store.end_session(self.session_id);
        LoopStep { token, error, complete: true, action: LoopAction::Stop(reason) }
    }

    /// Looks at the slot and decides what comes next. See `poll_model`.
    pub fn poll(&mut self, store: &mut SessionState) -> (step: LoopStep)
        ensures
            (Outcome { lp: final(self)@, store: final(store)@, step: step@ }) == poll_model(
                old(self)@,
                old(store)@,
            ),
    {
        proof {
            use_type_invariant(&*self);
        }
        if let LoopPhase::Finished(reason) = self.phase {
            return LoopStep {
                token: None,
                error: None,
                complete: false,
                action: LoopAction::Stop(reason),
            };
        }
        match self.look(store) {
            Sight::Gone => self.finish(store, ExitReason::Cancelled, None, None),
            Sight::Cancelled => self.finish(store, ExitReason::Cancelled, None, None),
            Sight::Ended => self.finish(store, ExitReason::SessionEnded, None, None),
            Sight::Paused => {
                self.phase = LoopPhase::Polling;
                LoopStep {
                    token: None,
                    error: None,
                    complete: false,
                    action: LoopAction::Sleep(PAUSE_POLL_MS),
                }
            },
            Sight::Mixing => {
                self.phase = LoopPhase::Polling;
                LoopStep {
                    token: None,
                    error: None,
                    complete: false,
                    action: LoopAction::Sleep(MIXING_POLL_MS),
                }
            },
            Sight::Ready(request, delay_ms) => {
                self.phase = LoopPhase::AwaitingReply { delay_ms };
                LoopStep {
                    token: None,
                    error: None,
                    complete: false,
                    action: LoopAction::Call(request),
                }
            },
        }
    }

    /// Takes the model's reply to the call that `poll` asked for and decides
    /// what comes next. See `reply_model`.
    pub fn on_reply(&mut self, store: &mut SessionState, reply: Result<String, MixError>) -> (step:
        LoopStep)
        ensures
            (Outcome { lp: final(self)@, store: final(store)@, step: step@ }) == reply_model(
                old(self)@,
                old(store)@,
                reply,
            ),
    {
        proof {
            use_type_invariant(&*self);
        }
        let delay_ms = match self.phase {
            LoopPhase::AwaitingReply { delay_ms } => delay_ms,
            LoopPhase::Polling => {
                return LoopStep {
                    token: None,
                    error: None,
                    complete: false,
                    action: LoopAction::Sleep(0),
                };
            },
            LoopPhase::Finished(reason) => {
                return LoopStep {
                    token: None,
                    error: None,
                    complete: false,
                    action: LoopAction::Stop(reason),
                };
            },
        };
        if store.generation() != self.session_id || store.session().is_none() {
            return self.finish(store, ExitReason::Cancelled, None, None);
        }
        match reply {
            Err(e) => {
                let text = e.message();
                self.finish(store, ExitReason::Error, None, Some(text))
            },
            Ok(text) => {
                if text.as_str().is_empty() {
                    return self.finish(store, ExitReason::NaturalStop, None, None);
                }
                store.append_generated(self.session_id, text.as_str());
                let mut in_think = self.in_think;
                let shown = strip_think_tags(text.as_str(), &mut in_think);
                let token = if shown.as_str().is_empty() {
                    None
                } else {
                    Some(shown)
                };
                let count = self.token_count + TOKENS_PER_STEP;
                if count >= self.token_budget {
                    self.phase = LoopPhase::Finished(ExitReason::TokenBudget);
                    self.token_count = count;
                    self.in_think = in_think;
                    store.end_session(self.session_id);
                    LoopStep {
                        token,
                        error: None,
                        complete: true,
                        action: LoopAction::Stop(ExitReason::TokenBudget),
                    }
                } else {
                    self.token_count = count;
                    self.in_think = in_think;
                    self.phase = LoopPhase::Polling;
                    LoopStep {
                        token,
                        error: None,
                        complete: false,
                        action: LoopAction::Sleep(delay_ms),
                    }
                }
            },
        }
    }
}

/// The slot once a session with the given composite prompt has started.
pub open spec fn store_after_start(store: StoreView, composite_prompt: Seq<char>) -> StoreView {
    StoreView {
        session: Some(fresh_session(composite_prompt)),
        generation: store.generation + 1,
    }
}

/// The slot after an attempt to start a session: with the new session if
/// the composition gave a prompt, and as it was if the composition failed.
pub open spec fn slot_after_start(store: StoreView, composed: Result<String, MixError>) -> StoreView {
    match composed {
        Ok(prompt) => store_after_start(store, prompt@),
        Err(_) => store,
    }
}

/// Starts a session, given the outcome of the composition.
///
/// If the composition failed, its failure is returned and the slot stays as
/// it is. Otherwise a new session takes the slot — whatever session was
/// there is thereby replaced, and its loop will end as cancelled — with the
/// composite prompt exactly as it was composed, and the loop to drive in the
/// background is returned.
pub fn start_mixing_session(
    session: &mut SessionState,
    history: Vec<ChatMessage>,
    composed: Result<String, MixError>,
    max_tokens: i64,
) -> (out: Result<StreamingLoop, MixError>)
    requires
        composed is Ok ==> old(session)@.generation < u64::MAX,
    ensures
        final(session)@ == slot_after_start(old(session)@, composed),
        match composed {
            Ok(_) => out matches Ok(lp) && lp@ == initial_loop(
                final(session)@.generation,
                messages_view(history@),
                max_tokens as int,
            ),
            Err(e) => out matches Err(f) && f == e,
        },
{
    match composed {
        Ok(prompt) => {
            let id = session.install(MixingSession::new(prompt));
            Ok(StreamingLoop::new(id, history, max_tokens))
        },
        Err(e) => Err(e),
    }
}

} // verus!
