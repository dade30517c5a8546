//! The one session slot and the commands that steer the session in it.
//!
//! At most one session exists at a time. Starting a session replaces the one
//! in the slot and raises the slot's generation; a background loop that was
//! started for an earlier generation finds out by comparing numbers and
//! touches nothing from then on.

use vstd::prelude::*;
use crate::error::MixError;
use crate::text::{append_str, str_eq};

verus! {

/// The pause between two steps at speed `slow`, in milliseconds. A new
/// session starts at this speed.
pub const SLOW_DELAY_MS: u64 = 500;

/// The pause between two steps at speed `fast`, in milliseconds.
pub const FAST_DELAY_MS: u64 = 0;

/// The status that is published while the composite prompt is recomputed.
pub const MIXING_STATUS: &'static str = "Mixing";

/// The status that is published once a new composite prompt is in place.
pub const IDLE_STATUS: &'static str = "";

/// The record of one generation in progress.
#[derive(Clone, Debug, PartialEq, Eq)]
pub struct MixingSession {
    /// False once the session has ended, for whatever reason.
    pub is_active: bool,
    /// While true, no generation step is attempted.
    pub is_paused: bool,
    /// True while the composite prompt is being recomputed.
    pub is_mixing: bool,
    /// The pause after each step, in milliseconds.
    pub midtoken_sleep_ms: u64,
    /// The composite prompt in force.
    pub current_promx: String,
    /// Everything the model has produced, reasoning markup included.
    pub generated_text: String,
    /// True once cancellation has been asked for.
    pub cancel_token: bool,
}

/// A session as plain values.
pub struct SessionView {
    pub active: bool,
    pub paused: bool,
    pub mixing: bool,
    pub delay_ms: u64,
    pub composite_prompt: Seq<char>,
    pub generated_text: Seq<char>,
    pub cancel_requested: bool,
}

impl View for MixingSession {
    type V = SessionView;

    open spec fn view(&self) -> SessionView {
        SessionView {
            active: self.is_active,
            paused: self.is_paused,
            mixing: self.is_mixing,
            delay_ms: self.midtoken_sleep_ms,
            composite_prompt: self.current_promx@,
            generated_text: self.generated_text@,
            cancel_requested: self.cancel_token,
        }
    }
}

/// The session that `start` puts into the slot: running at speed `slow`,
/// with nothing generated yet.
pub open spec fn fresh_session(composite_prompt: Seq<char>) -> SessionView {
    SessionView {
        active: true,
        paused: false,
        mixing: false,
        delay_ms: SLOW_DELAY_MS,
        composite_prompt,
        generated_text: Seq::empty(),
        cancel_requested: false,
    }
}

impl MixingSession {
    /// A session as it is when it starts.
    pub fn new(composite_prompt: String) -> (out: Self)
        ensures
            out@ == fresh_session(composite_prompt@),
    {
        MixingSession {
            is_active: true,
            is_paused: false,
            is_mixing: false,
            midtoken_sleep_ms: SLOW_DELAY_MS,
            current_promx: composite_prompt,
            generated_text: String::new(),
            cancel_token: false,
        }
    }
}

/// The slot that holds the current session, if any was ever started.
#[derive(Debug)]
pub struct SessionState {
    session: Option<MixingSession>,
    generation: u64,
}

/// The slot as plain values: the session in it, and how many sessions have
/// been put into it so far. The session in the slot has that count as its
/// identity.
pub struct StoreView {
    pub session: Option<SessionView>,
    pub generation: nat,
}

impl StoreView {
    /// Whether the session with identity `id` is the one in the slot.
    pub open spec fn holds(self, id: nat) -> bool {
        self.generation == id && self.session is Some
    }

    /// Whether the session with identity `id` has been replaced.
    pub open spec fn has_replaced(self, id: nat) -> bool {
        self.generation > id
    }

    /// The slot with its session marked as ended, if `id` is the session in
    /// the slot; else the slot as it is.
    pub open spec fn ended(self, id: nat) -> StoreView {
        match self.session {
            Some(s) if self.generation == id => StoreView {
                session: Some(SessionView { active: false, ..s }),
                ..self
            },
            _ => self,
        }
    }

    /// The slot with `text` added to what its session has generated, if `id`
    /// is the session in the slot; else the slot as it is.
    pub open spec fn extended(self, id: nat, text: Seq<char>) -> StoreView {
        match self.session {
            Some(s) if self.generation == id => StoreView {
                session: Some(SessionView { generated_text: s.generated_text + text, ..s }),
                ..self
            },
            _ => self,
        }
    }
}

impl View for SessionState {
    type V = StoreView;

    closed spec fn view(&self) -> StoreView {
        StoreView {
            session: match self.session {
                Some(s) => Some(s@),
                None => None,
            },
            generation: self.generation as nat,
        }
    }
}

impl SessionState {
    /// An empty slot.
    pub fn new() -> (out: Self)
        ensures
            out@ == (StoreView { session: None, generation: 0 }),
    {
        SessionState { session: None, generation: 0 }
    }

    /// The session in the slot.
    pub fn session(&self) -> (out: Option<&MixingSession>)
        ensures
            match out {
                Some(s) => self@.session == Some(s@),
                None => self@.session is None,
            },
    {
        self.session.as_ref()
    }

    /// How many sessions have been put into the slot so far.
    pub fn generation(&self) -> (out: u64)
        ensures
            out == self@.generation,
    {
        self.generation
    }

    /// Whether another session can still be put into the slot.
    pub fn has_room(&self) -> (out: bool)
        ensures
            out == (self@.generation < u64::MAX),
    {
        self.generation < u64::MAX
    }

    /// Puts `session` into the slot in place of whatever was there, and
    /// returns its identity.
    pub fn install(&mut self, session: MixingSession) -> (id: u64)
        requires
            old(self)@.generation < u64::MAX,
        ensures
            id == old(self)@.generation + 1,
            final(self)@ == (StoreView { session: Some(session@), generation: id as nat }),
    {
        self.generation = self.generation + 1;
        self.session = Some(session);
        self.generation
    }

    /// Adds `text` to what the session with identity `id` has generated.
    /// Does nothing if that session is no longer the one in the slot.
    pub fn append_generated(&mut self, id: u64, text: &str)
        ensures
            final(self)@ == old(self)@.extended(id as nat, text@),
    {
        if self.generation == id {
            match &mut self.session {
                Some(s) => {
                    append_str(&mut s.generated_text, text);
                },
                None => {},
            }
        }
    }

    /// Marks the session with identity `id` as ended. Does nothing if that
    /// session is no longer the one in the slot.
    pub fn end_session(&mut self, id: u64)
        ensures
            final(self)@ == old(self)@.ended(id as nat),
    {
        if self.generation == id {
            match &mut self.session {
                Some(s) => {
                    s.is_active = false;
                },
                None => {},
            }
        }
    }
}

impl Default for SessionState {
    fn default() -> (out: Self)
        ensures
            out@ == (StoreView { session: None, generation: 0 }),
    {
        SessionState::new()
    }
}

/// The pause that a speed name stands for.
pub open spec fn delay_for_speed(name: Seq<char>) -> Option<u64> {
    if name == "slow"@ {
        Some(SLOW_DELAY_MS)
    } else if name == "fast"@ {
        Some(FAST_DELAY_MS)
    } else {
        None
    }
}

/// Pauses the session if it runs, resumes it if it is paused, and returns
/// whether it is paused now. Fails with `NoSession`, changing nothing, if no
/// session exists.
pub fn toggle_pause(session: &mut SessionState) -> (out: Result<bool, MixError>)
    ensures
        match old(session)@.session {
            Some(s) => out == Ok::<bool, MixError>(!s.paused) && final(session)@ == (StoreView {
                session: Some(SessionView { paused: !s.paused, ..s }),
                ..old(session)@
            }),
            None => out == Err::<bool, MixError>(MixError::NoSession) && final(session)@ == old(
                session,
            )@,
        },
{
    match &mut session.session {
        Some(s) => {
            s.is_paused = !s.is_paused;
            Ok(s.is_paused)
        },
        None => Err(MixError::NoSession),
    }
}

/// Sets the pause between steps: `slow` is 500 ms, `fast` is none. Any other
/// name fails with `UnknownSpeed` and leaves the pause as it was. Fails with
/// `NoSession` if no session exists.
pub fn set_speed(session: &mut SessionState, speed: &str) -> (out: Result<(), MixError>)
    ensures
        match old(session)@.session {
            Some(s) => match delay_for_speed(speed@) {
                Some(delay) => out == Ok::<(), MixError>(()) && final(session)@ == (StoreView {
                    session: Some(SessionView { delay_ms: delay, ..s }),
                    ..old(session)@
                }),
                None => final(session)@ == old(session)@ && (out matches Err(
                    MixError::UnknownSpeed(name),
                ) && name@ == speed@),
            },
            None => out == Err::<(), MixError>(MixError::NoSession) && final(session)@ == old(
                session,
            )@,
        },
{
    match &mut session.session {
        Some(s) => {
            if str_eq(speed, "slow") {
                s.midtoken_sleep_ms = SLOW_DELAY_MS;
                Ok(())
            } else if str_eq(speed, "fast") {
                s.midtoken_sleep_ms = FAST_DELAY_MS;
                Ok(())
            } else {
                let mut name = String::new();
                append_str(&mut name, speed);
                Err(MixError::UnknownSpeed(name))
            }
        },
        None => Err(MixError::NoSession),
    }
}

/// Asks the session to stop. The background loop sees the request the next
/// time it looks; a call to the model that is under way is not interrupted.
/// Fails with `NoSession` if no session exists.
pub fn cancel_session(session: &mut SessionState) -> (out: Result<(), MixError>)
    ensures
        match old(session)@.session {
            Some(s) => out == Ok::<(), MixError>(()) && final(session)@ == (StoreView {
                session: Some(SessionView { cancel_requested: true, ..s }),
                ..old(session)@
            }),
            None => out == Err::<(), MixError>(MixError::NoSession) && final(session)@ == old(
                session,
            )@,
        },
{
    match &mut session.session {
        Some(s) => {
            s.cancel_token = true;
            Ok(())
        },
        None => Err(MixError::NoSession),
    }
}

/// Opens a change of weights: marks the session as mixing, which keeps the
/// background loop from asking the model for more, and returns the status to
/// publish. Fails with `NoSession` if no session exists.
pub fn begin_update_weights(session: &mut SessionState) -> (out: Result<String, MixError>)
    ensures
        match old(session)@.session {
            Some(s) => (out matches Ok(status) && status@ == MIXING_STATUS@) && final(session)@
                == (StoreView { session: Some(SessionView { mixing: true, ..s }), ..old(session)@ }),
            None => out == Err::<String, MixError>(MixError::NoSession) && final(session)@ == old(
                session,
            )@,
        },
{
    match &mut session.session {
        Some(s) => {
            s.is_mixing = true;
            let mut status = String::new();
            append_str(&mut status, MIXING_STATUS);
            Ok(status)
        },
        None => Err(MixError::NoSession),
    }
}

/// The session once a change of weights has come to its end: with the new
/// composite prompt if there is one, no longer mixing either way, and with
/// what was generated so far untouched.
pub open spec fn after_update(s: SessionView, composed: Result<String, MixError>) -> SessionView {
    match composed {
        Ok(prompt) => SessionView { composite_prompt: prompt@, mixing: false, ..s },
        Err(_) => SessionView { mixing: false, ..s },
    }
}

/// Closes a change of weights with the outcome of the composition. A new
/// composite prompt replaces the one in force and the status to publish is
/// returned; a failure is handed back and the prompt in force stays. Either
/// way the session is no longer mixing.
pub fn finish_update_weights(session: &mut SessionState, composed: Result<String, MixError>) -> (out:
    Result<String, MixError>)
    ensures
        final(session)@ == (StoreView {
            session: match old(session)@.session {
                Some(s) => Some(after_update(s, composed)),
                None => None,
            },
            ..old(session)@
        }),
        match composed {
            Ok(_) => out matches Ok(status) && status@ == IDLE_STATUS@,
            Err(e) => out == Err::<String, MixError>(e),
        },
{
    match composed {
        Ok(prompt) => {
            match &mut session.session {
                Some(s) => {
                    s.current_promx = prompt;
                    s.is_mixing = false;
                },
                None => {},
            }
            let mut status = String::new();
            append_str(&mut status, IDLE_STATUS);
            Ok(status)
        },
        Err(e) => {
            match &mut session.session {
                Some(s) => {
                    s.is_mixing = false;
                },
                None => {},
            }
            Err(e)
        },
    }
}

} // verus!
