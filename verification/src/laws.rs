//! What holds of a loop over a whole run of events, whatever the slot holds
//! when each event arrives.

use vstd::prelude::*;
use crate::compositor::{
    active_anchors, blend_instruction, blend_request, composition_of, mix_prompt_text, AnchorView,
    CompositionView,
};
use crate::error::{ErrorKind, MixError};
use crate::protocol::{step_request, user_message, MessageView, Sampling, STEP_TOKENS};
use crate::session::{fresh_session, StoreView};
use crate::streaming::{
    initial_loop, poll_model, quiet_step, reply_model, slot_after_start, store_after_start,
    ActionView, ExitReason, LoopPhase, LoopView, Outcome, TOKENS_PER_STEP,
};

verus! {

/// What can happen to a loop.
pub enum LoopEvent {
    /// It is time to look at the slot.
    Poll,
    /// The model has answered, or the call has failed.
    Reply(Result<String, MixError>),
}

/// One event, with the slot as the event finds it. Between two events of a
/// loop anything may happen to the slot, so a run fixes no relation between
/// the slot of one moment and that of the next.
pub struct Moment {
    pub store: StoreView,
    pub event: LoopEvent,
}

/// What an event leads to.
pub open spec fn step_model(lp: LoopView, moment: Moment) -> Outcome {
    match moment.event {
        LoopEvent::Poll => poll_model(lp, moment.store),
        LoopEvent::Reply(reply) => reply_model(lp, moment.store, reply),
    }
}

/// The loop after a run of events.
pub open spec fn run_end(lp: LoopView, run: Seq<Moment>) -> LoopView
    decreases run.len(),
{
    if run.len() == 0 {
        lp
    } else {
        run_end(step_model(lp, run[0]).lp, run.drop_first())
    }
}

/// The number of token notifications that a run publishes.
pub open spec fn tokens_published(lp: LoopView, run: Seq<Moment>) -> nat
    decreases run.len(),
{
    if run.len() == 0 {
        0
    } else {
        let first = step_model(lp, run[0]);
        (if first.step.token is Some {
            1nat
        } else {
            0nat
        }) + tokens_published(first.lp, run.drop_first())
    }
}

/// The number of completion notifications that a run publishes.
pub open spec fn completions_published(lp: LoopView, run: Seq<Moment>) -> nat
    decreases run.len(),
{
    if run.len() == 0 {
        0
    } else {
        let first = step_model(lp, run[0]);
        (if first.step.complete {
            1nat
        } else {
            0nat
        }) + completions_published(first.lp, run.drop_first())
    }
}

/// Whether the event is a reply that counts as a generation step: a text
/// that is not empty, for a call that was under way, while the loop's
/// session is the one in the slot.
pub open spec fn is_generation(lp: LoopView, moment: Moment) -> bool {
    &&& lp.phase is AwaitingReply
    &&& moment.store.holds(lp.session_id)
    &&& moment.event matches LoopEvent::Reply(Ok(text)) && text@.len() > 0
}

/// The number of generation steps in a run.
pub open spec fn generations(lp: LoopView, run: Seq<Moment>) -> nat
    decreases run.len(),
{
    if run.len() == 0 {
        0
    } else {
        (if is_generation(lp, run[0]) {
            1nat
        } else {
            0nat
        }) + generations(step_model(lp, run[0]).lp, run.drop_first())
    }
}

/// The most generation steps that a budget leaves room for: one at least,
/// and then as many as it takes to reach the budget two tokens at a time.
pub open spec fn most_generations(token_budget: int) -> int {
    if token_budget <= TOKENS_PER_STEP {
        1
    } else {
        (token_budget + 1) / 2
    }
}

/// No event breaks what holds of every loop.
pub proof fn lemma_step_keeps_wf(lp: LoopView, moment: Moment)
    requires
        lp.wf(),
    ensures
        step_model(lp, moment).lp.wf(),
        step_model(lp, moment).lp.session_id == lp.session_id,
        step_model(lp, moment).lp.token_budget == lp.token_budget,
        step_model(lp, moment).lp.history == lp.history,
{
}

/// A finished loop is at rest: no event changes it or the slot, and it
/// publishes nothing.
pub proof fn lemma_finished_is_final(lp: LoopView, moment: Moment)
    requires
        lp.phase is Finished,
    ensures
        step_model(lp, moment).lp == lp,
        step_model(lp, moment).store == moment.store,
        step_model(lp, moment).step.token is None,
        step_model(lp, moment).step.error is None,
        !step_model(lp, moment).step.complete,
{
}

/// A loop ends on the event that publishes its completion, and on no other.
pub proof fn lemma_completion_marks_the_end(lp: LoopView, moment: Moment)
    ensures
        step_model(lp, moment).step.complete <==> (lp.phase !is Finished && step_model(
            lp,
            moment,
        ).lp.phase is Finished),
        step_model(lp, moment).step.error is Some ==> step_model(lp, moment).step.complete,
{
}

/// Over any run, a loop publishes its completion exactly once if the run
/// takes it from running to finished, and never otherwise.
pub proof fn lemma_one_completion(lp: LoopView, run: Seq<Moment>)
    ensures
        completions_published(lp, run) == (if lp.phase !is Finished && run_end(lp, run).phase
            is Finished {
            1nat
        } else {
            0nat
        }),
        lp.phase is Finished ==> run_end(lp, run) == lp,
    decreases run.len(),
{
    if run.len() > 0 {
        lemma_completion_marks_the_end(lp, run[0]);
        if lp.phase is Finished {
            lemma_finished_is_final(lp, run[0]);
        }
        lemma_one_completion(step_model(lp, run[0]).lp, run.drop_first());
    }
}

/// Each generation step counts two tokens against the budget, and nothing
/// else does.
pub proof fn lemma_generations_are_counted(lp: LoopView, run: Seq<Moment>)
    ensures
        run_end(lp, run).token_count == lp.token_count + TOKENS_PER_STEP * generations(lp, run),
    decreases run.len(),
{
    if run.len() > 0 {
        lemma_generations_are_counted(step_model(lp, run[0]).lp, run.drop_first());
    }
}

/// The count of a loop never passes the budget by more than one step.
proof fn lemma_count_stays_in_budget(lp: LoopView, run: Seq<Moment>)
    requires
        lp.wf(),
        lp.phase !is Finished,
    ensures
        run_end(lp, run).token_count <= TOKENS_PER_STEP || run_end(lp, run).token_count
            <= lp.token_budget + 1,
        run_end(lp, run).phase == LoopPhase::Finished(ExitReason::TokenBudget) ==> run_end(
            lp,
            run,
        ).token_count >= lp.token_budget,
    decreases run.len(),
{
    if run.len() > 0 {
        let next = step_model(lp, run[0]).lp;
        lemma_step_keeps_wf(lp, run[0]);
        if next.phase is Finished {
            lemma_one_completion(next, run.drop_first());
        } else {
            lemma_count_stays_in_budget(next, run.drop_first());
        }
    }
}

/// Over any run, a session takes no more generation steps than its budget
/// leaves room for: with a budget of ten tokens, five. A loop that ends on
/// its budget has reached it.
pub proof fn lemma_budget_bounds_generations(
    session_id: nat,
    history: Seq<MessageView>,
    max_tokens: int,
    run: Seq<Moment>,
)
    ensures
        ({
            let lp = initial_loop(session_id, history, max_tokens);
            &&& generations(lp, run) <= most_generations(lp.token_budget)
            &&& run_end(lp, run).phase == LoopPhase::Finished(ExitReason::TokenBudget)
                ==> TOKENS_PER_STEP * generations(lp, run) >= lp.token_budget
        }),
{
    let lp = initial_loop(session_id, history, max_tokens);
    lemma_generations_are_counted(lp, run);
    lemma_count_stays_in_budget(lp, run);
}

/// Starting a session replaces whatever session was in the slot.
pub proof fn lemma_start_replaces_prior(store: StoreView, composite_prompt: Seq<char>)
    ensures
        store_after_start(store, composite_prompt).has_replaced(store.generation),
        forall|id: nat|
            store.has_replaced(id) ==> #[trigger] store_after_start(
                store,
                composite_prompt,
            ).has_replaced(id),
{
}

/// Whether the event is one that the loop is waiting for: a look at the
/// slot, or the reply to a call that is under way.
pub open spec fn is_due(lp: LoopView, moment: Moment) -> bool {
    moment.event is Poll || lp.phase is AwaitingReply
}

/// Once its session has been replaced, a loop publishes no token and no
/// error and leaves the slot alone; the first event that it is waiting for
/// ends it as cancelled.
pub proof fn lemma_replaced_loop_step(lp: LoopView, moment: Moment)
    requires
        moment.store.has_replaced(lp.session_id),
    ensures
        step_model(lp, moment).store == moment.store,
        step_model(lp, moment).step.token is None,
        step_model(lp, moment).step.error is None,
        lp.phase !is Finished && is_due(lp, moment) ==> step_model(lp, moment).lp.phase
            == LoopPhase::Finished(ExitReason::Cancelled) && step_model(lp, moment).step.complete,
{
}

/// Once a new session has started, the loop of any earlier session publishes
/// no token and changes nothing in the slot, whatever has happened to the
/// slot since and whatever event reaches the loop.
pub proof fn lemma_restart_silences_earlier_loops(
    lp: LoopView,
    store: StoreView,
    composite_prompt: Seq<char>,
    moment: Moment,
)
    requires
        lp.session_id <= store.generation,
        moment.store.generation >= store_after_start(store, composite_prompt).generation,
    ensures
        step_model(lp, moment).step.token is None,
        step_model(lp, moment).store == moment.store,
{
    lemma_replaced_loop_step(lp, moment);
}

/// Over any run that begins after its session has been replaced, a loop
/// publishes no token and takes no generation step. Unless it had ended
/// before, it ends as cancelled on the first event, if that is one it is
/// waiting for, and publishes its completion once.
pub proof fn lemma_replaced_loop_is_silent(lp: LoopView, run: Seq<Moment>)
    requires
        forall|i: int| 0 <= i < run.len() ==> (#[trigger] run[i]).store.has_replaced(lp.session_id),
    ensures
        tokens_published(lp, run) == 0,
        generations(lp, run) == 0,
        completions_published(lp, run) <= 1,
        lp.phase !is Finished && run.len() > 0 && is_due(lp, run[0]) ==> run_end(lp, run).phase
            == LoopPhase::Finished(ExitReason::Cancelled) && completions_published(lp, run) == 1,
    decreases run.len(),
{
    if run.len() > 0 {
        let next = step_model(lp, run[0]).lp;
        let rest = run.drop_first();
        lemma_replaced_loop_step(lp, run[0]);
        assert forall|i: int| 0 <= i < rest.len() implies (#[trigger] rest[i]).store.has_replaced(
            next.session_id,
        ) by {
            assert(rest[i] == run[i + 1]);
        }
        lemma_replaced_loop_is_silent(next, rest);
        lemma_one_completion(lp, run);
        lemma_one_completion(next, rest);
    }
}

/// Whatever the loop asks of the model is one step of generation: two
/// tokens, at the caller's sampling. A reply never leads to a call by itself.
pub proof fn lemma_every_call_is_a_step(lp: LoopView, moment: Moment)
    ensures
        step_model(lp, moment).step.action matches ActionView::Call(request) ==> {
            &&& moment.event is Poll
            &&& request.max_tokens == STEP_TOKENS
            &&& request.sampling == Sampling::Caller
        },
{
}

/// With exactly one active anchor the composite prompt is that anchor's
/// prompt as it is and no blending call is made. The session that starts on
/// it holds the prompt unchanged, and the first thing its loop asks of the
/// model is a step of two tokens.
pub proof fn lemma_one_anchor_starts_verbatim(
    anchors: Seq<AnchorView>,
    store: StoreView,
    history: Seq<MessageView>,
    max_tokens: int,
)
    requires
        active_anchors(anchors).len() == 1,
    ensures
        ({
            let prompt = active_anchors(anchors)[0].prompt;
            let started = store_after_start(store, prompt);
            let lp = initial_loop(started.generation, history, max_tokens);
            let request = step_request(prompt, history, Seq::<char>::empty());
            &&& composition_of(anchors) == Ok::<CompositionView, MixError>(
                CompositionView::Verbatim(prompt),
            )
            &&& started.session == Some(fresh_session(prompt))
            &&& poll_model(lp, started).step == quiet_step(ActionView::Call(request))
            &&& request.max_tokens == 2
        }),
{
}

/// With no active anchor nothing is composed: the failure is of the
/// configuration family, and an attempt to start a session on it leaves the
/// slot exactly as it was.
pub proof fn lemma_no_anchor_starts_nothing(
    anchors: Seq<AnchorView>,
    store: StoreView,
    composed: Result<String, MixError>,
)
    requires
        active_anchors(anchors).len() == 0,
        composed == Err::<String, MixError>(MixError::NoActiveAnchors),
    ensures
        composition_of(anchors) == Err::<CompositionView, MixError>(MixError::NoActiveAnchors),
        MixError::NoActiveAnchors.kind_of() == ErrorKind::Configuration,
        slot_after_start(store, composed) == store,
{
}

/// With two or more active anchors the composite prompt comes from exactly
/// one call: the blending instruction as the user's only message, at most
/// 512 tokens, temperature 0.70 and nucleus mass 1.00. Whatever text the
/// call gives is the prompt of the session that starts on it, unchanged.
pub proof fn lemma_several_anchors_blend(
    anchors: Seq<AnchorView>,
    store: StoreView,
    reply: Seq<char>,
)
    requires
        active_anchors(anchors).len() >= 2,
    ensures
        ({
            let request = blend_request(active_anchors(anchors));
            &&& composition_of(anchors) == Ok::<CompositionView, MixError>(
                CompositionView::Blend(request),
            )
            &&& request.messages == seq![user_message(mix_prompt_text(anchors))]
            &&& mix_prompt_text(anchors) == blend_instruction(active_anchors(anchors))
            &&& request.max_tokens == 512
            &&& request.sampling == (Sampling::Fixed {
                temperature_hundredths: 70,
                top_p_hundredths: 100,
            })
            &&& store_after_start(store, reply).session == Some(fresh_session(reply))
            &&& fresh_session(reply).composite_prompt == reply
        }),
{
}

/// A start swaps sessions in one step: after it the slot holds exactly the
/// new session, running and with no cancellation asked for, under an
/// identity that no earlier session had; the slot is never empty in between.
pub proof fn lemma_start_swaps_sessions(store: StoreView, composite_prompt: Seq<char>)
    ensures
        ({
            let started = store_after_start(store, composite_prompt);
            &&& started.session == Some(fresh_session(composite_prompt))
            &&& fresh_session(composite_prompt).active
            &&& !fresh_session(composite_prompt).cancel_requested
            &&& started.holds(started.generation)
            &&& forall|id: nat| id <= store.generation ==> !started.holds(id)
        }),
{
}

/// With a budget of ten tokens no run takes more than five generation
/// steps. A run that ends on the budget has taken exactly five and has
/// published one completion.
pub proof fn lemma_ten_tokens_five_steps(
    session_id: nat,
    history: Seq<MessageView>,
    run: Seq<Moment>,
)
    ensures
        ({
            let lp = initial_loop(session_id, history, 10);
            &&& generations(lp, run) <= 5
            &&& run_end(lp, run).phase == LoopPhase::Finished(ExitReason::TokenBudget) ==> {
                &&& generations(lp, run) == 5
                &&& completions_published(lp, run) == 1
            }
        }),
{
    let lp = initial_loop(session_id, history, 10);
    lemma_budget_bounds_generations(session_id, history, 10, run);
    lemma_one_completion(lp, run);
}

} // verus!
