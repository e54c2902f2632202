//! The pick request state: a click asks the engine for a readback, the first
//! readback that lands after the request becomes the message for the page, and
//! the render loop hands that message over once.
use vstd::prelude::*;

verus! {

/// Pick request state. `message` holds a result ready to post back to the
/// page; `Some(None)` is a miss (the click hit the background). The hit
/// payload `R` is whatever the engine reports for a surface hit.
pub struct PickState<R> {
    pub pending: bool,
    pub message: Option<Option<R>>,
}

/// The state after a new pick request.
pub open spec fn after_request<R>(state: PickState<R>) -> PickState<R> {
    PickState { pending: true, message: state.message }
}

/// The state after polling for a readback: `readback` is `None` while the
/// engine has nothing yet, `Some(None)` for a miss and `Some(Some(hit))` for a
/// surface hit. Only a pending request consumes a readback.
pub open spec fn after_apply<R>(state: PickState<R>, readback: Option<Option<R>>) -> PickState<R> {
    if state.pending && readback is Some {
        PickState { pending: false, message: readback }
    } else {
        state
    }
}

/// The state after `waits` polls that found no readback.
pub open spec fn polls_without_readback<R>(state: PickState<R>, waits: nat) -> PickState<R>
    decreases waits,
{
    if waits == 0 {
        state
    } else {
        after_apply(polls_without_readback(state, (waits - 1) as nat), None)
    }
}

impl<R> PickState<R> {
    /// No request pending and no message waiting.
    pub fn new() -> (state: Self)
        ensures
            !state.pending,
            state.message is None,
    {
        PickState { pending: false, message: None }
    }
}

/// Marks a pick as requested; the engine has been asked for a fresh readback.
pub fn request<R>(picking: &mut PickState<R>)
    ensures
        *final(picking) == after_request(*old(picking)),
{
    picking.pending = true;
}

/// Whether a request is waiting for its readback, so that the engine's result
/// should be taken now.
pub fn awaiting_readback<R>(picking: &PickState<R>) -> (waiting: bool)
    ensures
        waiting == picking.pending,
{
    picking.pending
}

/// Applies a readback to a pending request: the request is settled and the
/// readback (a hit or a miss) becomes the message for the page.
pub fn apply<R>(picking: &mut PickState<R>, readback: Option<Option<R>>)
    ensures
        *final(picking) == after_apply(*old(picking), readback),
        readback is None ==> *final(picking) == *old(picking),
        old(picking).pending && readback is Some ==> final(picking).message == readback
            && !final(picking).pending,
{
    if !picking.pending {
        return ;
    }
    match readback {
        None => {},
        Some(outcome) => {
            picking.pending = false;
            picking.message = Some(outcome);
        },
    }
}

/// Hands over the waiting message, if any, leaving none behind.
pub fn take_message<R>(picking: &mut PickState<R>) -> (message: Option<Option<R>>)
    ensures
        message == old(picking).message,
        final(picking).message is None,
        final(picking).pending == old(picking).pending,
{
    picking.message.take()
}

/// The name reported for a hit: the subject on screen.
pub fn pick_name(show_helmet: bool) -> (name: &'static str)
    ensures
        name@ == (if show_helmet { "Helmet"@ } else { "Cube"@ }),
{
    if show_helmet {
        "Helmet"
    } else {
        "Cube"
    }
}

/// Without a pending request, no readback changes the state.
pub proof fn lemma_no_request_no_message<R>(state: PickState<R>, readback: Option<Option<R>>)
    requires
        !state.pending,
    ensures
        after_apply(state, readback) == state,
{
}

/// While the engine has no readback yet, polling changes nothing: a pending
/// request stays pending and no message (in particular no miss) is created.
pub proof fn lemma_no_readback_no_message<R>(state: PickState<R>)
    ensures
        after_apply(state, None) == state,
        after_apply(after_request(state), None).pending,
        after_apply(after_request(state), None).message == state.message,
{
}

/// However many polls find no readback after a request, the message the
/// request produces is the first readback that lands, exactly as it landed.
pub proof fn lemma_first_readback_is_the_message<R>(state: PickState<R>, waits: nat, first: Option<R>)
    ensures
        after_apply(polls_without_readback(after_request(state), waits), Some(first)).message
            == Some(first),
        polls_without_readback(after_request(state), waits) == after_request(state),
    decreases waits,
{
    if waits > 0 {
        lemma_first_readback_is_the_message(state, (waits - 1) as nat, first);
    }
}

/// A request produces exactly one message: the first readback after it,
/// which later readbacks do not replace.
pub proof fn lemma_one_message_per_request<R>(
    state: PickState<R>,
    first: Option<R>,
    later: Option<Option<R>>,
)
    ensures
        after_apply(after_request(state), Some(first)).message == Some(first),
        !after_apply(after_request(state), Some(first)).pending,
        after_apply(after_apply(after_request(state), Some(first)), later) == after_apply(
            after_request(state),
            Some(first),
        ),
{
}

} // verus!
