//! Sending a reply of several lines: in order, each line once, and not a
//! line more after one that could not be sent.

use vstd::prelude::*;

verus! {

/// How far the sending of a reply has come.
#[derive(Debug, Clone, Copy, PartialEq, Eq, Structural)]
pub enum SendState {
    /// The line at position `next` is to be sent now; those before it have
    /// gone out.
    Sending { next: usize },
    /// Every line has gone out.
    Completed,
    /// The line at position `sent` could not be sent; the `sent` lines before
    /// it have gone out, and nothing goes out after it.
    Aborted { sent: usize },
}

/// The sending of `count` lines as it begins.
pub open spec fn send_begun(count: nat) -> SendState {
    if count == 0 {
        SendState::Completed
    } else {
        SendState::Sending { next: 0 }
    }
}

/// The sending after one more attempt. A line that went out is followed by
/// the next one; a line that did not ends the sending, and no line is tried
/// again.
pub open spec fn send_next(count: nat, state: SendState, delivered: bool) -> SendState {
    match state {
        SendState::Sending { next } => if !delivered {
            SendState::Aborted { sent: next }
        } else if next + 1 < count {
            SendState::Sending { next: (next + 1) as usize }
        } else {
            SendState::Completed
        },
        _ => state,
    }
}

/// The sending after the attempts `outcomes`, in turn.
pub open spec fn send_run(count: nat, outcomes: Seq<bool>) -> SendState
    decreases outcomes.len(),
{
    if outcomes.len() == 0 {
        send_begun(count)
    } else {
        send_next(count, send_run(count, outcomes.drop_last()), outcomes.last())
    }
}

/// Begins the sending of `count` lines.
pub fn send_start(count: usize) -> (r: SendState)
    ensures
        r == send_begun(count as nat),
{
    if count == 0 {
        SendState::Completed
    } else {
        SendState::Sending { next: 0 }
    }
}

/// Takes the sending of `count` lines one attempt on; `delivered` says
/// whether the line that `state` asked for went out.
pub fn send_step(count: usize, state: SendState, delivered: bool) -> (r: SendState)
    ensures
        r == send_next(count as nat, state, delivered),
{
    match state {
        SendState::Sending { next } => if !delivered {
            SendState::Aborted { sent: next }
        } else if next < count && next + 1 < count {
            SendState::Sending { next: next + 1 }
        } else {
            SendState::Completed
        },
        _ => state,
    }
}

/// Lines go out in order, each once: after `k` attempts that all succeeded,
/// the line asked for is the one at position `k`, or the sending is complete
/// where `k` reaches the number of lines.
pub proof fn lemma_lines_go_out_in_order(count: nat, outcomes: Seq<bool>)
    requires
        count <= usize::MAX,
        outcomes.len() <= count,
        forall|i: int| 0 <= i < outcomes.len() ==> outcomes[i],
    ensures
        send_run(count, outcomes) == if outcomes.len() < count {
            SendState::Sending { next: outcomes.len() as usize }
        } else {
            SendState::Completed
        },
    decreases outcomes.len(),
{
    if outcomes.len() > 0 {
        lemma_lines_go_out_in_order(count, outcomes.drop_last());
    }
}

/// A line that cannot be sent stops the reply: where the attempt at position
/// `k` is the first to fail, the sending is aborted with `k` lines out, and it
/// stays so whatever is reported after.
pub proof fn lemma_failure_stops_sending(count: nat, outcomes: Seq<bool>, k: int)
    requires
        count <= usize::MAX,
        0 <= k < outcomes.len(),
        k < count,
        !outcomes[k],
        forall|i: int| 0 <= i < k ==> outcomes[i],
    ensures
        send_run(count, outcomes) == (SendState::Aborted { sent: k as usize }),
    decreases outcomes.len(),
{
    let head = outcomes.drop_last();
    if k == outcomes.len() - 1 {
        lemma_lines_go_out_in_order(count, head);
    } else {
        lemma_failure_stops_sending(count, head, k);
    }
}

} // verus!
