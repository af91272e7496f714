//! Keeping a chat message in step with a freshly resolved screen.
//!
//! The caller first tries to edit the message in place and reports how that
//! went to `after_edit`. When the edit failed, it sends a new message, reports
//! its id to `after_resend`, and deletes the old one on a best-effort basis.
use vstd::prelude::*;
use crate::codec::{payload_text, Payload};
use crate::session::{upserted, SessionStore, SessionView};

verus! {

/// How an in-place edit of the message went.
#[derive(Clone, Copy, Debug, PartialEq, Eq, Structural)]
pub enum EditOutcome {
    Edited,
    /// The platform reported that the content did not change.
    NotModified,
    /// Any other failure: the message is too old, gone, or of another kind.
    Failed,
}

/// What the caller does next.
#[derive(Clone, Copy, Debug, PartialEq, Eq, Structural)]
pub enum ReconcileStep {
    Done,
    /// Send the screen as a new message, then report it to `after_resend`.
    Resend,
}

/// The sessions after an edit attempt of `message_id` for `user` showing `p`.
pub open spec fn sessions_after_edit(
    m: Map<u64, SessionView>,
    user: u64,
    message_id: i32,
    p: Payload,
    outcome: EditOutcome,
) -> Map<u64, SessionView> {
    match outcome {
        EditOutcome::Edited => upserted(m, user, message_id, payload_text(p)),
        _ => m,
    }
}

pub open spec fn step_after_edit(outcome: EditOutcome) -> ReconcileStep {
    match outcome {
        EditOutcome::Failed => ReconcileStep::Resend,
        _ => ReconcileStep::Done,
    }
}

/// Applies the outcome of an edit of `message_id` that shows `p` to `user`.
pub fn after_edit(
    store: &mut SessionStore,
    user: u64,
    message_id: i32,
    p: &Payload,
    outcome: EditOutcome,
) -> (r: ReconcileStep)
    ensures
        final(store).view() == sessions_after_edit(old(store).view(), user, message_id, *p, outcome),
        r == step_after_edit(outcome),
{
    match outcome {
        EditOutcome::Edited => {
            store.upsert(user, message_id, p.to_string());
            ReconcileStep::Done
        },
        EditOutcome::NotModified => ReconcileStep::Done,
        EditOutcome::Failed => ReconcileStep::Resend,
    }
}

/// Records the new message that now shows `p` to `user`.
pub fn after_resend(store: &mut SessionStore, user: u64, new_message_id: i32, p: &Payload)
    ensures
        final(store).view() == upserted(old(store).view(), user, new_message_id, payload_text(*p)),
{
    store.upsert(user, new_message_id, p.to_string());
}

/// Showing the same screen in the same message a second time changes no
/// session, whether the second edit goes through or is reported as not
/// modified, and neither asks for a new message.
pub proof fn lemma_reconcile_idempotent(
    m: Map<u64, SessionView>,
    user: u64,
    message_id: i32,
    p: Payload,
    second: EditOutcome,
)
    requires
        second != EditOutcome::Failed,
    ensures
        sessions_after_edit(
            sessions_after_edit(m, user, message_id, p, EditOutcome::Edited),
            user,
            message_id,
            p,
            second,
        ) == sessions_after_edit(m, user, message_id, p, EditOutcome::Edited),
        step_after_edit(second) == ReconcileStep::Done,
{
    crate::session::lemma_upsert_idempotent(m, user, message_id, payload_text(p));
}

} // verus!
