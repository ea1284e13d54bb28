//! What holds of whole dispatches.
//!
//! A pass is the sequence of submissions that one dispatch makes, child by
//! child, until every target has accepted the operation or one has
//! rejected it. The functions here say where a pass ends, for every
//! sequence of replies at once, and join passes to runs of completions.

use crate::channel::ChannelView;
use crate::request::reported;
use crate::request::tentative;
use crate::request::BioView;
use crate::request::Dispatch;
use crate::runs::after;
use crate::runs::disposition_at;
use crate::runs::lemma_answered_once;
use crate::runs::strays;
use crate::context::Counters;
use crate::types::IoError;
use crate::types::IoStatus;
use crate::types::IoType;
use vstd::prelude::*;

verus! {

/// The request after the replies to its submissions, in order.
pub open spec fn after_replies(io: BioView, replies: Seq<Result<(), IoError>>) -> BioView
    decreases replies.len(),
{
    if replies.len() == 0 {
        io
    } else {
        after_replies(io, replies.drop_last()).submitted(replies.last())
    }
}

/// The move that follows reply `i`.
pub open spec fn move_at(io: BioView, replies: Seq<Result<(), IoError>>, i: int) -> Dispatch {
    after_replies(io, replies.take(i)).next_move(replies[i])
}

/// The replies of a pass in which the first `accepted` targets accept the
/// operation and the next one, if `error` names a rejection, rejects it.
pub open spec fn replies_of(accepted: nat, error: Option<IoError>) -> Seq<Result<(), IoError>> {
    let oks = Seq::new(accepted, |i: int| Ok::<(), IoError>(()));
    match error {
        Some(e) => oks.push(Err(e)),
        None => oks,
    }
}

/// A read without a reader fails at once with `NoDevice`: the request is
/// finished as failed, nothing is submitted and nothing is in flight.
pub proof fn lemma_read_without_reader(io: BioView, channel: ChannelView)
    requires
        io.cmd == IoType::Read,
        channel.readers.len() == 0,
    ensures
        io.dispatch(channel) == (Dispatch::Done {
            result: Err(IoError::NoDevice),
            finalize: Some(IoStatus::Failed),
        }),
        io.dispatched(channel) == io,
{
}

/// While the targets accept, the pass goes on to the next target and
/// nothing is in flight yet.
proof fn lemma_accepting(io: BioView, replies: Seq<Result<(), IoError>>, i: int)
    requires
        io.wf(),
        io.awaiting,
        io.cursor == 0,
        0 <= i <= replies.len(),
        i < io.targets.len(),
        forall|j: int| 0 <= j < i ==> replies[j] is Ok,
    ensures
        after_replies(io, replies.take(i)) == (BioView { cursor: i as nat, ..io }),
    decreases i,
{
    if i == 0 {
        assert(replies.take(0) =~= Seq::<Result<(), IoError>>::empty());
    } else {
        lemma_accepting(io, replies, i - 1);
        assert(replies.take(i).drop_last() =~= replies.take(i - 1));
        assert(replies.take(i).last() == replies[i - 1]);
    }
}

/// Where a pass ends. In a pass over the targets of `io` the first
/// `accepted` targets accept the operation; then the targets are used up,
/// or the next target rejects the operation with `error` and the targets
/// after it are not tried. Every reply but the last is followed by the
/// submission to the next target. After the last, what was accepted is in
/// flight under the tentative status, and the dispatch reports the error,
/// if there was one. The request is finished by the dispatch if and only
/// if nothing was accepted.
pub proof fn lemma_pass(io: BioView, accepted: nat, error: Option<IoError>)
    requires
        io.wf(),
        io.awaiting,
        io.cursor == 0,
        accepted <= io.targets.len(),
        error is None <==> accepted == io.targets.len(),
    ensures
        forall|i: int|
            0 <= i < replies_of(accepted, error).len() - 1 ==> move_at(
                io,
                replies_of(accepted, error),
                i,
            ) == Dispatch::Submit(io.targets[i + 1]),
        move_at(io, replies_of(accepted, error), replies_of(accepted, error).len() - 1)
            == (Dispatch::Done {
            result: reported(error),
            finalize: if accepted > 0 {
                None
            } else if error == Some(IoError::ResourceExhausted) {
                Some(IoStatus::NoMemory)
            } else {
                Some(IoStatus::Failed)
            },
        }),
        after_replies(io, replies_of(accepted, error)) == (BioView {
            cursor: accepted,
            awaiting: false,
            ctx: if accepted > 0 {
                Counters { status: tentative(error), in_flight: accepted, num_ok: 0 }
            } else {
                io.ctx
            },
            ..io
        }),
{
    let replies = replies_of(accepted, error);
    let n = replies.len() as int;
    assert(n > 0);
    assert forall|i: int| 0 <= i < n - 1 implies move_at(io, replies, i) == Dispatch::Submit(
        io.targets[i + 1],
    ) by {
        lemma_accepting(io, replies, i);
    }
    lemma_accepting(io, replies, n - 1);
    assert(replies.take(n) =~= replies);
    assert(replies.drop_last() =~= replies.take(n - 1));
}

/// From dispatch to answer. A pass ends as `lemma_pass` says; then the
/// operations that were accepted complete, in a run as long as their
/// number. If nothing was accepted, the request is answered by the
/// dispatch. Otherwise it is answered by the last completion and by no
/// other. This holds of every pass and of every run but those that stray,
/// which are answered more than once.
pub proof fn lemma_request_answered_once(
    io: BioView,
    accepted: nat,
    error: Option<IoError>,
    run: Seq<bool>,
)
    requires
        io.wf(),
        io.awaiting,
        io.cursor == 0,
        accepted <= io.targets.len(),
        error is None <==> accepted == io.targets.len(),
        run.len() == accepted,
        !strays(after_replies(io, replies_of(accepted, error)).ctx, run),
    ensures
        after_replies(io, replies_of(accepted, error)).ctx.in_flight == accepted,
        accepted == 0 ==> move_at(
            io,
            replies_of(accepted, error),
            replies_of(accepted, error).len() - 1,
        ) matches Dispatch::Done { finalize: Some(_), .. },
        accepted > 0 ==> {
            let c = after_replies(io, replies_of(accepted, error)).ctx;
            &&& move_at(io, replies_of(accepted, error), replies_of(accepted, error).len() - 1)
                matches Dispatch::Done { finalize: None, .. }
            &&& forall|i: int| 0 <= i < run.len() - 1 ==> disposition_at(c, run, i).answer().is_none()
            &&& disposition_at(c, run, run.len() - 1).answer().is_some()
            &&& after(c, run).in_flight == 0
        },
{
    lemma_pass(io, accepted, error);
    if accepted > 0 {
        let c = after_replies(io, replies_of(accepted, error)).ctx;
        lemma_answered_once(c, run);
    }
}

/// A dispatch that starts no pass answers the request at once and leaves
/// it as it was.
pub proof fn lemma_answered_without_pass(io: BioView, channel: ChannelView)
    requires
        !io.submits(channel),
    ensures
        io.dispatch(channel) matches Dispatch::Done { finalize: Some(_), .. },
        io.dispatched(channel) == io,
{
}

/// A fan-out over a channel without writers is finished at once, as
/// failed, though no submission was rejected.
pub proof fn lemma_fan_out_without_writer(io: BioView, channel: ChannelView)
    requires
        io.cmd.is_fan_out(),
        channel.writers.len() == 0,
    ensures
        io.dispatch(channel) == (Dispatch::Done {
            result: Ok(()),
            finalize: Some(IoStatus::Failed),
        }),
        io.dispatched(channel).ctx == io.ctx,
{
}

} // verus!
