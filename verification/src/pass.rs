//! Whole passes: what follows from the single steps.

use crate::decode::decoded;
use crate::descriptor::DescriptorView;
use crate::message::{liveness, Delivery};
use crate::poller::{
    fail, proceed, read_of, step, ActionView, EventView, PassError, PollState, TransportError,
};
use crate::topic::topic_of;
use vstd::prelude::*;

verus! {

/// The state that a pass over `table` reaches from `state` when `events`
/// are reported one after another, and the actions it asks for on the way,
/// one for each event.
pub open spec fn run(table: Seq<DescriptorView>, state: PollState, events: Seq<EventView>) -> (
    PollState,
    Seq<ActionView>,
)
    decreases events.len(),
{
    if events.len() == 0 {
        (state, Seq::empty())
    } else {
        let before = run(table, state, events.drop_last());
        let now = step(table, before.0, events.last());
        (now.0, before.1.push(now.1))
    }
}

/// The words `raw` are what a read for `d` may return: they decode.
pub open spec fn decodes(d: DescriptorView, raw: Seq<u16>) -> bool {
    decoded(d.width, d.scale, raw) is Ok
}

/// The publication of the reading that `raw` holds for the descriptor at
/// `index`.
pub open spec fn publication(table: Seq<DescriptorView>, index: int, raw: Seq<u16>) -> ActionView {
    let d = table[index];
    ActionView::PublishReading {
        index: index as usize,
        topic: topic_of(d.name, d.unit),
        reading: decoded(d.width, d.scale, raw).unwrap(),
        delivery: Delivery::AtLeastOnce,
    }
}

/// What the caller reports while the first `n` descriptors are read and
/// published without a failure: the start, and for each descriptor its
/// words and the acknowledgement of its publication.
pub open spec fn events_of_reads(raws: Seq<Seq<u16>>, n: nat) -> Seq<EventView>
    decreases n,
{
    if n == 0 {
        seq![EventView::Start]
    } else {
        events_of_reads(raws, (n - 1) as nat).push(EventView::Words(raws[n - 1])).push(
            EventView::Published,
        )
    }
}

/// What a pass asks for while the first `n` descriptors are read and
/// published without a failure: for each descriptor its read and the
/// publication of its reading, and then the read of the next descriptor, or
/// the time if none is left.
pub open spec fn actions_of_reads(table: Seq<DescriptorView>, raws: Seq<Seq<u16>>, n: nat) -> Seq<
    ActionView,
>
    decreases n,
{
    if n == 0 {
        seq![proceed(table, 0).1]
    } else {
        actions_of_reads(table, raws, (n - 1) as nat).push(publication(table, n - 1, raws[n - 1])).push(
            proceed(table, n as int).1,
        )
    }
}

/// One more event: the run goes on from where the events before it ended.
pub proof fn run_goes_on(
    table: Seq<DescriptorView>,
    state: PollState,
    events: Seq<EventView>,
    event: EventView,
)
    ensures
        run(table, state, events.push(event)) == ({
            let before = run(table, state, events);
            let now = step(table, before.0, event);
            (now.0, before.1.push(now.1))
        }),
{
    assert(events.push(event).drop_last() =~= events);
}

/// A failed pass stays failed: whatever is reported afterwards, the state
/// and the error remain, and no read or publication is asked for.
pub proof fn nothing_follows_a_failure(
    table: Seq<DescriptorView>,
    error: PassError,
    events: Seq<EventView>,
)
    ensures
        run(table, PollState::Failed { error }, events).0 == (PollState::Failed { error }),
        run(table, PollState::Failed { error }, events).1.len() == events.len(),
        forall|k: int|
            0 <= k < events.len() ==> #[trigger] run(
                table,
                PollState::Failed { error },
                events,
            ).1[k] == ActionView::Abort(error),
    decreases events.len(),
{
    if events.len() > 0 {
        nothing_follows_a_failure(table, error, events.drop_last());
    }
}

/// A completed pass stays completed.
pub proof fn nothing_follows_completion(table: Seq<DescriptorView>, events: Seq<EventView>)
    ensures
        run(table, PollState::Done, events).0 == PollState::Done,
        run(table, PollState::Done, events).1.len() == events.len(),
        forall|k: int|
            0 <= k < events.len() ==> #[trigger] run(table, PollState::Done, events).1[k]
                == ActionView::Finish,
    decreases events.len(),
{
    if events.len() > 0 {
        nothing_follows_completion(table, events.drop_last());
    }
}

/// Every failure that can be reported, and every read that does not
/// decode, ends the pass at once, with the error that names it.
pub proof fn every_failure_aborts(
    table: Seq<DescriptorView>,
    index: usize,
    raw: Seq<u16>,
    cause: TransportError,
)
    ensures
        step(table, PollState::ReadPending { index }, EventView::ReadFailed(cause)) == fail(
            PassError::Transport(cause),
        ),
        index < table.len() ==> (decoded(table[index as int].width, table[index as int].scale, raw)
            matches Err(e) ==> step(table, PollState::ReadPending { index }, EventView::Words(raw))
            == fail(PassError::Decode(e))),
        step(table, PollState::PublishPending { index }, EventView::PublishFailed) == fail(
            PassError::Publish,
        ),
        step(table, PollState::ClockPending, EventView::ClockFailed) == fail(PassError::Clock),
        step(table, PollState::LivenessPublish, EventView::PublishFailed) == fail(
            PassError::Publish,
        ),
{
}

/// Descriptors are read and published in table order. While the first `n`
/// reads decode and their publications are acknowledged, the pass asks for
/// exactly the read and the publication of each of these descriptors, in
/// order, and then awaits the read of the next one, or the time if none is
/// left.
pub proof fn reads_follow_table_order(table: Seq<DescriptorView>, raws: Seq<Seq<u16>>, n: nat)
    requires
        n <= table.len(),
        n <= raws.len(),
        table.len() <= usize::MAX,
        forall|i: int| 0 <= i < n ==> decodes(#[trigger] table[i], raws[i]),
    ensures
        run(table, PollState::Idle, events_of_reads(raws, n)) == (
            proceed(table, n as int).0,
            actions_of_reads(table, raws, n),
        ),
    decreases n,
{
    if n == 0 {
        run_goes_on(table, PollState::Idle, Seq::empty(), EventView::Start);
    } else {
        let m = (n - 1) as nat;
        let before = events_of_reads(raws, m);
        let words = EventView::Words(raws[n - 1]);
        reads_follow_table_order(table, raws, m);
        assert(decodes(table[n - 1], raws[n - 1]));
        run_goes_on(table, PollState::Idle, before, words);
        run_goes_on(table, PollState::Idle, before.push(words), EventView::Published);
    }
}

/// A read that fails ends the pass then and there. When the first `n`
/// descriptors were read and published and the next read times out or
/// fails, the pass has asked for those reads and publications and for the
/// read that failed, and it asks for nothing more: no further read, no
/// publication, no liveness message.
pub proof fn a_failed_read_ends_the_pass(
    table: Seq<DescriptorView>,
    raws: Seq<Seq<u16>>,
    n: nat,
    cause: TransportError,
)
    requires
        n < table.len(),
        n <= raws.len(),
        table.len() <= usize::MAX,
        forall|i: int| 0 <= i < n ==> decodes(#[trigger] table[i], raws[i]),
    ensures
        run(table, PollState::Idle, events_of_reads(raws, n).push(EventView::ReadFailed(cause)))
            == (
            PollState::Failed { error: PassError::Transport(cause) },
            actions_of_reads(table, raws, n).push(ActionView::Abort(PassError::Transport(cause))),
        ),
        actions_of_reads(table, raws, n).last() == read_of(table[n as int]),
{
    reads_follow_table_order(table, raws, n);
    run_goes_on(table, PollState::Idle, events_of_reads(raws, n), EventView::ReadFailed(cause));
}

/// A pass without a failure completes: once every descriptor is read and
/// published, the time `secs` yields the liveness message, and its
/// acknowledgement ends the pass.
pub proof fn a_pass_without_failure_completes(
    table: Seq<DescriptorView>,
    raws: Seq<Seq<u16>>,
    secs: u64,
)
    requires
        raws.len() == table.len(),
        table.len() <= usize::MAX,
        forall|i: int| 0 <= i < table.len() ==> decodes(#[trigger] table[i], raws[i]),
    ensures
        run(
            table,
            PollState::Idle,
            events_of_reads(raws, table.len()).push(EventView::Clock(secs)).push(
                EventView::Published,
            ),
        ) == (
            PollState::Done,
            actions_of_reads(table, raws, table.len()).push(
                ActionView::PublishLiveness(liveness(secs)),
            ).push(ActionView::Finish),
        ),
{
    let reads = events_of_reads(raws, table.len());
    let clock = EventView::Clock(secs);
    reads_follow_table_order(table, raws, table.len());
    run_goes_on(table, PollState::Idle, reads, clock);
    run_goes_on(table, PollState::Idle, reads.push(clock), EventView::Published);
}

/// Equal inputs give equal outputs: a pass that is run again over the same
/// table and is reported the same events, with the same words, goes
/// through the same states and asks for the same actions, with the same
/// topics, readings and payloads.
pub proof fn a_pass_is_repeatable(
    table: Seq<DescriptorView>,
    first: Seq<EventView>,
    second: Seq<EventView>,
)
    requires
        first.len() == second.len(),
        forall|k: int| 0 <= k < first.len() ==> first[k] == second[k],
    ensures
        run(table, PollState::Idle, first) == run(table, PollState::Idle, second),
{
    assert(first =~= second);
}

} // verus!
