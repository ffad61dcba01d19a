//! What holds of every run of the consumer, whatever events it is handed.

use crate::args::CommonArgsView;
use crate::config::consumer_parameters;
use crate::consumer::{
    launch, phase, react, CommitMode, ConsumerView, EventView, Phase, ReactionView, RequestView,
    TERMINATING,
};
use crate::message::received_line;
use vstd::prelude::*;

verus! {

/// Whether the request is the one that a consumer in this state waits on.
pub open spec fn awaits(state: ConsumerView, request: RequestView) -> bool {
    match state {
        ConsumerView::ArmingSignal { .. } => request is ArmSignal,
        ConsumerView::BuildingClient { .. } => request is BuildClient,
        ConsumerView::Subscribing => request is Subscribe,
        ConsumerView::Receiving => request is Receive,
        ConsumerView::Committing => request is Commit,
        ConsumerView::Draining => request is Unassign,
        ConsumerView::Finished => request is Exit,
        ConsumerView::Failed => request is Abort,
    }
}

/// The state of a consumer that was started with these arguments, once the
/// first `count` of the events have been handed to it.
pub open spec fn state_at(
    common: CommonArgsView,
    group: Seq<char>,
    events: Seq<EventView>,
    count: nat,
) -> ConsumerView
    decreases count,
{
    if count == 0 {
        launch(common, group).0
    } else {
        react(state_at(common, group, events, (count - 1) as nat), events[count - 1]).0
    }
}

/// The reactions of that consumer, by number: the first is made at the
/// start, and each later one answers the event before it.
pub open spec fn reaction_at(
    common: CommonArgsView,
    group: Seq<char>,
    events: Seq<EventView>,
    count: nat,
) -> ReactionView {
    if count == 0 {
        launch(common, group).1
    } else {
        react(state_at(common, group, events, (count - 1) as nat), events[count - 1]).1
    }
}

/// The phases in their order.
pub open spec fn rank(phase: Phase) -> nat {
    match phase {
        Phase::Starting => 0,
        Phase::Running => 1,
        Phase::Draining => 2,
        Phase::Stopped => 3,
    }
}

/// At every point of a run the consumer is in the state that waits on the
/// request it made last.
pub proof fn lemma_state_awaits_request(
    common: CommonArgsView,
    group: Seq<char>,
    events: Seq<EventView>,
    count: nat,
)
    ensures
        awaits(
            state_at(common, group, events, count),
            reaction_at(common, group, events, count).request,
        ),
{
}

/// A message that answers a fetch is printed and committed at once: the
/// next request is a commit of that message's offset on its partition, in
/// the mode that does not wait. Nothing but the next fetch, or the end,
/// follows that commit: each message is committed exactly once before the
/// next is fetched.
pub proof fn lemma_message_is_committed_once(
    common: CommonArgsView,
    group: Seq<char>,
    events: Seq<EventView>,
    fetch: nat,
)
    requires
        fetch < events.len(),
        reaction_at(common, group, events, fetch).request is Receive,
        events[fetch as int] is Message,
    ensures
        reaction_at(common, group, events, fetch + 1) == (ReactionView {
            lines: seq![received_line(events[fetch as int]->Message_0)],
            request: RequestView::Commit {
                topic: events[fetch as int]->Message_0.topic,
                partition: events[fetch as int]->Message_0.partition,
                offset: events[fetch as int]->Message_0.offset,
                mode: CommitMode::Async,
            },
        }),
        fetch + 1 < events.len() ==> (reaction_at(common, group, events, fetch + 2).request
            is Receive <==> events[fetch as int + 1] is Done),
        fetch + 1 < events.len() ==> (reaction_at(common, group, events, fetch + 2).request
            is Abort <==> !(events[fetch as int + 1] is Done)),
{
    lemma_state_awaits_request(common, group, events, fetch);
}

/// No offset is committed but that of the message that was just received.
pub proof fn lemma_commit_answers_message(
    common: CommonArgsView,
    group: Seq<char>,
    events: Seq<EventView>,
    count: nat,
)
    requires
        count <= events.len(),
        reaction_at(common, group, events, count).request is Commit,
    ensures
        count >= 1,
        reaction_at(common, group, events, (count - 1) as nat).request is Receive,
        events[count - 1] is Message,
        reaction_at(common, group, events, count).request == (RequestView::Commit {
            topic: events[count - 1]->Message_0.topic,
            partition: events[count - 1]->Message_0.partition,
            offset: events[count - 1]->Message_0.offset,
            mode: CommitMode::Async,
        }),
{
    if count >= 1 {
        lemma_state_awaits_request(common, group, events, (count - 1) as nat);
    }
}

/// A fetch follows the subscription or a commit that went well, and
/// nothing else.
pub proof fn lemma_fetch_follows_commit(
    common: CommonArgsView,
    group: Seq<char>,
    events: Seq<EventView>,
    count: nat,
)
    requires
        count <= events.len(),
        reaction_at(common, group, events, count).request is Receive,
    ensures
        count >= 1,
        events[count - 1] is Done,
        reaction_at(common, group, events, (count - 1) as nat).request is Commit || reaction_at(
            common,
            group,
            events,
            (count - 1) as nat,
        ).request is Subscribe,
{
    if count >= 1 {
        lemma_state_awaits_request(common, group, events, (count - 1) as nat);
    }
}

/// The phases follow each other in one direction: a consumer that drains
/// does not run again, and one that has stopped stays so.
pub proof fn lemma_phases_never_go_back(
    common: CommonArgsView,
    group: Seq<char>,
    events: Seq<EventView>,
    earlier: nat,
    later: nat,
)
    requires
        earlier <= later <= events.len(),
    ensures
        rank(phase(state_at(common, group, events, earlier))) <= rank(
            phase(state_at(common, group, events, later)),
        ),
    decreases later - earlier,
{
    if earlier < later {
        lemma_phases_never_go_back(common, group, events, earlier, (later - 1) as nat);
    }
}

/// The termination signal, when it ends a wait, makes the consumer say so
/// and give its partitions back, without any commit.
pub proof fn lemma_termination_unassigns(
    common: CommonArgsView,
    group: Seq<char>,
    events: Seq<EventView>,
    fetch: nat,
)
    requires
        fetch < events.len(),
        reaction_at(common, group, events, fetch).request is Receive,
        events[fetch as int] is Terminate,
    ensures
        reaction_at(common, group, events, fetch + 1) == (ReactionView {
            lines: seq![TERMINATING@],
            request: RequestView::Unassign,
        }),
{
    lemma_state_awaits_request(common, group, events, fetch);
}

/// The partitions are given back for one reason only: the termination
/// signal ended a wait.
pub proof fn lemma_unassign_answers_termination(
    common: CommonArgsView,
    group: Seq<char>,
    events: Seq<EventView>,
    count: nat,
)
    requires
        count <= events.len(),
        reaction_at(common, group, events, count).request is Unassign,
    ensures
        count >= 1,
        reaction_at(common, group, events, (count - 1) as nat).request is Receive,
        events[count - 1] is Terminate,
{
    if count >= 1 {
        lemma_state_awaits_request(common, group, events, (count - 1) as nat);
    }
}

/// Once the consumer has asked to give its partitions back it asks only to
/// leave: it neither fetches nor commits again, nor gives the partitions
/// back a second time. It leaves in good order exactly where that request
/// went well.
pub proof fn lemma_unassign_is_last(
    common: CommonArgsView,
    group: Seq<char>,
    events: Seq<EventView>,
    unassign: nat,
    later: nat,
)
    requires
        unassign < later <= events.len(),
        reaction_at(common, group, events, unassign).request is Unassign,
    ensures
        reaction_at(common, group, events, later).request is Exit || reaction_at(
            common,
            group,
            events,
            later,
        ).request is Abort,
        reaction_at(common, group, events, unassign + 1).request is Exit
            <==> events[unassign as int] is Done,
{
    lemma_state_awaits_request(common, group, events, unassign);
    assert(phase(state_at(common, group, events, unassign + 1)) is Stopped);
    lemma_phases_never_go_back(common, group, events, unassign + 1, later);
    lemma_state_awaits_request(common, group, events, later);
}

/// A consumer that leaves in good order has given its partitions back
/// before, and the request to leave answers just that.
pub proof fn lemma_exit_follows_unassign(
    common: CommonArgsView,
    group: Seq<char>,
    events: Seq<EventView>,
    count: nat,
) -> (unassigned: nat)
    requires
        count <= events.len(),
        reaction_at(common, group, events, count).request is Exit,
    ensures
        unassigned < count,
        reaction_at(common, group, events, unassigned).request is Unassign,
        events[unassigned as int] is Done,
        reaction_at(common, group, events, unassigned + 1).request is Exit,
    decreases count,
{
    lemma_state_awaits_request(common, group, events, count);
    let before = (count - 1) as nat;
    lemma_state_awaits_request(common, group, events, before);
    if state_at(common, group, events, before) is Draining {
        before
    } else {
        lemma_exit_follows_unassign(common, group, events, before)
    }
}

/// The consumer waits for messages only after its setup: the signal handler
/// is asked for first, then the client with the brokers and the group, then
/// the subscription to the one topic.
pub proof fn lemma_setup_precedes_receiving(
    common: CommonArgsView,
    group: Seq<char>,
    events: Seq<EventView>,
    count: nat,
)
    requires
        count <= events.len(),
        phase(state_at(common, group, events, count)) is Running,
    ensures
        count >= 3,
        reaction_at(common, group, events, 0).request == RequestView::ArmSignal,
        reaction_at(common, group, events, 1).request == RequestView::BuildClient(
            consumer_parameters(common.bootstrap_servers, group),
        ),
        reaction_at(common, group, events, 2).request == (RequestView::Subscribe {
            topic: common.topic,
        }),
    decreases count,
{
    if count >= 1 {
        let before = (count - 1) as nat;
        if phase(state_at(common, group, events, before)) is Running {
            lemma_setup_precedes_receiving(common, group, events, before);
        } else {
            assert(state_at(common, group, events, before) is Subscribing);
            assert(before >= 1);
            assert(state_at(common, group, events, (before - 1) as nat) is BuildingClient);
            assert((before - 1) as nat >= 1);
            assert(state_at(common, group, events, (before - 2) as nat) is ArmingSignal);
            lemma_starts_once(common, group, events, (before - 2) as nat);
        }
    }
}

/// Only at its start does a consumer wait for the signal handler.
proof fn lemma_starts_once(
    common: CommonArgsView,
    group: Seq<char>,
    events: Seq<EventView>,
    count: nat,
)
    requires
        state_at(common, group, events, count) is ArmingSignal,
    ensures
        count == 0,
{
}

} // verus!
