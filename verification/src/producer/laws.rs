//! What holds of every run of the producer, whatever events it is handed.

use crate::args::{CommonArgsView, ProducerArgsView};
use crate::producer::{
    delivered_line, launch, react, sending_line, Event, ProducerView, ReactionView, RequestView,
    CLIENT_BUILT, SEND_TIMEOUT_SECS,
};
use crate::record::{attachable, record_for};
use crate::text::{decimal, lemma_decimal_has_no_space, lemma_decimal_is_injective};
use vstd::prelude::*;

verus! {

/// The state of a producer that was started with these arguments, once the
/// first `count` of the events have been handed to it.
pub open spec fn state_at(
    common: CommonArgsView,
    args: ProducerArgsView,
    events: Seq<Event>,
    count: nat,
) -> ProducerView
    decreases count,
{
    if count == 0 {
        launch(common, args).0
    } else {
        react(state_at(common, args, events, (count - 1) as nat), events[count - 1]).0
    }
}

/// The reactions of that producer, by number: the first is made at the
/// start, and each later one answers the event before it.
pub open spec fn reaction_at(
    common: CommonArgsView,
    args: ProducerArgsView,
    events: Seq<Event>,
    count: nat,
) -> ReactionView {
    if count == 0 {
        launch(common, args).1
    } else {
        react(state_at(common, args, events, (count - 1) as nat), events[count - 1]).1
    }
}

/// Once the client is built the producer is never again in the state that
/// waits for it.
proof fn lemma_builds_once(
    common: CommonArgsView,
    args: ProducerArgsView,
    events: Seq<Event>,
    count: nat,
)
    requires
        state_at(common, args, events, count) is BuildingClient,
    ensures
        count == 0,
{
}

/// A producer that has stopped stays so.
pub proof fn lemma_stopped_stays_stopped(
    common: CommonArgsView,
    args: ProducerArgsView,
    events: Seq<Event>,
    earlier: nat,
    later: nat,
)
    requires
        earlier <= later <= events.len(),
        state_at(common, args, events, earlier) is Finished || state_at(
            common,
            args,
            events,
            earlier,
        ) is Failed,
    ensures
        state_at(common, args, events, later) == state_at(common, args, events, earlier),
    decreases later - earlier,
{
    if earlier < later {
        lemma_stopped_stays_stopped(common, args, events, earlier, (later - 1) as nat);
    }
}

/// A run sends at most one message: the only request to send is the one
/// that answers the building of the client, and it carries the record
/// assembled from the arguments and the fixed timeout.
pub proof fn lemma_sends_once(
    common: CommonArgsView,
    args: ProducerArgsView,
    events: Seq<Event>,
    count: nat,
)
    requires
        count <= events.len(),
        reaction_at(common, args, events, count).request is Send,
    ensures
        count == 1,
        events[0] is Done,
        attachable(args.header),
        reaction_at(common, args, events, count) == (ReactionView {
            lines: seq![CLIENT_BUILT@, sending_line(common.topic, args)],
            request: RequestView::Send {
                record: record_for(common.topic, args),
                timeout_secs: SEND_TIMEOUT_SECS,
            },
        }),
{
    if count >= 1 {
        let before = (count - 1) as nat;
        assert(state_at(common, args, events, before) is BuildingClient);
        lemma_builds_once(common, args, events, before);
    }
}

/// A producer leaves in good order only after the broker has acknowledged
/// its one message, and it then reports the partition and the offset that
/// the broker gave.
pub proof fn lemma_exit_follows_delivery(
    common: CommonArgsView,
    args: ProducerArgsView,
    events: Seq<Event>,
    count: nat,
)
    requires
        count <= events.len(),
        reaction_at(common, args, events, count).request is Exit,
    ensures
        count >= 2,
        reaction_at(common, args, events, 1).request is Send,
        events[1] is Delivered,
        reaction_at(common, args, events, 2) == (ReactionView {
            lines: seq![delivered_line(events[1]->partition, events[1]->offset)],
            request: RequestView::Exit,
        }),
    decreases count,
{
    if count >= 1 {
        let before = (count - 1) as nat;
        if state_at(common, args, events, before) is Sending {
            assert(before >= 1);
            assert(state_at(common, args, events, (before - 1) as nat) is BuildingClient);
            lemma_builds_once(common, args, events, (before - 1) as nat);
        } else {
            assert(state_at(common, args, events, before) is Finished);
            assert(before >= 1);
            lemma_exit_follows_delivery(common, args, events, before);
        }
    }
}

/// Two runs on the same arguments are two sends: each run asks for the
/// same record to be sent, whatever the other run was told, and each
/// reports the partition and offset of its own delivery.
pub proof fn lemma_runs_are_independent(
    common: CommonArgsView,
    args: ProducerArgsView,
    first: Seq<Event>,
    second: Seq<Event>,
)
    requires
        attachable(args.header),
        first.len() >= 2,
        second.len() >= 2,
        first[0] is Done,
        second[0] is Done,
        first[1] is Delivered,
        second[1] is Delivered,
    ensures
        reaction_at(common, args, first, 1).request is Send,
        reaction_at(common, args, first, 1) == reaction_at(common, args, second, 1),
        reaction_at(common, args, first, 2).lines == seq![
            delivered_line(first[1]->partition, first[1]->offset),
        ],
        reaction_at(common, args, second, 2).lines == seq![
            delivered_line(second[1]->partition, second[1]->offset),
        ],
{
    assert(state_at(common, args, first, 1) is Sending);
    assert(state_at(common, args, second, 1) is Sending);
}

/// The confirmation holds both values: the partition right after its
/// opening words, and the offset at its end.
pub proof fn lemma_confirmation_holds_both_values(partition: i32, offset: i64)
    ensures
        ({
            let line = delivered_line(partition, offset);
            let opening = "Message delivered to partition "@.len() as int;
            let shown_partition = decimal(partition as int);
            let shown_offset = decimal(offset as int);
            &&& line.subrange(opening, opening + shown_partition.len()) == shown_partition
            &&& line.subrange(line.len() - shown_offset.len(), line.len() as int) == shown_offset
        }),
{
    let line = delivered_line(partition, offset);
    let opening = "Message delivered to partition "@.len() as int;
    let shown_partition = decimal(partition as int);
    let shown_offset = decimal(offset as int);
    assert(line.subrange(opening, opening + shown_partition.len()) =~= shown_partition);
    assert(line.subrange(line.len() - shown_offset.len(), line.len() as int) =~= shown_offset);
}

/// The confirmation tells deliveries apart: two that read the same report
/// the same partition and the same offset.
pub proof fn lemma_confirmation_tells_deliveries_apart(
    partition: i32,
    offset: i64,
    other_partition: i32,
    other_offset: i64,
)
    requires
        delivered_line(partition, offset) == delivered_line(other_partition, other_offset),
    ensures
        partition == other_partition,
        offset == other_offset,
{
    reveal_strlit(" with offset ");
    let opening = "Message delivered to partition "@;
    let middle = " with offset "@;
    let left_partition = decimal(partition as int);
    let left_offset = decimal(offset as int);
    let right_partition = decimal(other_partition as int);
    let right_offset = decimal(other_offset as int);
    let line = delivered_line(partition, offset);
    let ours = left_partition + middle + left_offset;
    let theirs = right_partition + middle + right_offset;
    assert(line.subrange(opening.len() as int, line.len() as int) =~= ours);
    assert(line.subrange(opening.len() as int, line.len() as int) =~= theirs);
    lemma_decimal_has_no_space(partition as int);
    lemma_decimal_has_no_space(other_partition as int);
    assert(middle[0] == ' ');
    if left_partition.len() < right_partition.len() {
        assert(ours[left_partition.len() as int] == middle[0]);
        assert(theirs[left_partition.len() as int] == right_partition[left_partition.len() as int]);
    } else if right_partition.len() < left_partition.len() {
        assert(theirs[right_partition.len() as int] == middle[0]);
        assert(ours[right_partition.len() as int] == left_partition[right_partition.len() as int]);
    }
    assert(left_partition.len() == right_partition.len());
    assert(ours.subrange(0, left_partition.len() as int) =~= left_partition);
    assert(theirs.subrange(0, left_partition.len() as int) =~= right_partition);
    let rest = left_partition.len() + middle.len();
    assert(ours.subrange(rest as int, ours.len() as int) =~= left_offset);
    assert(theirs.subrange(rest as int, theirs.len() as int) =~= right_offset);
    lemma_decimal_is_injective(partition as int, other_partition as int);
    lemma_decimal_is_injective(offset as int, other_offset as int);
}

} // verus!
