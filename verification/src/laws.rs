//! What follows from the description of a dispatch cycle.
//!
//! Most laws speak of quiet cycles: cycles during which one endpoint has
//! something pending and every other queue is found empty. For such a cycle
//! the polls are known, and with them what the cycle leaves behind. The laws
//! on what a cycle keeps and on which endpoints it removes hold of every
//! cycle, whatever its polls find.

use crate::handler::{never_disconnect, round_made, BroadcastHandler, BroadcastMessage, Round};
use crate::model::{fan_out, is_target, run, run_from, step, target_count};
use crate::model::{EndpointView, Polled};
use vstd::prelude::*;

verus! {

/// `count` polls in a row that each find an empty queue.
pub open spec fn idle<T>(count: int) -> Seq<Polled<T>> {
    Seq::new(count as nat, |i: int| Polled::Empty)
}

/// The polls of a cycle over `count` endpoints in which the endpoint at
/// `busy` is found as `visit` says and every other queue is found empty.
pub open spec fn quiet_cycle<T>(count: int, busy: int, visit: Seq<Polled<T>>) -> Seq<Polled<T>> {
    idle(busy) + visit + idle(count - busy - 1)
}

/// What the polls of the endpoint at `sender` find when `value` is all that
/// its queue holds: the value and, where the value does not move the cursor
/// on, the empty queue behind it.
pub open spec fn lone_value<T>(
    endpoints: Seq<EndpointView<T>>,
    sender: int,
    value: T,
    advance_after_delivery: bool,
) -> Seq<Polled<T>> {
    if advance_after_delivery && target_count(endpoints, sender) > 0 {
        seq![Polled::Message(BroadcastMessage::Value(value))]
    } else {
        seq![Polled::Message(BroadcastMessage::Value(value)), Polled::Empty]
    }
}

/// The position that the endpoint at `index` has after the endpoint at
/// `removed` left the registry.
pub open spec fn position_after_removal(index: int, removed: int) -> int {
    if index < removed {
        index
    } else {
        index - 1
    }
}

/// Polls may be handled in two parts: the second part goes on where the first
/// one ended.
pub proof fn law_polls_compose<T>(
    endpoints: Seq<EndpointView<T>>,
    cursor: int,
    first: Seq<Polled<T>>,
    second: Seq<Polled<T>>,
    advance_after_delivery: bool,
)
    ensures
        run_from(endpoints, cursor, first + second, advance_after_delivery) == ({
            let (between, at) = run_from(endpoints, cursor, first, advance_after_delivery);
            run_from(between, at, second, advance_after_delivery)
        }),
    decreases second.len(),
{
    if second.len() == 0 {
        assert(first + second =~= first);
    } else {
        assert((first + second).drop_last() =~= first + second.drop_last());
        law_polls_compose(endpoints, cursor, first, second.drop_last(), advance_after_delivery);
    }
}

/// One poll is one step, as long as the cursor points at an endpoint.
proof fn lemma_single_poll<T>(
    endpoints: Seq<EndpointView<T>>,
    cursor: int,
    polled: Polled<T>,
    advance_after_delivery: bool,
)
    ensures
        run_from(endpoints, cursor, seq![polled], advance_after_delivery) == if cursor
            < endpoints.len() {
            step(endpoints, cursor, polled, advance_after_delivery)
        } else {
            (endpoints, cursor)
        },
{
    assert(seq![polled].drop_last() =~= Seq::<Polled<T>>::empty());
    assert(run_from(endpoints, cursor, seq![polled].drop_last(), advance_after_delivery) == (
        endpoints,
        cursor,
    ));
}

/// Polls that find empty queues move the cursor and change nothing else.
proof fn lemma_idle_polls<T>(
    endpoints: Seq<EndpointView<T>>,
    cursor: int,
    count: int,
    advance_after_delivery: bool,
)
    requires
        0 <= count,
        cursor + count <= endpoints.len(),
    ensures
        run_from(endpoints, cursor, idle(count), advance_after_delivery) == (
            endpoints,
            cursor + count,
        ),
    decreases count,
{
    if count > 0 {
        assert(idle::<T>(count).drop_last() =~= idle::<T>(count - 1));
        lemma_idle_polls(endpoints, cursor, count - 1, advance_after_delivery);
    }
}

/// A quiet cycle passes the idle endpoints before the busy one, handles the
/// busy one, and passes the idle endpoints behind it.
proof fn lemma_quiet_cycle<T>(
    endpoints: Seq<EndpointView<T>>,
    busy: int,
    visit: Seq<Polled<T>>,
    advance_after_delivery: bool,
)
    requires
        0 <= busy < endpoints.len(),
        ({
            let (after, at) = run_from(endpoints, busy, visit, advance_after_delivery);
            at + (endpoints.len() - busy - 1) <= after.len()
        }),
    ensures
        run(endpoints, quiet_cycle(endpoints.len() as int, busy, visit), advance_after_delivery)
            == ({
            let (after, at) = run_from(endpoints, busy, visit, advance_after_delivery);
            (after, at + (endpoints.len() - busy - 1))
        }),
{
    let rest = endpoints.len() - busy - 1;
    let (after, at) = run_from(endpoints, busy, visit, advance_after_delivery);
    lemma_idle_polls(endpoints, 0, busy, advance_after_delivery);
    law_polls_compose(endpoints, 0, idle(busy), visit, advance_after_delivery);
    lemma_idle_polls(after, at, rest, advance_after_delivery);
    law_polls_compose(endpoints, 0, idle(busy) + visit, idle(rest), advance_after_delivery);
}

/// A cycle in which one endpoint has one value pending, and nothing else is
/// pending anywhere, forwards that value to the endpoint's targets, changes
/// nothing else and ends behind the last endpoint.
pub proof fn law_single_value_cycle<T>(
    endpoints: Seq<EndpointView<T>>,
    sender: int,
    value: T,
    advance_after_delivery: bool,
)
    requires
        0 <= sender < endpoints.len(),
    ensures
        run(
            endpoints,
            quiet_cycle(
                endpoints.len() as int,
                sender,
                lone_value(endpoints, sender, value, advance_after_delivery),
            ),
            advance_after_delivery,
        ) == (fan_out(endpoints, sender, value), endpoints.len() as int),
{
    let visit = lone_value(endpoints, sender, value, advance_after_delivery);
    let arrival = Polled::Message(BroadcastMessage::Value(value));
    let forwarded = fan_out(endpoints, sender, value);
    lemma_single_poll(endpoints, sender, arrival, advance_after_delivery);
    if advance_after_delivery && target_count(endpoints, sender) > 0 {
    } else {
        lemma_single_poll(forwarded, sender, Polled::Empty, advance_after_delivery);
        assert(visit =~= seq![arrival] + seq![Polled::Empty]);
        law_polls_compose(
            endpoints,
            sender,
            seq![arrival],
            seq![Polled::Empty],
            advance_after_delivery,
        );
    }
    assert(run_from(endpoints, sender, visit, advance_after_delivery) == (forwarded, sender + 1));
    lemma_quiet_cycle(endpoints, sender, visit, advance_after_delivery);
}

/// Where the sender has self-delivery off, one cycle after it sent a value
/// every other endpoint has the value as its latest delivery, and the sender
/// has received nothing.
pub proof fn law_value_reaches_every_other_endpoint<T>(
    endpoints: Seq<EndpointView<T>>,
    sender: int,
    value: T,
    advance_after_delivery: bool,
)
    requires
        0 <= sender < endpoints.len(),
        !endpoints[sender].send_to_self,
    ensures
        ({
            let after = run(
                endpoints,
                quiet_cycle(
                    endpoints.len() as int,
                    sender,
                    lone_value(endpoints, sender, value, advance_after_delivery),
                ),
                advance_after_delivery,
            ).0;
            &&& after.len() == endpoints.len()
            &&& after[sender] == endpoints[sender]
            &&& forall|j: int|
                0 <= j < endpoints.len() && j != sender ==> #[trigger] after[j]
                    == endpoints[j].with_delivery(value)
        }),
{
    law_single_value_cycle(endpoints, sender, value, advance_after_delivery);
}

/// Where the sender has self-delivery on, one cycle after it sent a value
/// every endpoint, the sender among them, has the value as its latest
/// delivery.
pub proof fn law_self_delivery_includes_the_sender<T>(
    endpoints: Seq<EndpointView<T>>,
    sender: int,
    value: T,
    advance_after_delivery: bool,
)
    requires
        0 <= sender < endpoints.len(),
        endpoints[sender].send_to_self,
    ensures
        ({
            let after = run(
                endpoints,
                quiet_cycle(
                    endpoints.len() as int,
                    sender,
                    lone_value(endpoints, sender, value, advance_after_delivery),
                ),
                advance_after_delivery,
            ).0;
            &&& after.len() == endpoints.len()
            &&& forall|j: int|
                0 <= j < endpoints.len() ==> #[trigger] after[j] == endpoints[j].with_delivery(
                    value,
                )
        }),
{
    law_single_value_cycle(endpoints, sender, value, advance_after_delivery);
}

/// A value sent by the only registered endpoint, with self-delivery off, is
/// dropped: the cycle ends as every other and leaves the registry as it was.
pub proof fn law_lone_endpoint_delivers_nothing<T>(
    endpoints: Seq<EndpointView<T>>,
    value: T,
    advance_after_delivery: bool,
)
    requires
        endpoints.len() == 1,
        !endpoints[0].send_to_self,
    ensures
        run(
            endpoints,
            quiet_cycle(1, 0, lone_value(endpoints, 0, value, advance_after_delivery)),
            advance_after_delivery,
        ) == (endpoints, 1int),
{
    law_single_value_cycle(endpoints, 0, value, advance_after_delivery);
    assert(fan_out(endpoints, 0, value) =~= endpoints);
}

/// An endpoint whose send handles are all gone is absent after the next
/// cycle, provided that the cycle gets to see its queue closed: `backlog` is
/// what the polls of the endpoint find before that, and handling it must
/// leave the cursor on the endpoint. The backlog is handled first; then the
/// endpoint leaves, and the others keep their order, their settings and what
/// was delivered to them.
pub proof fn law_closed_endpoint_leaves<T>(
    endpoints: Seq<EndpointView<T>>,
    closed: int,
    backlog: Seq<Polled<T>>,
    advance_after_delivery: bool,
)
    requires
        0 <= closed < endpoints.len(),
        run_from(endpoints, closed, backlog, advance_after_delivery).0.len() == endpoints.len(),
        run_from(endpoints, closed, backlog, advance_after_delivery).1 == closed,
    ensures
        run(
            endpoints,
            quiet_cycle(endpoints.len() as int, closed, backlog.push(Polled::Closed)),
            advance_after_delivery,
        ) == (
            run_from(endpoints, closed, backlog, advance_after_delivery).0.remove(closed),
            endpoints.len() - 1,
        ),
{
    let drained = run_from(endpoints, closed, backlog, advance_after_delivery).0;
    let visit = backlog.push(Polled::Closed);
    assert(visit.drop_last() =~= backlog);
    assert(run_from(endpoints, closed, visit, advance_after_delivery) == (
        drained.remove(closed),
        closed,
    ));
    lemma_quiet_cycle(endpoints, closed, visit, advance_after_delivery);
}

/// Whatever the polls find, the registry never grows, and the cursor never
/// moves back nor further than the position behind the last endpoint.
pub proof fn law_cycle_stays_in_bounds<T>(
    endpoints: Seq<EndpointView<T>>,
    cursor: int,
    polls: Seq<Polled<T>>,
    advance_after_delivery: bool,
)
    requires
        0 <= cursor <= endpoints.len(),
    ensures
        ({
            let (after, at) = run_from(endpoints, cursor, polls, advance_after_delivery);
            cursor <= at <= after.len() <= endpoints.len()
        }),
    decreases polls.len(),
{
    if polls.len() > 0 {
        law_cycle_stays_in_bounds(endpoints, cursor, polls.drop_last(), advance_after_delivery);
    }
}

/// The removal of an endpoint has no effect on delivery among the others: a
/// value sent by one of them reaches the same endpoints whether it is
/// forwarded before the removal or after it.
pub proof fn law_removal_leaves_delivery_alone<T>(
    endpoints: Seq<EndpointView<T>>,
    removed: int,
    sender: int,
    value: T,
)
    requires
        0 <= removed < endpoints.len(),
        0 <= sender < endpoints.len(),
        sender != removed,
    ensures
        fan_out(endpoints.remove(removed), position_after_removal(sender, removed), value)
            == fan_out(endpoints, sender, value).remove(removed),
{
    let shrunk = endpoints.remove(removed);
    let at = position_after_removal(sender, removed);
    assert(shrunk[at] == endpoints[sender]);
    assert forall|j: int| 0 <= j < shrunk.len() implies #[trigger] fan_out(shrunk, at, value)[j]
        == fan_out(endpoints, sender, value).remove(removed)[j] by {
        let origin = if j < removed {
            j
        } else {
            j + 1
        };
        assert(shrunk[j] == endpoints[origin]);
        assert(is_target(shrunk, at, j) == is_target(endpoints, sender, origin));
    }
    assert(fan_out(shrunk, at, value) =~= fan_out(endpoints, sender, value).remove(removed));
}

/// A change of an endpoint's self-delivery setting touches no value that the
/// dispatcher read before it. Of three messages that the endpoint queued in
/// this order, a value, the change, and a second value, the first value comes
/// back to the endpoint exactly if self-delivery was on before, and the
/// second exactly if the change switched it on. Every other endpoint gets
/// both values.
pub proof fn law_setting_change_is_not_retroactive<T>(
    endpoints: Seq<EndpointView<T>>,
    sender: int,
    first: T,
    flag: bool,
    second: T,
    advance_after_delivery: bool,
)
    requires
        0 <= sender < endpoints.len(),
    ensures
        ({
            let after_first = step(
                endpoints,
                sender,
                Polled::Message(BroadcastMessage::Value(first)),
                advance_after_delivery,
            ).0;
            let after_change = step(
                after_first,
                sender,
                Polled::Message(BroadcastMessage::ChangeSendToSelf(flag)),
                advance_after_delivery,
            ).0;
            let after = step(
                after_change,
                sender,
                Polled::Message(BroadcastMessage::Value(second)),
                advance_after_delivery,
            ).0;
            let before = endpoints[sender].delivered;
            let echo_of_first = if endpoints[sender].send_to_self {
                before.push(first)
            } else {
                before
            };
            &&& after.len() == endpoints.len()
            &&& after[sender].send_to_self == flag
            &&& after[sender].delivered == if flag {
                echo_of_first.push(second)
            } else {
                echo_of_first
            }
            &&& forall|j: int|
                0 <= j < endpoints.len() && j != sender ==> #[trigger] after[j]
                    == endpoints[j].with_delivery(first).with_delivery(second)
        }),
{
}

/// With the default reason to disconnect, the blocking loop never ends on the
/// caller's account: a round ends it exactly when its cycle failed, or when
/// the registry was found empty and `exit_on_disconnected_channels` is set.
/// While endpoints stay registered and the lock is sound, or while that
/// setting is off, every round goes on to the next.
pub proof fn law_default_reason_never_ends_the_loop<T: Clone>(
    handler: &BroadcastHandler<T>,
    round: Round,
)
    requires
        round_made(handler, never_disconnect::<T>, round),
    ensures
        !round.disconnect,
        handler.global_settings().stops_after(round) == (!round.cycle_succeeded || (
            handler.global_settings().exit_on_disconnected_channels && round.registry_empty)),
{
}

/// For each endpoint that is registered after a cycle made the polls
/// `polls`, the position that it had before the cycle.
pub open spec fn origins<T>(
    endpoints: Seq<EndpointView<T>>,
    polls: Seq<Polled<T>>,
    advance_after_delivery: bool,
) -> Seq<int>
    decreases polls.len(),
{
    if polls.len() == 0 {
        Seq::new(endpoints.len(), |position: int| position)
    } else {
        let earlier = origins(endpoints, polls.drop_last(), advance_after_delivery);
        let (before, at) = run(endpoints, polls.drop_last(), advance_after_delivery);
        if 0 <= at < before.len() && polls.last() is Closed {
            earlier.remove(at)
        } else {
            earlier
        }
    }
}

/// The endpoints, named by their positions before the cycle, that some poll
/// of a cycle with the polls `polls` found open: with a message pending, or
/// empty with a send handle still alive.
pub open spec fn found_open<T>(
    endpoints: Seq<EndpointView<T>>,
    polls: Seq<Polled<T>>,
    advance_after_delivery: bool,
) -> Set<int>
    decreases polls.len(),
{
    if polls.len() == 0 {
        Set::empty()
    } else {
        let earlier = found_open(endpoints, polls.drop_last(), advance_after_delivery);
        let (before, at) = run(endpoints, polls.drop_last(), advance_after_delivery);
        if 0 <= at < before.len() && !(polls.last() is Closed) {
            earlier.insert(origins(endpoints, polls.drop_last(), advance_after_delivery)[at])
        } else {
            earlier
        }
    }
}

/// Whatever the polls find, a cycle keeps the endpoints that it does not
/// remove as they were: in their order, each with its two queue ends, and
/// with all that was delivered to it before, to which the cycle only adds.
pub proof fn law_cycle_keeps_order_and_queues<T>(
    endpoints: Seq<EndpointView<T>>,
    polls: Seq<Polled<T>>,
    advance_after_delivery: bool,
)
    ensures
        ({
            let (after, at) = run(endpoints, polls, advance_after_delivery);
            let origin = origins(endpoints, polls, advance_after_delivery);
            &&& 0 <= at <= after.len()
            &&& origin.len() == after.len()
            &&& forall|j: int| 0 <= j < after.len() ==> 0 <= #[trigger] origin[j] < endpoints.len()
            &&& forall|j: int, k: int|
                0 <= j < k < after.len() ==> #[trigger] origin[j] < #[trigger] origin[k]
            &&& forall|j: int|
                0 <= j < after.len() ==> {
                    let was = endpoints[origin[j]];
                    &&& (#[trigger] after[j]).inbound == was.inbound
                    &&& after[j].outbound == was.outbound
                    &&& was.delivered.is_prefix_of(after[j].delivered)
                }
        }),
    decreases polls.len(),
{
    if polls.len() > 0 {
        let earlier = polls.drop_last();
        law_cycle_keeps_order_and_queues(endpoints, earlier, advance_after_delivery);
        let (before, at) = run(endpoints, earlier, advance_after_delivery);
        let (after, next) = run(endpoints, polls, advance_after_delivery);
        let origin = origins(endpoints, polls, advance_after_delivery);
        let origin_before = origins(endpoints, earlier, advance_after_delivery);
        if at < before.len() {
            assert forall|j: int| 0 <= j < after.len() implies {
                let was = endpoints[origin[j]];
                &&& (#[trigger] after[j]).inbound == was.inbound
                &&& after[j].outbound == was.outbound
                &&& was.delivered.is_prefix_of(after[j].delivered)
            } by {
                let from = if polls.last() is Closed && j >= at {
                    j + 1
                } else {
                    j
                };
                assert(origin[j] == origin_before[from]);
                assert(before[from].inbound == after[j].inbound);
                assert(before[from].delivered.is_prefix_of(after[j].delivered));
            }
        }
    }
}

/// Whatever the polls find, every endpoint that the cursor has passed and
/// that is still registered was polled and found open. After a cycle that got
/// to the end of the registry that is every endpoint left.
pub proof fn law_passed_endpoints_were_found_open<T>(
    endpoints: Seq<EndpointView<T>>,
    polls: Seq<Polled<T>>,
    advance_after_delivery: bool,
)
    ensures
        ({
            let (after, at) = run(endpoints, polls, advance_after_delivery);
            let origin = origins(endpoints, polls, advance_after_delivery);
            forall|j: int|
                0 <= j < at && j < after.len() ==> found_open(
                    endpoints,
                    polls,
                    advance_after_delivery,
                ).contains(#[trigger] origin[j])
        }),
    decreases polls.len(),
{
    if polls.len() > 0 {
        let earlier = polls.drop_last();
        law_passed_endpoints_were_found_open(endpoints, earlier, advance_after_delivery);
        law_cycle_keeps_order_and_queues(endpoints, earlier, advance_after_delivery);
        law_cycle_keeps_order_and_queues(endpoints, polls, advance_after_delivery);
    }
}

/// An endpoint that no poll of a cycle finds open is absent after the cycle,
/// if the cycle got to the end of the registry, whatever the other endpoints
/// had pending. That is so for an endpoint whose send handles were all gone
/// and whose queue was drained when the cycle began: every poll of it finds
/// its queue closed.
pub proof fn law_endpoint_never_found_open_leaves<T>(
    endpoints: Seq<EndpointView<T>>,
    polls: Seq<Polled<T>>,
    advance_after_delivery: bool,
    closed: int,
)
    requires
        run(endpoints, polls, advance_after_delivery).1 >= run(
            endpoints,
            polls,
            advance_after_delivery,
        ).0.len(),
        !found_open(endpoints, polls, advance_after_delivery).contains(closed),
    ensures
        ({
            let after = run(endpoints, polls, advance_after_delivery).0;
            let origin = origins(endpoints, polls, advance_after_delivery);
            forall|j: int| 0 <= j < after.len() ==> #[trigger] origin[j] != closed
        }),
{
    law_passed_endpoints_were_found_open(endpoints, polls, advance_after_delivery);
}

/// A cycle that got to the end of the registry and found no endpoint open
/// leaves the registry empty. With `exit_on_disconnected_channels` set, the
/// round of the blocking loop that holds such a cycle is its last.
pub proof fn law_cycle_over_closed_queues_empties_the_registry<T>(
    endpoints: Seq<EndpointView<T>>,
    polls: Seq<Polled<T>>,
    advance_after_delivery: bool,
)
    requires
        run(endpoints, polls, advance_after_delivery).1 >= run(
            endpoints,
            polls,
            advance_after_delivery,
        ).0.len(),
        forall|position: int| !found_open(endpoints, polls, advance_after_delivery).contains(position),
    ensures
        run(endpoints, polls, advance_after_delivery).0.len() == 0,
{
    law_passed_endpoints_were_found_open(endpoints, polls, advance_after_delivery);
    let after = run(endpoints, polls, advance_after_delivery).0;
    let origin = origins(endpoints, polls, advance_after_delivery);
    if after.len() > 0 {
        assert(found_open(endpoints, polls, advance_after_delivery).contains(origin[0]));
    }
}

} // verus!
