//! Forwarding a stream into a channel.

use vstd::prelude::*;
use crate::machine::{is_run, Machine};

verus! {

/// Forwarding a stream, by what is to be done next.
#[derive(Debug)]
pub enum Relay<I> {
    /// Wait for the next item of the stream.
    Next,
    /// Send an item.
    Send(I),
    /// Stop: the stream ended, or nobody receives any more.
    Stopped,
}

/// What forwarding waits for.
#[derive(Debug)]
pub enum RelayEvent<I> {
    /// The next item, or the end of the stream.
    Item(Option<I>),
    /// Whether the item was taken.
    Sent(bool),
}

impl<I> Relay<I> {
    /// Begins with the first item, where the stream could be opened.
    pub fn begin(opened: bool) -> (r: Self)
        ensures
            r == if opened {
                Relay::<I>::Next
            } else {
                Relay::<I>::Stopped
            },
    {
        if opened {
            Relay::Next
        } else {
            Relay::Stopped
        }
    }
}

impl<I> Machine for Relay<I> {
    type Event = RelayEvent<I>;

    open spec fn awaits(self, event: RelayEvent<I>) -> bool {
        match self {
            Relay::Next => event is Item,
            Relay::Send(_) => event is Sent,
            Relay::Stopped => false,
        }
    }

    open spec fn stepped(self, event: RelayEvent<I>, next: Self) -> bool {
        match (self, event) {
            (Relay::Next, RelayEvent::Item(Some(item))) => next == Relay::Send(item),
            (Relay::Next, RelayEvent::Item(None)) => next == Relay::<I>::Stopped,
            (Relay::Send(_), RelayEvent::Sent(taken)) => next == if taken {
                Relay::<I>::Next
            } else {
                Relay::<I>::Stopped
            },
            _ => next == self,
        }
    }

    fn step(self, event: RelayEvent<I>) -> (next: Self) {
        match (self, event) {
            (Relay::Next, RelayEvent::Item(Some(item))) => Relay::Send(item),
            (Relay::Next, RelayEvent::Item(None)) => Relay::Stopped,
            (Relay::Send(_), RelayEvent::Sent(taken)) => if taken {
                Relay::Next
            } else {
                Relay::Stopped
            },
            (state, _) => state,
        }
    }
}

/// The items that the stream gave, in order.
pub open spec fn given<I>(events: Seq<RelayEvent<I>>) -> Seq<I>
    decreases events.len(),
{
    if events.len() == 0 {
        seq![]
    } else {
        match events.last() {
            RelayEvent::Item(Some(item)) => given(events.drop_last()).push(item),
            _ => given(events.drop_last()),
        }
    }
}

/// The items that were sent and taken, in order.
pub open spec fn taken<I>(states: Seq<Relay<I>>, events: Seq<RelayEvent<I>>) -> Seq<I>
    decreases events.len(),
{
    if events.len() == 0 {
        seq![]
    } else {
        let before = taken(states.drop_last(), events.drop_last());
        match (states[events.len() - 1], events.last()) {
            (Relay::Send(item), RelayEvent::Sent(true)) => before.push(item),
            _ => before,
        }
    }
}

/// Items are passed on as they come: what was taken is what the stream gave, in the
/// same order and with none left out, up to an item that is being sent or was refused.
pub proof fn relay_keeps_the_stream<I>(states: Seq<Relay<I>>, events: Seq<RelayEvent<I>>)
    requires
        is_run(states, events),
        states[0] == Relay::<I>::Next,
    ensures
        match states.last() {
            Relay::Next => taken(states, events) == given(events),
            Relay::Send(item) => taken(states, events).push(item) == given(events),
            Relay::Stopped => if events.last() == RelayEvent::<I>::Item(None) {
                taken(states, events) == given(events)
            } else {
                events.last() == RelayEvent::<I>::Sent(false) && taken(states, events)
                    == given(events).drop_last()
            },
        },
    decreases events.len(),
{
    if events.len() > 0 {
        let n = events.len() - 1;
        assert(states.take(n + 1) =~= states.drop_last());
        assert(events.take(n) =~= events.drop_last());
        crate::machine::run_prefix(states, events, n as int);
        relay_keeps_the_stream(states.drop_last(), events.drop_last());
        assert(states[n].awaits(events[n]));
        assert(states.drop_last().last() == states[n]);
        if let Relay::Send(item) = states[n] {
            assert(taken(states.drop_last(), events.drop_last()).push(item).drop_last()
                =~= taken(states.drop_last(), events.drop_last()));
        }
    }
}

/// Once an item was refused, or the stream ended, nothing more is asked for.
pub proof fn stopped_relay_stays_stopped<I>(
    states: Seq<Relay<I>>,
    events: Seq<RelayEvent<I>>,
    i: int,
)
    requires
        is_run(states, events),
        0 <= i < events.len(),
        events[i] == RelayEvent::<I>::Sent(false) || events[i] == RelayEvent::<I>::Item(None),
    ensures
        i + 1 == events.len(),
        states.last() == Relay::<I>::Stopped,
{
    assert(states[i].awaits(events[i]));
    assert(i + 1 < events.len() ==> states[i + 1].awaits(events[i + 1]));
}

/// An item that comes is sent as it is; once it was taken, the next one is waited for; and
/// forwarding stops where the stream ends or an item is not taken, and nowhere else.
pub proof fn relay_follows_the_stream<I>(
    states: Seq<Relay<I>>,
    events: Seq<RelayEvent<I>>,
    i: int,
)
    requires
        is_run(states, events),
        0 <= i < events.len(),
    ensures
        events[i] matches RelayEvent::Item(Some(item)) ==> states[i] is Next && states[i + 1]
            == Relay::Send(item),
        events[i] == RelayEvent::<I>::Sent(true) ==> states[i] is Send && states[i + 1] is Next,
        states[i + 1] is Stopped <==> (events[i] == RelayEvent::<I>::Sent(false) || events[i]
            == RelayEvent::<I>::Item(None)),
{
    assert(states[i].awaits(events[i]));
}

/// Forwarding begins with the first item exactly where the stream could be opened.
pub proof fn relay_begins_with_an_open_stream<I>(opened: bool, relay: Relay<I>)
    requires
        call_ensures(Relay::<I>::begin, (opened,), relay),
    ensures
        opened ==> relay is Next,
        !opened ==> relay is Stopped,
{
}

/// Whatever comes of a step of forwarding is awaited there, and nothing is awaited once it
/// has stopped.
pub proof fn relay_awaits_every_outcome<I>(
    relay: Relay<I>,
    item: Option<I>,
    taken: bool,
    event: RelayEvent<I>,
)
    ensures
        relay is Next <==> relay.awaits(RelayEvent::Item(item)),
        relay is Send <==> relay.awaits(RelayEvent::Sent(taken)),
        relay is Stopped ==> !relay.awaits(event),
{
}

/// An event that a relay does not wait for changes nothing.
pub proof fn stray_events_do_not_touch_a_relay<I>(state: Relay<I>, event: RelayEvent<I>, next: Relay<I>)
    requires
        !state.awaits(event),
        state.stepped(event, next),
    ensures
        next == state,
{
}

} // verus!
