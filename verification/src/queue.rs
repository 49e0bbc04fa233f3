//! The channel between the handles and a background thread, event by event.
//!
//! [`protocol`](crate::protocol) takes requests one after another. Here they are queued while the
//! thread is busy, and the thread gives up the queue when it ends. What is laid down of each event
//! is what the channel and the thread do: the channel takes a message exactly as long as its
//! receiver is there, hands messages out in the order in which it took them, and drops what it
//! holds when the receiver goes. The thread does as
//! [`Server::serve`](crate::threaded::Server::serve) promises, which reports a successful close
//! only when the receiver is gone. A thread that a panicking function ends drops its receiver too.

use vstd::prelude::*;

use crate::error::Closed;
use crate::protocol::{Ending, Fate, Request, ThreadHistory};

verus! {

/// The channel and the thread at one moment.
#[verifier::ext_equal]
pub struct Moment {
    /// The requests that the channel holds, the oldest first.
    pub queue: Seq<Request>,
    /// What the thread holds: an open connection, or nothing once it is closed.
    pub held: Option<rusqlite::Connection>,
    /// Whether the thread still has its receiver.
    pub listening: bool,
}

/// Something that happens to the channel or the thread.
pub enum Event {
    /// A handle puts a request to the channel and is told whether the channel took it.
    Put { request: Request, submitted: Result<(), Closed> },
    /// The thread serves the oldest request.
    Serve { request: Request, ending: Ending },
    /// The thread gives up its receiver, because the connection is closed or because it ends.
    HangUp,
    /// The news that the connection is closed is sent to whoever asked for it.
    Report,
}

/// `event` leads from `before` to `after`.
pub open spec fn happens(before: Moment, event: Event, after: Moment) -> bool {
    match event {
        Event::Put { request, submitted } => {
            &&& submitted is Ok <==> before.listening
            &&& after == Moment {
                queue: if before.listening {
                    before.queue.push(request)
                } else {
                    before.queue
                },
                ..before
            }
        },
        Event::Serve { request, ending } => {
            &&& before.listening && before.held is Some
            &&& before.queue.len() > 0 && before.queue[0] == request
            &&& crate::protocol::thread_step(before.held, request, after.held, ending)
            &&& after == Moment { queue: before.queue.skip(1), held: after.held, listening: true }
        },
        Event::HangUp => {
            &&& before.listening
            &&& after == Moment { queue: Seq::empty(), held: None, listening: false }
        },
        Event::Report => {
            &&& !before.listening
            &&& after == before
        },
    }
}

/// What has happened since the thread began to serve.
pub struct Timeline {
    /// The events.
    pub events: Seq<Event>,
    /// `moments[i]` is before event `i` and `moments[i + 1]` after it.
    pub moments: Seq<Moment>,
}

impl Timeline {
    /// The thread begins with an open connection and nothing to do, and every event follows from
    /// the moment before it.
    pub open spec fn valid(self) -> bool {
        &&& self.moments.len() == self.events.len() + 1
        &&& self.moments[0].listening && self.moments[0].held is Some
        &&& self.moments[0].queue.len() == 0
        &&& forall|i: int| #![trigger self.events[i]]
            0 <= i < self.events.len() ==> happens(
                self.moments[i],
                self.events[i],
                self.moments[i + 1],
            )
    }

    /// The requests that the channel has taken, in the order in which it took them, before event
    /// `now`.
    pub open spec fn taken(self, now: int) -> Seq<Request>
        decreases now,
    {
        if now <= 0 {
            Seq::empty()
        } else {
            match self.events[now - 1] {
                Event::Put { request, submitted: Ok(()) } => self.taken(now - 1).push(request),
                _ => self.taken(now - 1),
            }
        }
    }

    /// The requests that the thread has served before event `now`, with what became of them.
    pub open spec fn served(self, now: int) -> ThreadHistory
        decreases now,
    {
        if now <= 0 {
            ThreadHistory {
                requests: Seq::empty(),
                endings: Seq::empty(),
                states: seq![self.moments[0].held],
            }
        } else {
            let earlier = self.served(now - 1);
            match self.events[now - 1] {
                Event::Serve { request, ending } => ThreadHistory {
                    requests: earlier.requests.push(request),
                    endings: earlier.endings.push(ending),
                    states: earlier.states.push(self.moments[now].held),
                },
                _ => earlier,
            }
        }
    }
}

/// Once the thread has given up its receiver, for whatever reason it ended, every request is
/// refused and none is served.
pub proof fn refuses_without_a_receiver(timeline: Timeline, gone_at: int, now: int)
    requires
        timeline.valid(),
        0 <= gone_at <= now < timeline.events.len(),
        !timeline.moments[gone_at].listening,
    ensures
        !timeline.moments[now].listening,
        timeline.events[now] matches Event::Put { submitted, .. } ==> submitted is Err,
        timeline.events[now] !is Serve,
    decreases now - gone_at,
{
    if gone_at < now {
        refuses_without_a_receiver(timeline, gone_at, now - 1);
    }
    let event = timeline.events[now];
}

/// A request that is put to the channel after a successful close has been reported is refused with
/// [`Closed`], through whichever handle it comes, and no function is run from then on. What the
/// channel still held when the connection was closed is not run either.
pub proof fn refused_after_reported_close(timeline: Timeline, reported_at: int, now: int)
    requires
        timeline.valid(),
        0 <= reported_at < now < timeline.events.len(),
        timeline.events[reported_at] is Report,
    ensures
        timeline.events[now] matches Event::Put { submitted, .. } ==> submitted is Err,
        timeline.events[now] !is Serve,
{
    let report = timeline.events[reported_at];
    refuses_without_a_receiver(timeline, reported_at, now);
}

/// Until the thread gives up its receiver no request is refused.
pub proof fn taken_while_listening(timeline: Timeline, now: int)
    requires
        timeline.valid(),
        0 <= now < timeline.events.len(),
        forall|i: int| 0 <= i < now ==> #[trigger] timeline.events[i] !is HangUp,
    ensures
        timeline.moments[now].listening,
        timeline.events[now] matches Event::Put { submitted, .. } ==> submitted is Ok,
    decreases now,
{
    if now > 0 {
        taken_while_listening(timeline, now - 1);
    }
    let event = timeline.events[now];
}

/// As long as nobody asks for the connection to be closed, and no function makes the thread end
/// early, the connection is open, every call is taken, and every request that is served is a
/// function, run on the connection and answered. So a connection that is never explicitly closed
/// never refuses a call.
pub proof fn open_while_nobody_closes(timeline: Timeline, now: int)
    requires
        timeline.valid(),
        0 <= now < timeline.events.len(),
        forall|i: int| 0 <= i < now ==> (#[trigger] timeline.events[i] matches Event::Put {
            request,
            ..
        } ==> request is Call),
        forall|i: int|
            0 <= i < now && #[trigger] timeline.events[i] is HangUp ==> timeline.moments[i].held
                is None,
    ensures
        timeline.moments[now].listening && timeline.moments[now].held is Some,
        forall|j: int|
            0 <= j < timeline.moments[now].queue.len() ==> #[trigger] timeline.moments[now].queue[j]
                is Call,
        timeline.events[now] matches Event::Put { submitted, .. } ==> submitted is Ok,
        timeline.events[now] matches Event::Serve { request, ending } ==> {
            &&& request matches Request::Call(function) && function.ran_on(
                timeline.moments[now].held->Some_0,
            )
            &&& ending == Ending::Call(Fate::Answered(()))
        },
    decreases now,
{
    if now > 0 {
        open_while_nobody_closes(timeline, now - 1);
        let event = timeline.events[now - 1];
        let (before, after) = (timeline.moments[now - 1], timeline.moments[now]);
        assert(happens(before, event, after));
        assert forall|j: int| 0 <= j < after.queue.len() implies #[trigger] after.queue[j] is Call
            by {
            match event {
                Event::Serve { .. } => {
                    assert(after.queue[j] == before.queue[j + 1]);
                },
                _ => {},
            }
        }
    }
    let event = timeline.events[now];
    assert(happens(timeline.moments[now], event, timeline.moments[now + 1]));
}

/// Requests are served one at a time, in the order in which the channel took them, none of them
/// twice and none of them passed over. As long as the thread listens, what it has not served is
/// queued. What it has served is a history in which each request meets the connection that the
/// request before it left.
pub proof fn served_in_order_of_arrival(timeline: Timeline, now: int)
    requires
        timeline.valid(),
        0 <= now <= timeline.events.len(),
    ensures
        timeline.served(now).valid(),
        timeline.served(now).requests.is_prefix_of(timeline.taken(now)),
        timeline.moments[now].listening ==> {
            &&& timeline.taken(now) == timeline.served(now).requests + timeline.moments[now].queue
            &&& timeline.served(now).states.last() == timeline.moments[now].held
        },
    decreases now,
{
    if now > 0 {
        let last = now - 1;
        let event = timeline.events[last];
        let (before, after) = (timeline.moments[last], timeline.moments[now]);
        served_in_order_of_arrival(timeline, last);
        let (earlier, later) = (timeline.served(last), timeline.served(now));
        assert(happens(before, event, after));
        match event {
            Event::Serve { request, ending } => {
                assert(before.queue =~= seq![request] + before.queue.skip(1));
                assert(timeline.taken(now) =~= later.requests + after.queue);
                assert forall|i: int| #![trigger later.requests[i]] 0 <= i
                    < later.requests.len() implies crate::protocol::thread_step(
                    later.states[i],
                    later.requests[i],
                    later.states[i + 1],
                    later.endings[i],
                ) by {
                    if i < earlier.requests.len() {
                        let served = earlier.requests[i];
                    }
                }
            },
            Event::Put { request, submitted } => {
                if before.listening {
                    assert(timeline.taken(now) =~= later.requests + after.queue);
                }
            },
            _ => {},
        }
    } else {
        assert(timeline.taken(now) =~= timeline.served(now).requests + timeline.moments[now].queue);
    }
}

} // verus!
