//! The bridge as a whole: a model of the receiver, the delivery queue and the delivery worker
//! at work together, and what holds of every run of it.
//!
//! The model is made of the same functions that specify the executable parts: a received
//! packet changes the queue as `handle_packet` does, the worker turns to the queue as
//! `ApiClient::begin` does, and it takes the outcome of a request as `ApiClient::resolve` does.

use crate::client::{
    begin_spec, first_request, resolve_spec, EffectView, ClientView, OutcomeView, WorkerState,
    API_ATTEMPTS, API_RETRY_MS, API_TIMEOUT_MS,
};
use crate::command::CommandView;
use crate::message::PacketView;
use crate::receiver::{queue_after, reception};
use vstd::prelude::*;

verus! {

/// The state of the bridge: the commands that wait, and the worker.
pub struct Bridge {
    pub queue: Seq<CommandView>,
    pub client: ClientView,
}

/// One move of the bridge.
pub enum Move {
    /// The receiver handles a packet.
    Receive(PacketView),
    /// The worker turns to the queue.
    Begin,
    /// The worker learns how its request ended.
    Resolve(OutcomeView),
}

impl Bridge {
    /// The bridge before anything has arrived: nothing waits, and the worker is idle.
    pub open spec fn start(server: Seq<char>) -> Bridge {
        Bridge {
            queue: Seq::<CommandView>::empty(),
            client: ClientView { server, state: WorkerState::Idle },
        }
    }

    /// The bridge after a move.
    pub open spec fn step(self, m: Move) -> Bridge {
        match m {
            Move::Receive(packet) => Bridge {
                queue: queue_after(self.queue, reception(packet)),
                client: self.client,
            },
            Move::Begin => Bridge {
                queue: begin_spec(self.client, self.queue).1,
                client: begin_spec(self.client, self.queue).0,
            },
            Move::Resolve(outcome) => Bridge {
                queue: self.queue,
                client: resolve_spec(self.client, outcome).0,
            },
        }
    }

    /// What the worker asks for in a move.
    pub open spec fn effect(self, m: Move) -> Option<EffectView> {
        match m {
            Move::Receive(_) => None,
            Move::Begin => begin_spec(self.client, self.queue).2,
            Move::Resolve(outcome) => resolve_spec(self.client, outcome).1,
        }
    }

    /// The bridge after a sequence of moves.
    pub open spec fn run(self, moves: Seq<Move>) -> Bridge
        decreases moves.len(),
    {
        if moves.len() == 0 {
            self
        } else {
            self.run(moves.drop_last()).step(moves.last())
        }
    }

    /// The requests that the worker asked for in a sequence of moves, retries among them, in
    /// order, each as the address that it goes to.
    pub open spec fn requests(self, moves: Seq<Move>) -> Seq<Seq<char>>
        decreases moves.len(),
    {
        if moves.len() == 0 {
            Seq::<Seq<char>>::empty()
        } else {
            match self.run(moves.drop_last()).effect(moves.last()) {
                Some(EffectView::Send { url, .. }) => self.requests(moves.drop_last()).push(url),
                _ => self.requests(moves.drop_last()),
            }
        }
    }

    /// The first request for each command that the worker took from the queue in a sequence
    /// of moves, in order, each as the address that it goes to. A request made again after a
    /// failure does not count.
    pub open spec fn first_requests(self, moves: Seq<Move>) -> Seq<Seq<char>>
        decreases moves.len(),
    {
        if moves.len() == 0 {
            Seq::<Seq<char>>::empty()
        } else {
            match self.run(moves.drop_last()).effect(moves.last()) {
                Some(EffectView::Send { url, .. }) if moves.last() is Begin =>
                    self.first_requests(moves.drop_last()).push(url),
                _ => self.first_requests(moves.drop_last()),
            }
        }
    }
}

/// The commands that the receiver decoded in a sequence of moves, in order.
pub open spec fn accepted(moves: Seq<Move>) -> Seq<CommandView>
    decreases moves.len(),
{
    if moves.len() == 0 {
        Seq::<CommandView>::empty()
    } else {
        match moves.last() {
            Move::Receive(packet) => queue_after(accepted(moves.drop_last()), reception(packet)),
            _ => accepted(moves.drop_last()),
        }
    }
}

/// The addresses that the requests for a sequence of commands go to.
pub open spec fn request_urls(server: Seq<char>, commands: Seq<CommandView>) -> Seq<Seq<char>> {
    commands.map_values(|c: CommandView| c.request_url(server))
}

/// No move changes the address of the mixer.
pub proof fn lemma_run_keeps_the_server(bridge: Bridge, moves: Seq<Move>)
    ensures
        bridge.run(moves).client.server == bridge.client.server,
    decreases moves.len(),
{
    if moves.len() > 0 {
        lemma_run_keeps_the_server(bridge, moves.drop_last());
    }
}

/// No move takes the worker beyond its last attempt: a request in flight is always at one of
/// the attempts from the first to the last.
pub proof fn lemma_run_keeps_the_attempts_in_bounds(bridge: Bridge, moves: Seq<Move>)
    requires
        bridge.client.state.wf(),
    ensures
        bridge.run(moves).client.state.wf(),
    decreases moves.len(),
{
    if moves.len() > 0 {
        lemma_run_keeps_the_attempts_in_bounds(bridge, moves.drop_last());
    }
}

proof fn lemma_request_urls_push(server: Seq<char>, commands: Seq<CommandView>, last: CommandView)
    ensures
        request_urls(server, commands.push(last)) == request_urls(server, commands).push(
            last.request_url(server),
        ),
{
}

proof fn lemma_request_urls_drop_first(server: Seq<char>, commands: Seq<CommandView>)
    requires
        commands.len() > 0,
    ensures
        request_urls(server, commands) == seq![commands[0].request_url(server)] + request_urls(
            server,
            commands.drop_first(),
        ),
{
}

/// Delivery keeps the order of arrival. Whatever the moves of a run, the first requests that
/// the worker asked for, followed by the requests for the commands that still wait, are the
/// requests for the commands that waited at the start followed by those that the receiver
/// decoded since, one request for each command and in the same order.
pub proof fn lemma_requests_keep_the_order_of_arrival(bridge: Bridge, moves: Seq<Move>)
    ensures
        bridge.first_requests(moves) + request_urls(
            bridge.client.server,
            bridge.run(moves).queue,
        ) == request_urls(bridge.client.server, bridge.queue + accepted(moves)),
    decreases moves.len(),
{
    if moves.len() > 0 {
        let server = bridge.client.server;
        let earlier = moves.drop_last();
        let before = bridge.run(earlier);
        lemma_requests_keep_the_order_of_arrival(bridge, earlier);
        lemma_run_keeps_the_server(bridge, earlier);
        match moves.last() {
            Move::Receive(packet) => {
                // A decoded command joins the end of what waits and of what has arrived.
                if let Ok(command) = reception(packet) {
                    lemma_request_urls_push(server, before.queue, command);
                    lemma_request_urls_push(server, bridge.queue + accepted(earlier), command);
                }
            },
            Move::Begin => {
                // The command at the front moves from what waits to what was issued.
                if before.client.state is Idle && before.queue.len() > 0 {
                    lemma_request_urls_drop_first(server, before.queue);
                }
            },
            Move::Resolve(_) => {},
        }
    }
}

/// From the start of the bridge, the first requests of a run go to the mixer in the order in
/// which their commands were decoded: they are the requests for the first so many of the
/// decoded commands.
pub proof fn lemma_delivery_order(server: Seq<char>, moves: Seq<Move>)
    ensures
        Bridge::start(server).first_requests(moves).len() <= accepted(moves).len(),
        Bridge::start(server).first_requests(moves) == request_urls(
            server,
            accepted(moves).take(Bridge::start(server).first_requests(moves).len() as int),
        ),
{
    let bridge = Bridge::start(server);
    lemma_requests_keep_the_order_of_arrival(bridge, moves);
    let issued = bridge.first_requests(moves);
    let waiting = request_urls(server, bridge.run(moves).queue);
    assert((issued + waiting).len() == accepted(moves).len());
    assert(issued =~= request_urls(server, accepted(moves).take(issued.len() as int))) by {
        assert forall|i: int| 0 <= i < issued.len() implies issued[i] == accepted(
            moves,
        )[i].request_url(server) by {
            assert((issued + waiting)[i] == issued[i]);
        }
    }
}

/// A retry repeats a request. From the start of the bridge, whatever the moves of a run, the
/// request that is in flight is the last of the first requests, and a request that the worker
/// asks for after a failure goes to the same address again: it is no request for another
/// command, and none jumps the queue.
pub proof fn lemma_retries_repeat_the_request_in_flight(
    server: Seq<char>,
    moves: Seq<Move>,
    outcome: OutcomeView,
)
    ensures
        ({
            let bridge = Bridge::start(server);
            let issued = bridge.first_requests(moves);
            &&& bridge.run(moves).client.state matches WorkerState::InFlight { url, .. }
                ==> issued.len() > 0 && issued.last() == url
            &&& bridge.run(moves).effect(Move::Resolve(outcome)) matches Some(
                EffectView::Send { url, .. },
            ) ==> issued.len() > 0 && issued.last() == url
        }),
    decreases moves.len(),
{
    if moves.len() > 0 {
        lemma_retries_repeat_the_request_in_flight(server, moves.drop_last(), outcome);
        match moves.last() {
            Move::Resolve(earlier) => {
                lemma_retries_repeat_the_request_in_flight(server, moves.drop_last(), earlier);
            },
            _ => {},
        }
    }
}

/// A command whose every request fails is tried the full number of times and no more: the
/// first request goes out at once, each later one after the fixed pause, and after the last
/// failure the worker reports the failure once, with the last error, and is idle. The command
/// left the queue when it was taken, and no failure puts it back.
pub proof fn lemma_retry_bound(
    server: Seq<char>,
    queue: Seq<CommandView>,
    first_error: Seq<char>,
    second_error: Seq<char>,
    third_error: Seq<char>,
)
    requires
        queue.len() > 0,
    ensures
        ({
            let url = queue[0].request_url(server);
            let retry = EffectView::Send {
                url,
                delay_ms: API_RETRY_MS as nat,
                timeout_ms: API_TIMEOUT_MS as nat,
            };
            let moves = seq![
                Move::Begin,
                Move::Resolve(OutcomeView::Failed(first_error)),
                Move::Resolve(OutcomeView::Failed(second_error)),
                Move::Resolve(OutcomeView::Failed(third_error)),
            ];
            let bridge = Bridge { queue, client: ClientView { server, state: WorkerState::Idle } };
            &&& bridge.effect(moves[0]) == Some(first_request(server, queue[0]))
            &&& bridge.run(moves.take(1)).effect(moves[1]) == Some(retry)
            &&& bridge.run(moves.take(2)).effect(moves[2]) == Some(retry)
            &&& bridge.run(moves.take(3)).effect(moves[3]) == Some(
                EffectView::ReportFailure { url, error: third_error, attempts: API_ATTEMPTS as nat },
            )
            &&& bridge.requests(moves) == seq![url, url, url]
            &&& bridge.run(moves) == (Bridge {
                queue: queue.drop_first(),
                client: ClientView { server, state: WorkerState::Idle },
            })
        }),
{
    let moves = seq![
        Move::Begin,
        Move::Resolve(OutcomeView::Failed(first_error)),
        Move::Resolve(OutcomeView::Failed(second_error)),
        Move::Resolve(OutcomeView::Failed(third_error)),
    ];
    let bridge = Bridge { queue, client: ClientView { server, state: WorkerState::Idle } };
    let url = queue[0].request_url(server);
    assert(moves.take(1).drop_last() =~= moves.take(0));
    assert(moves.take(2).drop_last() =~= moves.take(1));
    assert(moves.take(3).drop_last() =~= moves.take(2));
    assert(bridge.requests(moves.take(0)) =~= Seq::<Seq<char>>::empty());
    assert(bridge.requests(moves.take(1)) =~= seq![url]);
    assert(bridge.requests(moves.take(2)) =~= seq![url, url]);
    assert(bridge.requests(moves.take(3)) =~= seq![url, url, url]);
}

/// A failure is reported only when the attempts are used up: the report always counts the full
/// number of attempts, never fewer and never more.
pub proof fn lemma_failure_is_reported_after_the_last_attempt(
    client: ClientView,
    outcome: OutcomeView,
)
    requires
        client.state.wf(),
    ensures
        resolve_spec(client, outcome).1 matches Some(EffectView::ReportFailure { attempts, .. })
            ==> attempts == API_ATTEMPTS && outcome is Failed,
        resolve_spec(client, outcome).1 matches Some(EffectView::Send { .. }) ==> outcome
            is Failed && client.state->attempt < API_ATTEMPTS,
{
}

/// Every delivery ends. Whatever the outcomes of its requests, a worker in flight is idle again
/// when it has learnt as many outcomes as a command has attempts.
pub proof fn lemma_every_delivery_ends(
    client: ClientView,
    first: OutcomeView,
    second: OutcomeView,
    third: OutcomeView,
)
    requires
        client.state.wf(),
    ensures
        resolve_spec(resolve_spec(resolve_spec(client, first).0, second).0, third).0.state is Idle,
{
}

/// A rejected packet leaves the bridge as it was: what arrives after it is handled as if it
/// had never come.
pub proof fn lemma_rejection_changes_nothing(bridge: Bridge, packet: PacketView)
    requires
        reception(packet) is Err,
    ensures
        bridge.step(Move::Receive(packet)) == bridge,
        bridge.effect(Move::Receive(packet)) is None,
{
}

} // verus!
