//! The delivery worker: the one task that sends commands to the mixer, one request at a time.
//!
//! The worker is a state machine with two states. Idle, it takes the command at the front of
//! the delivery queue and asks for the first request. In flight, it is told how each request
//! ended: after a response it reports the delivery and is idle again; after a failure it asks
//! for the request once more, a fixed delay later, until the attempts are used up, then reports
//! the failure, drops the command and is idle again. The worker decides; sending, sleeping and
//! logging are its caller's part.

use crate::command::{Command, CommandView};
use crate::queue::DeliveryQueue;
use vstd::prelude::*;

verus! {

/// The time that one request may take, in milliseconds.
pub const API_TIMEOUT_MS: u64 = 1000;

/// The pause before a request is tried again, in milliseconds.
pub const API_RETRY_MS: u64 = 100;

/// The number of times that one command's request is tried at most.
pub const API_ATTEMPTS: u32 = 3;

/// How one request ended.
#[derive(Debug, PartialEq, Eq)]
pub enum Outcome {
    /// The mixer answered in time; the text sums up the response.
    Responded(String),
    /// The request failed or was not answered in time; the text says how.
    Failed(String),
}

/// An outcome as a mathematical value.
pub enum OutcomeView {
    Responded(Seq<char>),
    Failed(Seq<char>),
}

impl View for Outcome {
    type V = OutcomeView;

    open spec fn view(&self) -> OutcomeView {
        match self {
            Outcome::Responded(response) => OutcomeView::Responded(response@),
            Outcome::Failed(error) => OutcomeView::Failed(error@),
        }
    }
}

/// What the worker asks of its caller.
#[derive(Debug, PartialEq, Eq)]
pub enum Effect {
    /// Wait `delay_ms`, then send a GET request to `url` and give it `timeout_ms` to end.
    Send { url: String, delay_ms: u64, timeout_ms: u64 },
    /// Log that the request to `url` was answered.
    ReportSuccess { url: String, response: String },
    /// Log that the request to `url` failed `attempts` times, the last time with `error`, and
    /// that its command is dropped.
    ReportFailure { url: String, error: String, attempts: u32 },
}

/// An effect as a mathematical value.
pub enum EffectView {
    Send { url: Seq<char>, delay_ms: nat, timeout_ms: nat },
    ReportSuccess { url: Seq<char>, response: Seq<char> },
    ReportFailure { url: Seq<char>, error: Seq<char>, attempts: nat },
}

impl View for Effect {
    type V = EffectView;

    open spec fn view(&self) -> EffectView {
        match self {
            Effect::Send { url, delay_ms, timeout_ms } => EffectView::Send {
                url: url@,
                delay_ms: *delay_ms as nat,
                timeout_ms: *timeout_ms as nat,
            },
            Effect::ReportSuccess { url, response } => EffectView::ReportSuccess {
                url: url@,
                response: response@,
            },
            Effect::ReportFailure { url, error, attempts } => EffectView::ReportFailure {
                url: url@,
                error: error@,
                attempts: *attempts as nat,
            },
        }
    }
}

/// The state of the worker as a mathematical value.
pub enum WorkerState {
    /// No request is outstanding.
    Idle,
    /// The request to `url` is outstanding, for the `attempt`-th time.
    InFlight { url: Seq<char>, attempt: nat },
}

impl WorkerState {
    /// A command in flight is at one of its attempts, the first to the last.
    pub open spec fn wf(self) -> bool {
        self matches WorkerState::InFlight { attempt, .. } ==> 1 <= attempt <= API_ATTEMPTS
    }
}

/// The worker as a mathematical value: the mixer's address and the state.
pub struct ClientView {
    pub server: Seq<char>,
    pub state: WorkerState,
}

/// The first request for a command.
pub open spec fn first_request(server: Seq<char>, command: CommandView) -> EffectView {
    EffectView::Send {
        url: command.request_url(server),
        delay_ms: 0,
        timeout_ms: API_TIMEOUT_MS as nat,
    }
}

/// What an idle worker does with a queue that holds a command: it takes the one at the front
/// and asks for its first request. In flight, or with an empty queue, nothing changes.
pub open spec fn begin_spec(client: ClientView, queue: Seq<CommandView>) -> (
    ClientView,
    Seq<CommandView>,
    Option<EffectView>,
) {
    if client.state is Idle && queue.len() > 0 {
        (
            ClientView {
                server: client.server,
                state: WorkerState::InFlight {
                    url: queue[0].request_url(client.server),
                    attempt: 1,
                },
            },
            queue.drop_first(),
            Some(first_request(client.server, queue[0])),
        )
    } else {
        (client, queue, None)
    }
}

/// What a worker does when it learns how its request ended. An idle worker has no request:
/// nothing changes.
pub open spec fn resolve_spec(client: ClientView, outcome: OutcomeView) -> (
    ClientView,
    Option<EffectView>,
) {
    match client.state {
        WorkerState::Idle => (client, None),
        WorkerState::InFlight { url, attempt } => match outcome {
            OutcomeView::Responded(response) => (
                ClientView { server: client.server, state: WorkerState::Idle },
                Some(EffectView::ReportSuccess { url, response }),
            ),
            OutcomeView::Failed(error) => if attempt < API_ATTEMPTS {
                (
                    ClientView {
                        server: client.server,
                        state: WorkerState::InFlight { url, attempt: attempt + 1 },
                    },
                    Some(
                        EffectView::Send {
                            url,
                            delay_ms: API_RETRY_MS as nat,
                            timeout_ms: API_TIMEOUT_MS as nat,
                        },
                    ),
                )
            } else {
                (
                    ClientView { server: client.server, state: WorkerState::Idle },
                    Some(EffectView::ReportFailure { url, error, attempts: attempt }),
                )
            },
        },
    }
}

/// The request that is outstanding.
struct Flight {
    url: String,
    attempt: u32,
}

/// The delivery worker for the mixer at one address.
pub struct ApiClient {
    server: String,
    flight: Option<Flight>,
}

impl View for ApiClient {
    type V = ClientView;

    closed spec fn view(&self) -> ClientView {
        ClientView {
            server: self.server@,
            state: match self.flight {
                None => WorkerState::Idle,
                Some(flight) => WorkerState::InFlight {
                    url: flight.url@,
                    attempt: flight.attempt as nat,
                },
            },
        }
    }
}

impl ApiClient {
    /// A request in flight is at one of its attempts, the first to the last.
    #[verifier::type_invariant]
    spec fn attempt_in_bounds(self) -> bool {
        self@.state.wf()
    }

    /// An idle worker for the mixer at `server` (`host:port`).
    pub fn new(server: String) -> (client: ApiClient)
        ensures
            client@ == (ClientView { server: server@, state: WorkerState::Idle }),
    {
        ApiClient { server, flight: None }
    }

    /// Whether no request is outstanding.
    pub fn is_idle(&self) -> (idle: bool)
        ensures
            idle == (self@.state is Idle),
    {
        self.flight.is_none()
    }

    /// Takes the next command from the queue, if the worker is idle and a command waits, and
    /// asks for its first request.
    pub fn begin(self, queue: &mut DeliveryQueue) -> (next: (ApiClient, Option<Effect>))
        ensures
            (next.0@, final(queue)@, effect_view(next.1)) == begin_spec(self@, old(queue)@),
            next.0@.state.wf(),
    {
        proof {
            use_type_invariant(&self);
        }
        if self.flight.is_some() {
            return (self, None);
        }
        match queue.dequeue() {
            None => (self, None),
            Some(command) => {
                let url = command.request_url(self.server.as_str());
                let send = Effect::Send {
                    url: url.clone(),
                    delay_ms: 0,
                    timeout_ms: API_TIMEOUT_MS,
                };
                let client = ApiClient {
                    server: self.server,
                    flight: Some(Flight { url, attempt: 1 }),
                };
                (client, Some(send))
            },
        }
    }

    /// Takes the outcome of the outstanding request and says what is to be done next.
    pub fn resolve(self, outcome: Outcome) -> (next: (ApiClient, Option<Effect>))
        ensures
            (next.0@, effect_view(next.1)) == resolve_spec(self@, outcome@),
            next.0@.state.wf(),
    {
        proof {
            use_type_invariant(&self);
        }
        let ApiClient { server, flight } = self;
        match flight {
            None => (ApiClient { server, flight: None }, None),
            Some(Flight { url, attempt }) => match outcome {
                Outcome::Responded(response) => (
                    ApiClient { server, flight: None },
                    Some(Effect::ReportSuccess { url, response }),
                ),
                Outcome::Failed(error) => {
                    if attempt < API_ATTEMPTS {
                        let send = Effect::Send {
                            url: url.clone(),
                            delay_ms: API_RETRY_MS,
                            timeout_ms: API_TIMEOUT_MS,
                        };
                        (
                            ApiClient { server, flight: Some(Flight { url, attempt: attempt + 1 }) },
                            Some(send),
                        )
                    } else {
                        (
                            ApiClient { server, flight: None },
                            Some(Effect::ReportFailure { url, error, attempts: attempt }),
                        )
                    }
                },
            },
        }
    }
}

/// The view of an effect that may be absent.
pub open spec fn effect_view(effect: Option<Effect>) -> Option<EffectView> {
    match effect {
        Some(effect) => Some(effect@),
        None => None,
    }
}

} // verus!
