//! The hub's event stream connection: its states, the reconnect backoff and
//! what to do with each frame.
use vstd::prelude::*;

verus! {

/// First delay before a reconnect, in milliseconds.
pub const BACKOFF_FLOOR_MS: u64 = 500;

/// Longest delay before a reconnect, in milliseconds.
pub const BACKOFF_CAP_MS: u64 = 30000;

/// The delay before the next reconnect. It doubles after each failure up to
/// the cap and falls back to the floor once a connection is subscribed.
pub struct Backoff {
    delay_ms: u64,
}

pub open spec fn next_delay(d: u64) -> u64 {
    if 2 * d >= BACKOFF_CAP_MS {
        BACKOFF_CAP_MS
    } else {
        (2 * d) as u64
    }
}

impl Backoff {
    pub closed spec fn delay(&self) -> u64 {
        self.delay_ms
    }

    pub open spec fn wf(&self) -> bool {
        BACKOFF_FLOOR_MS <= self.delay() <= BACKOFF_CAP_MS
    }

    pub fn new() -> (r: Backoff)
        ensures
            r.wf(),
            r.delay() == BACKOFF_FLOOR_MS,
    {
        Backoff { delay_ms: BACKOFF_FLOOR_MS }
    }

    /// The current delay, in milliseconds.
    pub fn current_ms(&self) -> (r: u64)
        ensures
            r == self.delay(),
    {
        self.delay_ms
    }

    /// A connection failed: returns how long to wait, and doubles the next
    /// wait up to the cap.
    pub fn on_failure(&mut self) -> (r: u64)
        requires
            old(self).wf(),
        ensures
            final(self).wf(),
            r == old(self).delay(),
            final(self).delay() == next_delay(old(self).delay()),
            final(self).delay() >= old(self).delay(),
    {
        let wait = self.delay_ms;
        self.delay_ms = if self.delay_ms >= BACKOFF_CAP_MS / 2 {
            BACKOFF_CAP_MS
        } else {
            self.delay_ms * 2
        };
        wait
    }

    /// A connection was subscribed: the next wait is the floor again.
    pub fn on_success(&mut self)
        ensures
            final(self).wf(),
            final(self).delay() == BACKOFF_FLOOR_MS,
    {
        self.delay_ms = BACKOFF_FLOOR_MS;
    }
}

/// The delays of `n` failures in a row, starting from `d`.
pub open spec fn delays(d: u64, n: nat) -> Seq<u64>
    decreases n,
{
    if n == 0 {
        Seq::empty()
    } else {
        seq![d] + delays(next_delay(d), (n - 1) as nat)
    }
}

/// Failures in a row wait no less each time and never more than the cap.
pub proof fn lemma_backoff_monotone(d: u64, n: nat)
    requires
        BACKOFF_FLOOR_MS <= d <= BACKOFF_CAP_MS,
    ensures
        delays(d, n).len() == n,
        forall|i: int| 0 <= i < n ==> BACKOFF_FLOOR_MS <= #[trigger] delays(d, n)[i] <= BACKOFF_CAP_MS,
        forall|i: int, j: int| 0 <= i <= j < n ==> delays(d, n)[i] <= delays(d, n)[j],
    decreases n,
{
    if n > 0 {
        let rest = delays(next_delay(d), (n - 1) as nat);
        lemma_backoff_monotone(next_delay(d), (n - 1) as nat);
        assert(delays(d, n) == seq![d] + rest);
        assert forall|i: int, j: int| 0 <= i <= j < n implies delays(d, n)[i] <= delays(d, n)[j] by {
            if i > 0 {
                assert(delays(d, n)[i] == rest[i - 1]);
                assert(delays(d, n)[j] == rest[j - 1]);
            } else if j > 0 {
                assert(delays(d, n)[j] == rest[j - 1]);
                assert(rest[0] <= rest[j - 1]);
                assert(rest[0] == next_delay(d));
            }
        }
        assert forall|i: int| 0 <= i < n implies BACKOFF_FLOOR_MS <= #[trigger] delays(d, n)[i]
            <= BACKOFF_CAP_MS by {
            if i > 0 {
                assert(delays(d, n)[i] == rest[i - 1]);
            }
        }
    }
}

/// The states of the connection to the hub's event stream.
#[derive(Clone, Copy, Debug, PartialEq, Eq, Structural)]
pub enum ConnState {
    Disconnected,
    Connecting,
    Authenticating,
    Subscribed,
}

/// A frame read from the stream, by what it carries.
#[derive(Clone, Copy, Debug, PartialEq, Eq, Structural)]
pub enum FrameKind {
    /// An empty frame, such as a heartbeat.
    Empty,
    /// A frame that is not a JSON object.
    Malformed,
    AuthRequired,
    AuthOk,
    /// A `state_changed` event.
    StateChanged,
    /// Anything else: results, other events.
    Other,
}

/// What happens on the connection.
#[derive(Clone, Copy, Debug, PartialEq, Eq, Structural)]
pub enum StreamEvent {
    /// A reconnect is due.
    Start,
    Connected,
    ConnectFailed,
    Frame(FrameKind),
    /// The stream ended or failed.
    Closed,
}

/// What the caller does in answer.
#[derive(Clone, Copy, Debug, PartialEq, Eq, Structural)]
pub enum StreamAction {
    /// Open a connection.
    Connect,
    /// Send the access token.
    SendAuth,
    /// Ask for `state_changed` events under this request id.
    Subscribe { id: u64 },
    /// Hand the event on to the fan-out queue.
    Forward,
    /// Nothing to do.
    Ignore,
    /// Wait this many milliseconds, then report `Start`.
    Sleep { ms: u64 },
}

/// The id after `id`; ids wrap round to 1.
pub open spec fn next_request_id(id: u64) -> u64 {
    if id < u64::MAX {
        (id + 1) as u64
    } else {
        1
    }
}

/// The connection's state machine.
pub struct Listener {
    pub state: ConnState,
    pub backoff: Backoff,
    /// The id of the last request sent.
    pub last_id: u64,
}

impl Listener {
    pub open spec fn wf(&self) -> bool {
        self.backoff.wf()
    }

    pub fn new() -> (r: Listener)
        ensures
            r.wf(),
            r.state == ConnState::Disconnected,
            r.backoff.delay() == BACKOFF_FLOOR_MS,
    {
        Listener { state: ConnState::Disconnected, backoff: Backoff::new(), last_id: 1 }
    }

    /// Takes one event. A failed or closed connection waits the backoff; a
    /// subscription resets it; empty and malformed frames change nothing.
    pub fn step(&mut self, ev: StreamEvent) -> (r: StreamAction)
        requires
            old(self).wf(),
        ensures
            final(self).wf(),
            match ev {
                StreamEvent::Start => r == StreamAction::Connect && final(self).state
                    == ConnState::Connecting && final(self).backoff == old(self).backoff,
                StreamEvent::Connected => r == StreamAction::Ignore && final(self).state
                    == ConnState::Authenticating && final(self).backoff == old(self).backoff,
                StreamEvent::ConnectFailed | StreamEvent::Closed => r == (StreamAction::Sleep {
                    ms: old(self).backoff.delay(),
                }) && final(self).state == ConnState::Disconnected && final(self).backoff.delay()
                    == next_delay(old(self).backoff.delay()),
                StreamEvent::Frame(FrameKind::AuthRequired) => r == StreamAction::SendAuth
                    && final(self).state == ConnState::Authenticating && final(self).backoff
                    == old(self).backoff,
                StreamEvent::Frame(FrameKind::AuthOk) => r == (StreamAction::Subscribe {
                    id: next_request_id(old(self).last_id),
                }) && final(self).last_id == next_request_id(old(self).last_id) && final(self).state
                    == ConnState::Subscribed && final(self).backoff.delay() == BACKOFF_FLOOR_MS,
                StreamEvent::Frame(FrameKind::StateChanged) => r == (if old(self).state
                    == ConnState::Subscribed {
                    StreamAction::Forward
                } else {
                    StreamAction::Ignore
                }) && final(self).state == old(self).state && final(self).backoff
                    == old(self).backoff,
                StreamEvent::Frame(_) => r == StreamAction::Ignore && final(self).state == old(
                    self,
                ).state && final(self).backoff == old(self).backoff,
            },
    {
        match ev {
            StreamEvent::Start => {
                self.state = ConnState::Connecting;
                StreamAction::Connect
            },
            StreamEvent::Connected => {
                self.state = ConnState::Authenticating;
                StreamAction::Ignore
            },
            StreamEvent::ConnectFailed | StreamEvent::Closed => {
                self.state = ConnState::Disconnected;
                let ms = self.backoff.on_failure();
                StreamAction::Sleep { ms }
            },
            StreamEvent::Frame(kind) => match kind {
                FrameKind::AuthRequired => {
                    self.state = ConnState::Authenticating;
                    StreamAction::SendAuth
                },
                FrameKind::AuthOk => {
                    self.last_id = if self.last_id < u64::MAX {
                        self.last_id + 1
                    } else {
                        1
                    };
                    self.state = ConnState::Subscribed;
                    self.backoff.on_success();
                    StreamAction::Subscribe { id: self.last_id }
                },
                FrameKind::StateChanged => if self.state == ConnState::Subscribed {
                    StreamAction::Forward
                } else {
                    StreamAction::Ignore
                },
                _ => StreamAction::Ignore,
            },
        }
    }
}

} // verus!
