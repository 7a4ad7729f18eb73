use vstd::prelude::*;

use crate::error::FetchError;

verus! {

/// The lifecycle of the overlay session.
#[derive(Clone, Copy, Debug, PartialEq, Eq, Structural)]
pub enum Phase {
    /// No overlay client has been built yet.
    Uninitialized,
    /// A client exists, with its configuration fixed, but has not bootstrapped.
    Created,
    /// One bootstrap run is in progress.
    Bootstrapping,
    /// The client can carry traffic.
    Ready,
}

/// What a caller of bootstrap must do next.
#[derive(Clone, Copy, Debug, PartialEq, Eq, Structural)]
pub enum BootstrapStep {
    /// No client exists: build one, install it, and ask again.
    Initialize,
    /// Run the underlying bootstrap, then report its outcome.
    Run,
    /// Another caller's run is in progress: wait for its outcome.
    Wait,
    /// The session is ready already.
    Done,
}

/// A stream that the caller is to open through the overlay network.
pub struct ConnectOrder {
    pub host: String,
    pub port: u16,
}

/// The decision state of the process-wide overlay session: which phase it is
/// in, and how many underlying bootstrap runs it has started.
pub struct TorClientWrapper {
    phase: Phase,
    runs: Ghost<nat>,
}

pub struct SessionView {
    pub phase: Phase,
    pub runs: nat,
}

impl View for TorClientWrapper {
    type V = SessionView;

    closed spec fn view(&self) -> SessionView {
        SessionView { phase: self.phase, runs: self.runs@ }
    }
}

pub open spec fn initial_session() -> SessionView {
    SessionView { phase: Phase::Uninitialized, runs: 0 }
}

pub open spec fn ready(s: SessionView) -> bool {
    s.phase == Phase::Ready
}

/// Installing a freshly built client: the first one is kept, any later one
/// is discarded (the result says whether it was kept).
pub open spec fn install_spec(s: SessionView) -> (SessionView, bool) {
    if s.phase == Phase::Uninitialized {
        (SessionView { phase: Phase::Created, runs: s.runs }, true)
    } else {
        (s, false)
    }
}

/// A bootstrap request: only a created session starts a run, and counts it.
pub open spec fn begin_spec(s: SessionView) -> (SessionView, BootstrapStep) {
    match s.phase {
        Phase::Uninitialized => (s, BootstrapStep::Initialize),
        Phase::Created => (
            SessionView { phase: Phase::Bootstrapping, runs: s.runs + 1 },
            BootstrapStep::Run,
        ),
        Phase::Bootstrapping => (s, BootstrapStep::Wait),
        Phase::Ready => (s, BootstrapStep::Done),
    }
}

/// The end of a run: ready on success, back to created (retryable) on failure.
pub open spec fn finish_spec(s: SessionView, ok: bool) -> SessionView {
    SessionView { phase: if ok { Phase::Ready } else { Phase::Created }, runs: s.runs }
}

/// What a caller waiting on another caller's run observes.
pub open spec fn wait_spec(s: SessionView) -> Option<Result<(), FetchError>> {
    match s.phase {
        Phase::Bootstrapping => None,
        Phase::Ready => Some(Ok(())),
        _ => Some(Err(FetchError::BootstrapError)),
    }
}

/// A connection request: refused unless the session is ready.
pub open spec fn connect_spec(s: SessionView, host: Seq<char>, port: u16) -> Result<(Seq<char>, u16), FetchError> {
    if ready(s) {
        Ok((host, port))
    } else {
        Err(FetchError::NotReady)
    }
}

pub open spec fn order_result(r: Result<ConnectOrder, FetchError>) -> Result<(Seq<char>, u16), FetchError> {
    match r {
        Ok(o) => Ok((o.host@, o.port)),
        Err(e) => Err(e),
    }
}

impl TorClientWrapper {
    /// A session with no client built yet.
    pub fn new() -> (r: Self)
        ensures
            r@ == initial_session(),
    {
        TorClientWrapper { phase: Phase::Uninitialized, runs: Ghost(0) }
    }

    pub fn phase(&self) -> (r: Phase)
        ensures
            r == self@.phase,
    {
        self.phase
    }

    /// Whether a client still has to be built.
    pub fn needs_client(&self) -> (r: bool)
        ensures
            r == (self@.phase == Phase::Uninitialized),
    {
        self.phase == Phase::Uninitialized
    }

    /// Records that a client was built. Returns whether that client is the
    /// session's; `false` means another initializer won and this one is
    /// to be discarded.
    pub fn install_client(&mut self) -> (kept: bool)
        ensures
            (final(self)@, kept) == install_spec(old(self)@),
    {
        if self.phase == Phase::Uninitialized {
            self.phase = Phase::Created;
            true
        } else {
            false
        }
    }

    /// Decides what a bootstrap request does; at most one run is in progress.
    pub fn begin_bootstrap(&mut self) -> (step: BootstrapStep)
        ensures
            (final(self)@, step) == begin_spec(old(self)@),
    {
        match self.phase {
            Phase::Uninitialized => BootstrapStep::Initialize,
            Phase::Created => {
                self.phase = Phase::Bootstrapping;
                self.runs = Ghost(self.runs@ + 1);
                BootstrapStep::Run
            },
            Phase::Bootstrapping => BootstrapStep::Wait,
            Phase::Ready => BootstrapStep::Done,
        }
    }

    /// Records the outcome of the run in progress.
    pub fn finish_bootstrap(&mut self, ok: bool) -> (r: Result<(), FetchError>)
        requires
            old(self)@.phase == Phase::Bootstrapping,
        ensures
            final(self)@ == finish_spec(old(self)@, ok),
            r == (if ok { Ok::<(), FetchError>(()) } else { Err(FetchError::BootstrapError) }),
    {
        if ok {
            self.phase = Phase::Ready;
            Ok(())
        } else {
            self.phase = Phase::Created;
            Err(FetchError::BootstrapError)
        }
    }

    /// The outcome seen by a caller that waited on another caller's run:
    /// `None` while the run is still in progress.
    pub fn wait_outcome(&self) -> (r: Option<Result<(), FetchError>>)
        ensures
            r == wait_spec(self@),
    {
        match self.phase {
            Phase::Bootstrapping => None,
            Phase::Ready => Some(Ok(())),
            _ => Some(Err(FetchError::BootstrapError)),
        }
    }

    /// Whether the session can carry traffic.
    pub fn is_ready(&self) -> (r: bool)
        ensures
            r == ready(self@),
    {
        self.phase == Phase::Ready
    }

    /// Decides a connection request. Never starts a bootstrap: before the
    /// session is ready it fails with `NotReady` and orders no stream.
    pub fn connect(&self, host: &str, port: u16) -> (r: Result<ConnectOrder, FetchError>)
        ensures
            order_result(r) == connect_spec(self@, host@, port),
    {
        if self.phase != Phase::Ready {
            return Err(FetchError::NotReady);
        }
        Ok(ConnectOrder { host: host.to_owned(), port })
    }
}

/// A snapshot of the overlay client's bootstrap progress.
pub struct BootstrapStatus {
    /// Percentage, 0 to 100.
    pub progress: u32,
    /// The name of the current bootstrap phase.
    pub tag: String,
    /// A human-readable description.
    pub description: String,
}

impl BootstrapStatus {
    /// Normalizes a native status: the percentage is capped at 100.
    pub fn new(progress: u32, tag: String, description: String) -> (r: Self)
        ensures
            r.progress == (if progress > 100 { 100 } else { progress }),
            r.tag == tag,
            r.description == description,
    {
        let progress = if progress > 100 { 100 } else { progress };
        BootstrapStatus { progress, tag, description }
    }
}

/// The log after statuses are published in order.
pub open spec fn published(log: Seq<BootstrapStatus>, emitted: Seq<BootstrapStatus>) -> Seq<BootstrapStatus>
    decreases emitted.len(),
{
    if emitted.len() == 0 {
        log
    } else {
        published(log, emitted.drop_last()).push(emitted.last())
    }
}

/// One read by a subscriber at `cursor`: the event there and the next cursor.
pub open spec fn read_spec(log: Seq<BootstrapStatus>, cursor: nat) -> (Option<BootstrapStatus>, nat) {
    if cursor < log.len() {
        (Some(log[cursor as int]), cursor + 1)
    } else {
        (None, cursor)
    }
}

/// What `n` successive reads from `cursor` yield.
pub open spec fn observed(log: Seq<BootstrapStatus>, cursor: nat, n: nat) -> Seq<Option<BootstrapStatus>>
    decreases n,
{
    if n == 0 {
        Seq::empty()
    } else {
        seq![read_spec(log, cursor).0] + observed(log, read_spec(log, cursor).1, (n - 1) as nat)
    }
}

/// One feed of bootstrap statuses, shared by every subscriber: the listener
/// on the overlay client is started once, and each subscriber reads the log
/// in order with a cursor of its own.
pub struct BootstrapFeed {
    events: Vec<BootstrapStatus>,
    listening: bool,
}

/// What subscribing hands out.
pub struct Subscription {
    /// Where the subscriber starts reading.
    pub cursor: usize,
    /// Whether the caller must start the one listener on the overlay client.
    pub start_listener: bool,
}

impl BootstrapFeed {
    pub closed spec fn log(&self) -> Seq<BootstrapStatus> {
        self.events@
    }

    pub closed spec fn is_listening(&self) -> bool {
        self.listening
    }

    /// An empty feed with no listener.
    pub fn new() -> (r: Self)
        ensures
            r.log() == Seq::<BootstrapStatus>::empty(),
            !r.is_listening(),
    {
        BootstrapFeed { events: Vec::new(), listening: false }
    }

    /// Adds a subscriber, which reads the whole log from its start. Only
    /// the first subscription starts the listener.
    pub fn subscribe(&mut self) -> (r: Subscription)
        ensures
            r.cursor == 0,
            r.start_listener == !old(self).is_listening(),
            final(self).is_listening(),
            final(self).log() == old(self).log(),
    {
        let start_listener = !self.listening;
        self.listening = true;
        Subscription { cursor: 0, start_listener }
    }

    /// Appends a status that the overlay client emitted.
    pub fn publish(&mut self, status: BootstrapStatus)
        ensures
            final(self).log() == old(self).log().push(status),
            final(self).is_listening() == old(self).is_listening(),
    {
        self.events.push(status);
    }

    /// The listener on the overlay client has stopped.
    pub fn close(&mut self)
        ensures
            !final(self).is_listening(),
            final(self).log() == old(self).log(),
    {
        self.listening = false;
    }

    /// Whether the listener on the overlay client is running.
    pub fn listening(&self) -> (r: bool)
        ensures
            r == self.is_listening(),
    {
        self.listening
    }

    /// Number of statuses published so far.
    pub fn len(&self) -> (r: usize)
        ensures
            r == self.log().len(),
    {
        self.events.len()
    }

    /// The status at `*cursor`, if one was published there, advancing the
    /// cursor past it.
    pub fn next_event(&self, cursor: &mut usize) -> (r: Option<&BootstrapStatus>)
        ensures
            (match r {
                Some(e) => Some(*e),
                None => None,
            }) == read_spec(self.log(), *old(cursor) as nat).0,
            *final(cursor) as nat == read_spec(self.log(), *old(cursor) as nat).1,
    {
        if *cursor < self.events.len() {
            let e = &self.events[*cursor];
            *cursor = *cursor + 1;
            Some(e)
        } else {
            None
        }
    }
}

} // verus!
