use vstd::prelude::*;

verus! {

/// One of the two directions of a connection.
#[derive(Clone, Copy, Debug, PartialEq, Eq, Structural)]
pub enum Direction {
    ClientToServer,
    ServerToClient,
}

/// How a pump task ended.
#[derive(Clone, Copy, Debug, PartialEq, Eq, Structural)]
pub enum PumpEnd {
    /// Its source closed cleanly.
    Completed,
    /// A read, or a write after its retries, failed with an I/O error.
    IoError,
    /// The task itself failed (it panicked or was cancelled) before it could report.
    TaskFailed,
}

/// The first of the events that a handler races.
#[derive(Clone, Copy, Debug, PartialEq, Eq, Structural)]
pub enum HandlerEvent {
    PumpEnded(Direction, PumpEnd),
    ShutdownFired,
}

/// What a handler reports once it is done.
#[derive(Clone, Copy, Debug, PartialEq, Eq, Structural)]
pub enum HandlerResult {
    /// A direction closed cleanly, or shutdown was requested.
    Finished,
    /// A direction ended with its I/O error, which is passed on.
    IoError(Direction),
    /// A pump task failed; the handler reports an I/O error of kind "other".
    TaskFailed(Direction),
}

/// How a connection ends: its result and the pump tasks still to be cancelled.
#[derive(Clone, Copy, Debug, PartialEq, Eq, Structural)]
pub struct Termination {
    pub result: HandlerResult,
    pub cancel_client_to_server: bool,
    pub cancel_server_to_client: bool,
}

/// The result reported for the event that ended the race.
pub open spec fn result_of(ev: HandlerEvent) -> HandlerResult {
    match ev {
        HandlerEvent::PumpEnded(_, PumpEnd::Completed) => HandlerResult::Finished,
        HandlerEvent::PumpEnded(d, PumpEnd::IoError) => HandlerResult::IoError(d),
        HandlerEvent::PumpEnded(d, PumpEnd::TaskFailed) => HandlerResult::TaskFailed(d),
        HandlerEvent::ShutdownFired => HandlerResult::Finished,
    }
}

/// Whether the pump of direction `d` is still running after `ev` won the race:
/// a pump that ended is not; on shutdown neither is left to itself.
pub open spec fn still_running(ev: HandlerEvent, d: Direction) -> bool {
    match ev {
        HandlerEvent::PumpEnded(e, _) => e != d,
        HandlerEvent::ShutdownFired => true,
    }
}

/// How the connection ends when `ev` is the first of the raced events: the
/// handler stops at once and cancels every pump that is still running.
pub open spec fn termination_of(ev: HandlerEvent) -> Termination {
    Termination {
        result: result_of(ev),
        cancel_client_to_server: still_running(ev, Direction::ClientToServer),
        cancel_server_to_client: still_running(ev, Direction::ServerToClient),
    }
}

/// The relay-wide shutdown request: fired at most once, and once fired it
/// stays fired for every observer, whenever it starts to look.
pub struct Shutdown {
    fired: bool,
}

impl Shutdown {
    pub closed spec fn is_fired(&self) -> bool {
        self.fired
    }

    pub fn new() -> (s: Shutdown)
        ensures
            !s.is_fired(),
    {
        Shutdown { fired: false }
    }

    /// Fires the signal; firing it again changes nothing.
    pub fn fire(&mut self)
        ensures
            final(self).is_fired(),
    {
        self.fired = true;
    }

    pub fn fired(&self) -> (r: bool)
        ensures
            r == self.is_fired(),
    {
        self.fired
    }
}

/// The handler of one accepted connection: `None` while its two pumps may
/// run, the way it ended afterwards. No other state exists and a connection
/// is never resumed.
pub struct Connection {
    ended: Option<Termination>,
}

impl Connection {
    pub closed spec fn termination(&self) -> Option<Termination> {
        self.ended
    }

    pub open spec fn is_active(&self) -> bool {
        self.termination() is None
    }

    /// A handler whose two pumps have just been started.
    pub fn new() -> (c: Connection)
        ensures
            c.is_active(),
    {
        Connection { ended: None }
    }

    /// Whether the pumps of this connection may still forward bytes.
    pub fn may_forward(&self) -> (r: bool)
        ensures
            r == self.is_active(),
    {
        self.ended.is_none()
    }

    /// Ends the connection on the first of the raced events.
    pub fn on_event(&mut self, ev: HandlerEvent) -> (t: Termination)
        requires
            old(self).is_active(),
        ensures
            t == termination_of(ev),
            final(self).termination() == Some(t),
    {
        let result = match ev {
            HandlerEvent::PumpEnded(_, PumpEnd::Completed) => HandlerResult::Finished,
            HandlerEvent::PumpEnded(d, PumpEnd::IoError) => HandlerResult::IoError(d),
            HandlerEvent::PumpEnded(d, PumpEnd::TaskFailed) => HandlerResult::TaskFailed(d),
            HandlerEvent::ShutdownFired => HandlerResult::Finished,
        };
        let (c2s, s2c) = match ev {
            HandlerEvent::PumpEnded(Direction::ClientToServer, _) => (false, true),
            HandlerEvent::PumpEnded(Direction::ServerToClient, _) => (true, false),
            HandlerEvent::ShutdownFired => (true, true),
        };
        let t = Termination { result, cancel_client_to_server: c2s, cancel_server_to_client: s2c };
        self.ended = Some(t);
        t
    }

    /// Observes the shutdown signal: once it has fired, an active connection
    /// ends as on `ShutdownFired`, and an ended one stays as it is.
    pub fn observe_shutdown(&mut self, s: &Shutdown) -> (r: Option<Termination>)
        ensures
            s.is_fired() ==> final(self).termination() == after_shutdown(old(self).termination()),
            !s.is_fired() ==> *final(self) == *old(self),
            r is Some <==> (s.is_fired() && old(self).is_active()),
            r is Some ==> final(self).termination() == r,
    {
        if s.fired() && self.ended.is_none() {
            Some(self.on_event(HandlerEvent::ShutdownFired))
        } else {
            None
        }
    }
}

/// How a connection stands once it has observed a fired shutdown signal,
/// given how it stood before.
pub open spec fn after_shutdown(ended: Option<Termination>) -> Option<Termination> {
    match ended {
        None => Some(termination_of(HandlerEvent::ShutdownFired)),
        Some(t) => Some(t),
    }
}

/// Once the shutdown signal has fired, every connection that observes it is
/// ended (`may_forward` is false for each); each one that was still active
/// reports a clean finish and has both of its pumps marked for cancellation,
/// and each one that had already ended keeps the way it ended.
pub proof fn lemma_shutdown_stops_every_connection(before: Seq<Option<Termination>>)
    ensures
        ({
            let after = before.map_values(|e: Option<Termination>| after_shutdown(e));
            &&& after.len() == before.len()
            &&& forall|i: int| 0 <= i < after.len() ==> (#[trigger] after[i]) is Some
            &&& forall|i: int|
                0 <= i < before.len() && (#[trigger] before[i]) is None ==> {
                    let t = after[i]->Some_0;
                    &&& t.result == HandlerResult::Finished
                    &&& t.cancel_client_to_server
                    &&& t.cancel_server_to_client
                }
            &&& forall|i: int|
                0 <= i < before.len() && (#[trigger] before[i]) is Some ==> after[i] == before[i]
        }),
{
}

} // verus!
