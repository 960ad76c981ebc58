use vstd::prelude::*;

verus! {

/// Where the accept loop stands.
#[derive(Clone, Copy, Debug, PartialEq, Eq, Structural)]
pub enum AcceptorPhase {
    /// The listening socket is being bound.
    Binding,
    /// Between two accepts: the running flag is read.
    CheckingFlag,
    /// Waiting for an inbound connection; the flag is not consulted meanwhile.
    Accepting,
    /// A client was accepted and the fixed target is being dialed for it.
    Dialing,
    /// The running flag was seen false: the loop returned normally.
    Stopped,
    /// Binding failed: the error was returned to the caller.
    Failed,
}

/// What the accept loop learns from the outside.
#[derive(Clone, Copy, Debug, PartialEq, Eq, Structural)]
pub enum AcceptorEvent {
    Bound(bool),
    RunningFlag(bool),
    Accepted(bool),
    Dialed(bool),
}

/// What the driver of the accept loop does next.
#[derive(Clone, Copy, Debug, PartialEq, Eq, Structural)]
pub enum AcceptorAction {
    /// Read the running flag.
    CheckFlag,
    /// Wait for the next inbound connection.
    Accept,
    /// Dial the fixed target for the client just accepted.
    Dial,
    /// Start an independent handler for the client and target sockets, then
    /// read the flag again without waiting for it.
    SpawnHandler,
    /// Drop the client whose target could not be dialed, then read the flag again.
    DropClient,
    /// Return normally.
    Stop,
    /// Return the bind error; no other failure reaches the caller.
    Fail,
}

/// Model of the accept loop: its phase and how many clients it has
/// accepted, handed to a handler, and dropped.
pub struct AcceptorView {
    pub phase: AcceptorPhase,
    pub accepted: nat,
    pub spawned: nat,
    pub dropped: nat,
}

/// Whether `ev` is the event that `phase` waits for.
pub open spec fn awaits(phase: AcceptorPhase, ev: AcceptorEvent) -> bool {
    match (phase, ev) {
        (AcceptorPhase::Binding, AcceptorEvent::Bound(_)) => true,
        (AcceptorPhase::CheckingFlag, AcceptorEvent::RunningFlag(_)) => true,
        (AcceptorPhase::Accepting, AcceptorEvent::Accepted(_)) => true,
        (AcceptorPhase::Dialing, AcceptorEvent::Dialed(_)) => true,
        _ => false,
    }
}

/// One transition of the accept loop on the event its phase waits for.
pub open spec fn acceptor_next(v: AcceptorView, ev: AcceptorEvent) -> (AcceptorView, AcceptorAction) {
    match ev {
        AcceptorEvent::Bound(ok) => if ok {
            (AcceptorView { phase: AcceptorPhase::CheckingFlag, ..v }, AcceptorAction::CheckFlag)
        } else {
            (AcceptorView { phase: AcceptorPhase::Failed, ..v }, AcceptorAction::Fail)
        },
        AcceptorEvent::RunningFlag(running) => if running {
            (AcceptorView { phase: AcceptorPhase::Accepting, ..v }, AcceptorAction::Accept)
        } else {
            (AcceptorView { phase: AcceptorPhase::Stopped, ..v }, AcceptorAction::Stop)
        },
        AcceptorEvent::Accepted(ok) => if ok {
            (
                AcceptorView { phase: AcceptorPhase::Dialing, accepted: v.accepted + 1, ..v },
                AcceptorAction::Dial,
            )
        } else {
            (AcceptorView { phase: AcceptorPhase::CheckingFlag, ..v }, AcceptorAction::CheckFlag)
        },
        AcceptorEvent::Dialed(ok) => if ok {
            (
                AcceptorView { phase: AcceptorPhase::CheckingFlag, spawned: v.spawned + 1, ..v },
                AcceptorAction::SpawnHandler,
            )
        } else {
            (
                AcceptorView { phase: AcceptorPhase::CheckingFlag, dropped: v.dropped + 1, ..v },
                AcceptorAction::DropClient,
            )
        },
    }
}

/// Every accepted client has been handed to exactly one handler or dropped,
/// but for the one whose target is being dialed.
pub open spec fn acceptor_invariant(v: AcceptorView) -> bool {
    v.accepted == v.spawned + v.dropped + if v.phase == AcceptorPhase::Dialing {
        1nat
    } else {
        0nat
    }
}

/// The accept loop of the relay.
pub struct Acceptor {
    phase: AcceptorPhase,
    accepted: Ghost<nat>,
    spawned: Ghost<nat>,
    dropped: Ghost<nat>,
}

impl View for Acceptor {
    type V = AcceptorView;

    closed spec fn view(&self) -> AcceptorView {
        AcceptorView {
            phase: self.phase,
            accepted: self.accepted@,
            spawned: self.spawned@,
            dropped: self.dropped@,
        }
    }
}

impl Acceptor {
    pub open spec fn wf(&self) -> bool {
        acceptor_invariant(self@)
    }

    /// A loop whose listening socket is about to be bound.
    pub fn new() -> (a: Acceptor)
        ensures
            a.wf(),
            a@ == (AcceptorView { phase: AcceptorPhase::Binding, accepted: 0, spawned: 0, dropped: 0 }),
    {
        Acceptor {
            phase: AcceptorPhase::Binding,
            accepted: Ghost(0),
            spawned: Ghost(0),
            dropped: Ghost(0),
        }
    }

    pub fn phase(&self) -> (r: AcceptorPhase)
        ensures
            r == self@.phase,
    {
        self.phase
    }

    /// Whether `ev` is the event the loop waits for now.
    pub fn awaits(&self, ev: AcceptorEvent) -> (r: bool)
        ensures
            r == awaits(self@.phase, ev),
    {
        match (self.phase, ev) {
            (AcceptorPhase::Binding, AcceptorEvent::Bound(_)) => true,
            (AcceptorPhase::CheckingFlag, AcceptorEvent::RunningFlag(_)) => true,
            (AcceptorPhase::Accepting, AcceptorEvent::Accepted(_)) => true,
            (AcceptorPhase::Dialing, AcceptorEvent::Dialed(_)) => true,
            _ => false,
        }
    }

    /// Takes the event the loop waits for and says what to do next.
    pub fn step(&mut self, ev: AcceptorEvent) -> (action: AcceptorAction)
        requires
            old(self).wf(),
            awaits(old(self)@.phase, ev),
        ensures
            final(self).wf(),
            (final(self)@, action) == acceptor_next(old(self)@, ev),
    {
        match ev {
            AcceptorEvent::Bound(ok) => {
                if ok {
                    self.phase = AcceptorPhase::CheckingFlag;
                    AcceptorAction::CheckFlag
                } else {
                    self.phase = AcceptorPhase::Failed;
                    AcceptorAction::Fail
                }
            },
            AcceptorEvent::RunningFlag(running) => {
                if running {
                    self.phase = AcceptorPhase::Accepting;
                    AcceptorAction::Accept
                } else {
                    self.phase = AcceptorPhase::Stopped;
                    AcceptorAction::Stop
                }
            },
            AcceptorEvent::Accepted(ok) => {
                if ok {
                    self.phase = AcceptorPhase::Dialing;
                    self.accepted = Ghost(self.accepted@ + 1);
                    AcceptorAction::Dial
                } else {
                    self.phase = AcceptorPhase::CheckingFlag;
                    AcceptorAction::CheckFlag
                }
            },
            AcceptorEvent::Dialed(ok) => {
                self.phase = AcceptorPhase::CheckingFlag;
                if ok {
                    self.spawned = Ghost(self.spawned@ + 1);
                    AcceptorAction::SpawnHandler
                } else {
                    self.dropped = Ghost(self.dropped@ + 1);
                    AcceptorAction::DropClient
                }
            },
        }
    }
}

/// The running flag is read only between two accepts: the loop stops only
/// from the flag check, on a false flag. An accept already under way always
/// completes first, and its client is still dialed and handled; nothing the
/// loop does reaches a handler it has already started.
pub proof fn lemma_stops_only_between_accepts(v: AcceptorView, ev: AcceptorEvent)
    requires
        awaits(v.phase, ev),
    ensures
        acceptor_next(v, ev).0.phase == AcceptorPhase::Stopped <==> (v.phase
            == AcceptorPhase::CheckingFlag && ev == AcceptorEvent::RunningFlag(false)),
        v.phase == AcceptorPhase::Accepting && ev == AcceptorEvent::Accepted(true) ==> acceptor_next(
            v,
            ev,
        ).1 == AcceptorAction::Dial,
        v.phase == AcceptorPhase::Dialing && ev == AcceptorEvent::Dialed(true) ==> acceptor_next(
            v,
            ev,
        ).1 == AcceptorAction::SpawnHandler,
{
}

/// A target that cannot be dialed costs only its client: that client is
/// dropped without a handler, the count of handlers stays, and the loop goes
/// back to serve the next connection.
pub proof fn lemma_dial_failure_is_not_fatal(v: AcceptorView)
    requires
        v.phase == AcceptorPhase::Dialing,
        acceptor_invariant(v),
    ensures
        ({
            let (w, action) = acceptor_next(v, AcceptorEvent::Dialed(false));
            &&& action == AcceptorAction::DropClient
            &&& w.phase == AcceptorPhase::CheckingFlag
            &&& w.spawned == v.spawned
            &&& w.accepted == v.accepted
            &&& acceptor_invariant(w)
            &&& acceptor_next(w, AcceptorEvent::RunningFlag(true)).1 == AcceptorAction::Accept
        }),
{
}

/// Only a failed bind reaches the caller: the loop returns an error on that
/// event and on no other. A failed accept, like a failed dial, sends it back
/// to the flag check.
pub proof fn lemma_only_bind_failure_is_fatal(v: AcceptorView, ev: AcceptorEvent)
    requires
        awaits(v.phase, ev),
    ensures
        acceptor_next(v, ev).1 == AcceptorAction::Fail <==> ev == AcceptorEvent::Bound(false),
        acceptor_next(v, ev).0.phase == AcceptorPhase::Failed <==> ev == AcceptorEvent::Bound(false),
        ev == AcceptorEvent::Accepted(false) ==> acceptor_next(v, ev) == (
            AcceptorView { phase: AcceptorPhase::CheckingFlag, ..v },
            AcceptorAction::CheckFlag,
        ),
{
}

} // verus!
