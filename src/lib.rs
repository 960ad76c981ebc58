//! Decision logic of a bidirectional TCP relay: the write retry policy, the
//! one-directional byte pump, the per-connection handler race and the accept
//! loop, each as a state machine whose transitions are proved against a
//! mathematical model. The sockets, timers and tasks that drive these
//! machines live outside the verified library.

pub mod acceptor;
pub mod handler;
pub mod pump;
pub mod retry;

pub use retry::{WriteRetry, WriteStep, MAX_RETRIES, RETRY_DELAY_SECS};
pub use pump::{Pump, PumpAction, PumpPhase, ReadOutcome, CHUNK_SIZE};
pub use handler::{
    Connection, Direction, HandlerEvent, HandlerResult, PumpEnd, Shutdown, Termination,
};
pub use acceptor::{Acceptor, AcceptorAction, AcceptorEvent, AcceptorPhase};
