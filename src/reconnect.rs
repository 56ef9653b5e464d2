use vstd::prelude::*;

verus! {

/// How many reconnect attempts one cycle of the policy makes at most.
pub const MAX_RECONNECT_ATTEMPTS: u32 = 12;

/// The fixed wait before each reconnect attempt, in milliseconds.
pub const RECONNECT_DELAY_MS: u64 = 5000;

/// What the caller of the reconnection policy must do next.
#[derive(Clone, Copy, Debug, PartialEq, Eq, Structural)]
pub enum ReconnectStep {
    /// Nothing: the session is connected, or no cycle is running.
    Idle,
    /// Wait `delay_ms`, then ask the transport to reconnect once and report
    /// the outcome.
    Attempt { delay_ms: u64 },
    /// The last attempt succeeded; the session is connected again.
    Reconnected,
    /// Every attempt of this cycle failed. The session stays usable and the
    /// policy may be started again later.
    Exhausted,
}

} // verus!
