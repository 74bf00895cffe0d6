//! The plain values that the ledger speaks in.

use vstd::prelude::*;

verus! {

/// An identity, known to the ledger only as a 256-bit key. Two principals are the
/// same exactly when their keys are equal; the ledger never looks inside.
#[derive(Clone, Copy, Debug, PartialEq, Eq, Structural)]
pub struct Principal {
    pub hi: u128,
    pub lo: u128,
}

/// What is fixed once, when the ledger is set up.
#[derive(Clone, Copy, Debug, PartialEq, Eq, Structural)]
pub struct Config {
    /// The token in which every stream is denominated.
    pub token: Principal,
    /// The principal that may pause, resume and cancel any stream.
    pub admin: Principal,
}

/// The keys under which the ledger keeps its state.
#[derive(Clone, Copy, Debug, PartialEq, Eq, Structural)]
pub enum DataKey {
    Config,
    NextStreamId,
    Stream(u64),
}

/// Where a stream stands in its life. `Completed` and `Cancelled` are final.
#[derive(Clone, Copy, Debug, PartialEq, Eq, Structural)]
pub enum StreamStatus {
    Active,
    Paused,
    Completed,
    Cancelled,
}

/// Why an operation was refused. A refused operation changes nothing.
#[derive(Clone, Copy, Debug, PartialEq, Eq, Structural)]
pub enum StreamError {
    /// The ledger was set up before.
    AlreadyInitialized,
    /// The amounts or the times of a new stream are malformed.
    InvalidParameters,
    /// No stream has this identifier.
    NotFound,
    /// The caller is not the principal that the operation belongs to.
    Unauthorized,
    /// The stream's status does not allow the operation.
    InvalidState,
    /// A withdrawal was asked for while nothing is payable.
    NothingDue,
    /// An amount, a time or an identifier left the range of its type.
    Overflow,
    /// The host could not carry out a payment. The ledger itself never answers
    /// with this: it is here so that a host can report every failure in one type.
    TransferFailed,
}

/// What a cancellation pays out.
#[derive(Clone, Copy, Debug, PartialEq, Eq, Structural)]
pub struct Settlement {
    /// Accrued and not yet withdrawn: owed to the recipient.
    pub due_to_recipient: i128,
    /// Never accrued: returned to the sender.
    pub refund_to_sender: i128,
}

impl StreamStatus {
    /// A final status has no way out.
    pub open spec fn terminal(self) -> bool {
        self == StreamStatus::Completed || self == StreamStatus::Cancelled
    }

    pub fn is_terminal(&self) -> (r: bool)
        ensures
            r == self.terminal(),
    {
        match self {
            StreamStatus::Completed => true,
            StreamStatus::Cancelled => true,
            StreamStatus::Active => false,
            StreamStatus::Paused => false,
        }
    }
}

} // verus!
