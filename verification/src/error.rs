use vstd::prelude::*;

verus! {

/// The reasons an instruction is refused, before or during execution.
///
/// Every failure is terminal for the current instruction: no retries, no
/// partial effects. The executor performs all of its own checks before it
/// changes any balance, so a refused instruction leaves every account as
/// it was.
#[derive(Debug, Clone, Copy, PartialEq, Eq, Structural)]
pub enum Failure {
    /// The input was empty, carried an unknown tag, or a wrong-length payload.
    MalformedInstruction,
    /// A caller-supplied amount broke a domain precondition (a zero deposit).
    InvalidAmount,
    /// A computed withdrawal came to nothing, or the source cannot cover a
    /// requested transfer.
    InsufficientFunds,
    /// The host refused an account creation or a transfer; the cause is
    /// opaque and surfaced as-is.
    TransferRejected,
    /// Fewer account handles were supplied than the instruction's arity
    /// demands.
    MissingAccount,
}

} // verus!
