//! The error kinds of the controller and the policy each one carries.

use vstd::prelude::*;

verus! {

/// Everything that can go wrong in the control plane, by kind.
///
/// The kinds that carry a `String` keep the human-readable detail that the
/// failing step produced; the contracts of the library speak only of the kind.
#[derive(Debug, Clone)]
pub enum OutpostError {
    /// Malformed endpoint, bad port, or an invalid option combination.
    BadInput(String),
    /// The tunnel toolchain binary could not be invoked.
    ToolchainMissing,
    /// The toolchain ran but exited with a failure.
    ToolchainFailed(String),
    /// A kernel module needed for traffic shaping is absent.
    ModulesMissing(String),
    /// The process lacks the privilege to program the kernel.
    PrivilegeDenied,
    /// Every candidate tunnel subnet collides with a host interface.
    NoSubnetAvailable,
    /// The cloud rejected the stack or the stack ended in a failure state.
    CloudRejected(String),
    /// A single poll failed; the caller retries on the next poll.
    NetworkTransient(String),
    /// The stack vanished while we were still waiting on it.
    StackDisappeared,
    /// The tunnel bring-up command exited non-zero.
    TunnelActivationFailed,
    /// The shutdown broadcast fired; not a failure, dictates cleanup.
    Cancelled,
    /// The stack reported a status outside the expected set.
    UnexpectedStackState(String),
}

impl OutpostError {
    /// A short stable name for the kind, for logs and tests.
    pub fn kind_name(&self) -> (r: &'static str)
        ensures
            r@ == kind_name_of(*self),
    {
        match self {
            OutpostError::BadInput(_) => "BadInput",
            OutpostError::ToolchainMissing => "ToolchainMissing",
            OutpostError::ToolchainFailed(_) => "ToolchainFailed",
            OutpostError::ModulesMissing(_) => "ModulesMissing",
            OutpostError::PrivilegeDenied => "PrivilegeDenied",
            OutpostError::NoSubnetAvailable => "NoSubnetAvailable",
            OutpostError::CloudRejected(_) => "CloudRejected",
            OutpostError::NetworkTransient(_) => "NetworkTransient",
            OutpostError::StackDisappeared => "StackDisappeared",
            OutpostError::TunnelActivationFailed => "TunnelActivationFailed",
            OutpostError::Cancelled => "Cancelled",
            OutpostError::UnexpectedStackState(_) => "UnexpectedStackState",
        }
    }
}

/// The name that `kind_name` returns for each kind.
pub open spec fn kind_name_of(e: OutpostError) -> Seq<char> {
    match e {
        OutpostError::BadInput(_) => "BadInput"@,
        OutpostError::ToolchainMissing => "ToolchainMissing"@,
        OutpostError::ToolchainFailed(_) => "ToolchainFailed"@,
        OutpostError::ModulesMissing(_) => "ModulesMissing"@,
        OutpostError::PrivilegeDenied => "PrivilegeDenied"@,
        OutpostError::NoSubnetAvailable => "NoSubnetAvailable"@,
        OutpostError::CloudRejected(_) => "CloudRejected"@,
        OutpostError::NetworkTransient(_) => "NetworkTransient"@,
        OutpostError::StackDisappeared => "StackDisappeared"@,
        OutpostError::TunnelActivationFailed => "TunnelActivationFailed"@,
        OutpostError::Cancelled => "Cancelled"@,
        OutpostError::UnexpectedStackState(_) => "UnexpectedStackState"@,
    }
}

} // verus!
