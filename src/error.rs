use vstd::prelude::*;

verus! {

/// Why a pool operation did not happen.
#[derive(Clone, Copy, Debug, PartialEq, Eq, Structural)]
pub enum PoolError {
    /// A thread count of zero or above the supported limit, an
    /// initialization while another pool is registered, or a pool that
    /// could not be constructed.
    ConfigurationError,
    /// A worker asked to join when no start-up token was left.
    ChannelExhaustedError,
    /// The host could not start or stop the requested threads.
    SupervisorError,
    /// Work was submitted while no pool was ready.
    NotReadyError,
    /// The submitted work itself failed.
    OperationFailure,
}

} // verus!
