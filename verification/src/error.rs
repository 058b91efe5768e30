use vstd::prelude::*;

verus! {

/// Status codes shared by every component of the monitor.
#[derive(Debug, Clone, Copy, PartialEq, Eq, Structural)]
pub enum VBoxError {
    Fail,
    BadFile,
    BadParam,
    BadVersion,
    NotFound,
    NotInitialized,
    NotImplemented,
    Io,
}

/// Result type used throughout the monitor.
pub type VBoxResult<T> = Result<T, VBoxError>;

} // verus!
