use vstd::prelude::*;

verus! {

/// The error taxonomy of the session engine.
///
/// Every session operation returns a `Result` whose error case is one
/// of these kinds; no operation panics on an expected failure.
#[derive(Clone, Copy, Debug, PartialEq, Eq, Structural)]
pub enum ServerError {
    /// The requested root directory does not exist.
    InvalidRoot,
    /// Registering the filesystem watch failed.
    WatchSetupFailed,
    /// Every probed port in the try budget was occupied.
    NoPortAvailable,
    /// `stop_server` was called while no session was running.
    NotRunning,
}

impl ServerError {
    /// A short human-readable description, suitable for a notification.
    pub fn message(&self) -> (r: String)
        ensures
            *self == ServerError::InvalidRoot ==> r@ == "Directory does not exist"@,
            *self == ServerError::WatchSetupFailed ==> r@ == "Failed to watch directory"@,
            *self == ServerError::NoPortAvailable ==> r@ == "No available port found"@,
            *self == ServerError::NotRunning ==> r@ == "Server not running"@,
    {
        match self {
            ServerError::InvalidRoot => String::from_str("Directory does not exist"),
            ServerError::WatchSetupFailed => String::from_str("Failed to watch directory"),
            ServerError::NoPortAvailable => String::from_str("No available port found"),
            ServerError::NotRunning => String::from_str("Server not running"),
        }
    }
}

} // verus!
