use vstd::prelude::*;

verus! {

/// Why one invocation of the helper stopped without handing the work item over.
#[derive(Clone, Copy, Debug, PartialEq, Eq, Structural)]
pub enum HelperError {
    /// The work item does not exist on disk.
    InvalidInput,
    /// The port record holds text that is not a port number.
    PersistReadCorrupt,
    /// No server executable could be located, or it is not on disk.
    ExecutableNotFound,
    /// The operating system could not start the server.
    SpawnFailed,
    /// The server's output closed or failed before it announced a port.
    AnnouncementUnreadable,
    /// The server announced no port before the deadline passed.
    AnnouncementTimeout,
    /// The server announced text that is not a port number.
    MalformedPort,
    /// The announced port could not be written to the port record.
    PersistWriteFailed,
}

pub open spec fn error_message(e: HelperError) -> Seq<char> {
    match e {
        HelperError::InvalidInput => "invalid work item: no such file"@,
        HelperError::PersistReadCorrupt => "the port record does not hold a port number"@,
        HelperError::ExecutableNotFound => "the server executable was not found"@,
        HelperError::SpawnFailed => "the server process could not be started"@,
        HelperError::AnnouncementUnreadable => "the server closed its output before announcing a port"@,
        HelperError::AnnouncementTimeout => "the server announced no port in time"@,
        HelperError::MalformedPort => "the server announced something that is not a port number"@,
        HelperError::PersistWriteFailed => "the port record could not be written"@,
    }
}

impl HelperError {
    /// A one-line description for the user.
    pub fn message(&self) -> (r: &'static str)
        ensures
            r@ == error_message(*self),
    {
        match self {
            HelperError::InvalidInput => "invalid work item: no such file",
            HelperError::PersistReadCorrupt => "the port record does not hold a port number",
            HelperError::ExecutableNotFound => "the server executable was not found",
            HelperError::SpawnFailed => "the server process could not be started",
            HelperError::AnnouncementUnreadable => "the server closed its output before announcing a port",
            HelperError::AnnouncementTimeout => "the server announced no port in time",
            HelperError::MalformedPort => "the server announced something that is not a port number",
            HelperError::PersistWriteFailed => "the port record could not be written",
        }
    }
}

} // verus!
