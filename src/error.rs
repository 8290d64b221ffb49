use vstd::prelude::*;

verus! {

/// Kind of a failed file system operation.
#[derive(Debug, Clone, Copy, PartialEq, Eq, Structural)]
pub enum IoKind {
    NotFound,
    PermissionDenied,
    ConnectionRefused,
    ConnectionReset,
    ConnectionAborted,
    NotConnected,
    AddrInUse,
    AddrNotAvailable,
    BrokenPipe,
    AlreadyExists,
    WouldBlock,
    NotADirectory,
    IsADirectory,
    DirectoryNotEmpty,
    ReadOnlyFilesystem,
    StorageFull,
    FileTooLarge,
    ResourceBusy,
    CrossesDevices,
    TooManyLinks,
    InvalidFilename,
    InvalidInput,
    InvalidData,
    TimedOut,
    WriteZero,
    Interrupted,
    Unsupported,
    UnexpectedEof,
    OutOfMemory,
    HostUnreachable,
    NetworkUnreachable,
    NetworkDown,
    StaleNetworkFileHandle,
    NotSeekable,
    ExecutableFileBusy,
    Deadlock,
    ArgumentListTooLong,
    QuotaExceeded,
    /// Any failure of a kind not listed here.
    Other,
}

/// Why a file operation did not complete.
#[derive(Debug, Clone, Copy, PartialEq, Eq, Structural)]
pub enum Error {
    /// The file dialog was dismissed without a choice.
    DialogClosed,
    /// The file system refused the operation.
    IO(IoKind),
}

impl Error {
    /// Whether this is a file system failure rather than a dismissed dialog.
    pub fn is_io(&self) -> (r: bool)
        ensures
            r == (*self is IO),
    {
        match self {
            Error::DialogClosed => false,
            Error::IO(_) => true,
        }
    }
}

} // verus!
