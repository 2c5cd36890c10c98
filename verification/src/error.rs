//! The errors that commands and transfers report.

use vstd::prelude::*;

verus! {

/// The code with which a device reports that it does not support a command
/// (`MGMT_ERR_ENOTSUP`).
pub const MGMT_ERR_ENOTSUP: i32 = 8;

/// The kinds of input and output failures, with the names that they have in `std::io`.
#[derive(Clone, Copy, Debug, PartialEq, Eq, Structural)]
pub enum IoErrorKind {
    /// Something was not found
    NotFound,
    /// The necessary privileges are missing
    PermissionDenied,
    /// The other side refused the connection
    ConnectionRefused,
    /// The other side reset the connection
    ConnectionReset,
    /// The other side cannot be reached
    HostUnreachable,
    /// The network of the other side cannot be reached
    NetworkUnreachable,
    /// The other side ended the connection
    ConnectionAborted,
    /// There is no connection
    NotConnected,
    /// The address is already in use
    AddrInUse,
    /// The address does not exist here
    AddrNotAvailable,
    /// The network is down
    NetworkDown,
    /// The pipe was closed
    BrokenPipe,
    /// Something already exists
    AlreadyExists,
    /// The operation would have to wait
    WouldBlock,
    /// Something is not a directory
    NotADirectory,
    /// Something is a directory
    IsADirectory,
    /// The directory is not empty
    DirectoryNotEmpty,
    /// The file system cannot be written
    ReadOnlyFilesystem,
    /// The file on the network is no longer valid
    StaleNetworkFileHandle,
    /// An argument was not valid
    InvalidInput,
    /// The data was not valid
    InvalidData,
    /// The operation did not finish in time
    TimedOut,
    /// Nothing more could be written
    WriteZero,
    /// The storage is full
    StorageFull,
    /// There are no positions to go to
    NotSeekable,
    /// A quota was exceeded
    QuotaExceeded,
    /// The file is too large
    FileTooLarge,
    /// The resource is busy
    ResourceBusy,
    /// The program is running
    ExecutableFileBusy,
    /// The operation would never finish
    Deadlock,
    /// The operation spans several devices
    CrossesDevices,
    /// There are too many links
    TooManyLinks,
    /// The name of the file is not valid
    InvalidFilename,
    /// There are too many arguments
    ArgumentListTooLong,
    /// The operation was interrupted
    Interrupted,
    /// The operation is not supported
    Unsupported,
    /// The data ended too early
    UnexpectedEof,
    /// There was not enough memory
    OutOfMemory,
    /// Any other failure
    Other,
}

/// A failure of an input or output operation.
#[derive(Clone, Debug, PartialEq, Eq)]
pub struct IoError {
    /// The kind of the failure
    pub kind: IoErrorKind,
    /// The description of the failure
    pub message: String,
}

/// The arguments of a command leave no room for data in a frame of the given size.
#[derive(Clone, Copy, Debug, PartialEq, Eq, Structural)]
pub struct DataTooLargeError;

/// Possible failures when receiving a response.
#[derive(Clone, Debug, PartialEq, Eq)]
pub enum ReceiveError {
    /// The transport failed
    TransportError(IoError),
    /// The response does not belong to the request
    UnexpectedResponse,
    /// The response does not form a valid frame
    InvalidFrame(String),
}

/// An error code that the device returned.
#[derive(Clone, Copy, Debug, PartialEq, Eq, Structural)]
pub enum DeviceError {
    /// A code common to all command groups
    V1 {
        /// The error code
        rc: i32,
    },
    /// A code that belongs to a command group
    V2 {
        /// The command group
        group: u16,
        /// The error code
        rc: i32,
    },
}

/// Possible failures when executing a command.
#[derive(Clone, Debug, PartialEq, Eq)]
pub enum ExecuteError {
    /// The request could not be sent
    SendFailed(IoError),
    /// The response could not be received
    ReceiveFailed(ReceiveError),
    /// The response does not hold what the command returns
    DecodeFailed(String),
    /// The device answered with an error
    ErrorResponse(DeviceError),
}

impl ExecuteError {
    /// The device reported the command as unsupported.
    pub open spec fn reports_unsupported(self) -> bool {
        self == ExecuteError::ErrorResponse(DeviceError::V1 { rc: MGMT_ERR_ENOTSUP })
    }

    /// Checks if the device reported the command as unsupported
    pub fn command_not_supported(&self) -> (b: bool)
        ensures
            b == self.reports_unsupported(),
    {
        match self {
            ExecuteError::ErrorResponse(DeviceError::V1 { rc }) => *rc == MGMT_ERR_ENOTSUP,
            _ => false,
        }
    }
}

/// Possible error values of [`MCUmgrClient`](crate::client::MCUmgrClient).
#[derive(Clone, Debug, PartialEq, Eq)]
pub enum MCUmgrClientError {
    /// The command failed in the SMP protocol layer.
    ExecuteError(ExecuteError),
    /// A device response contained an unexpected offset value.
    UnexpectedOffset,
    /// The writer returned an error.
    WriterError(IoError),
    /// The reader returned an error.
    ReaderError(IoError),
    /// The received data does not match the reported file size.
    SizeMismatch,
    /// The received data unexpectedly did not report the file size.
    MissingSize,
    /// The progress callback returned an error.
    ProgressCallbackError,
    /// The current SMP frame size is too small for this command.
    FrameSizeTooSmall(DataTooLargeError),
    /// The device reported a checksum mismatch
    ChecksumMismatchOnDevice,
    /// The firmware image does not match the given checksum
    ChecksumMismatch,
    /// Setting the device timeout failed
    SetTimeoutFailed(String),
}

impl MCUmgrClientError {
    /// The error stands for a command that the device does not support.
    pub open spec fn reports_unsupported(self) -> bool {
        self matches MCUmgrClientError::ExecuteError(err) && err.reports_unsupported()
    }

    /// Checks if the device reported the command as unsupported
    pub fn command_not_supported(&self) -> (b: bool)
        ensures
            b == self.reports_unsupported(),
    {
        match self {
            MCUmgrClientError::ExecuteError(err) => err.command_not_supported(),
            _ => false,
        }
    }
}

impl From<ExecuteError> for MCUmgrClientError {
    fn from(err: ExecuteError) -> (res: MCUmgrClientError) {
        MCUmgrClientError::ExecuteError(err)
    }
}

impl vstd::std_specs::convert::FromSpecImpl<ExecuteError> for MCUmgrClientError {
    open spec fn obeys_from_spec() -> bool {
        true
    }

    open spec fn from_spec(err: ExecuteError) -> MCUmgrClientError {
        MCUmgrClientError::ExecuteError(err)
    }
}

} // verus!
