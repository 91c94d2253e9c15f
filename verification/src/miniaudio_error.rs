use vstd::prelude::*;

verus! {

/// A fault that the audio engine reports in place of a result.
#[derive(Debug, Clone, Copy, PartialEq, Eq, Structural)]
pub enum MiniaudioError {
    Error,
    InvalidArgs,
    InvalidOperation,
    OutOfMemory,
    OutOfRange,
    AccessDenied,
    DoesNotExist,
    AlreadyExists,
    TooManyOpenFiles,
    InvalidFile,
    TooBig,
    PathTooLong,
    NameTooLong,
    NotDirectory,
    IsDirectory,
    DirectoryNotEmpty,
    AtEnd,
    NoSpace,
    Busy,
    IoError,
    Interrupt,
    Unavailable,
    AlreadyInUse,
    BadAddress,
    BadSeek,
    BadPipe,
    Deadlock,
    TooManyLinks,
    NotImplemented,
    NoMessage,
    BadMessage,
    NoDataAvailable,
    InvalidData,
    Timeout,
    NoNetwork,
    NotUnique,
    NotSocket,
    NoAddress,
    BadProtocol,
    ProtocolUnavailable,
    ProtocolNotSupported,
    ProtocolFamilyNotSupported,
    AddressFamilyNotSupported,
    SocketNotSupported,
    ConnectionReset,
    AlreadyConnected,
    NotConnected,
    ConnectionRefused,
    NoHost,
    InProgress,
    Cancelled,
    MemoryAlreadyMapped,
    FormatNotSupported,
    DeviceTypeNotSupported,
    ShareModeNotSupported,
    NoBackend,
    NoDevice,
    ApiNotFound,
    InvalidDeviceConfig,
    Loop,
    DeviceNotInitialized,
    DeviceAlreadyInitialized,
    DeviceNotStarted,
    DeviceNotStopped,
    FailedToInitBackend,
    FailedToOpenBackendDevice,
    FailedToStartBackendDevice,
    FailedToStopBackendDevice,
}

impl MiniaudioError {
    /// Whether this is the engine's signal that a stream has no more frames,
    /// which is no fault.
    pub open spec fn is_end_of_stream(self) -> bool {
        self == MiniaudioError::AtEnd
    }

    pub fn at_end(&self) -> (at_end: bool)
        ensures
            at_end == self.is_end_of_stream(),
    {
        match self {
            MiniaudioError::AtEnd => true,
            _ => false,
        }
    }
}

} // verus!
