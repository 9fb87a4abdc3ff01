//! Errors of the HydraSDR API and their status codes.

use crate::text;
use nusb::Error as BackendError;
use nusb::ErrorKind as BackendErrorKind;
use vstd::prelude::*;

verus! {

/// Numbered HydraSDR status that an error stands for.
#[derive(Clone, Copy, Debug, Eq, PartialEq, Structural)]
pub enum StatusCode {
    /// The operation succeeded.
    Success,
    /// The answer is yes.
    True,
    /// A parameter is out of range.
    InvalidParam,
    /// No device was found.
    NotFound,
    /// The device is in use.
    Busy,
    /// Memory ran out.
    NoMem,
    /// The operation is not supported.
    Unsupported,
    /// The USB layer failed.
    LibUsb,
    /// A thread failed.
    Thread,
    /// The streaming thread failed.
    StreamingThreadErr,
    /// The stream is stopped.
    StreamingStopped,
    /// Any other failure.
    Other,
}

/// Code that no status has.
#[derive(Clone, Copy, Debug, Eq, PartialEq, Structural)]
pub struct UnknownStatusCode(pub i32);

impl StatusCode {
    /// Number of this code.
    pub open spec fn spec_code(self) -> int {
        match self {
            StatusCode::Success => 0int,
            StatusCode::True => 1int,
            StatusCode::InvalidParam => -2int,
            StatusCode::NotFound => -5int,
            StatusCode::Busy => -6int,
            StatusCode::NoMem => -11int,
            StatusCode::Unsupported => -12int,
            StatusCode::LibUsb => -1000int,
            StatusCode::Thread => -1001int,
            StatusCode::StreamingThreadErr => -1002int,
            StatusCode::StreamingStopped => -1003int,
            StatusCode::Other => -9999int,
        }
    }

    /// C macro name of this code.
    pub open spec fn spec_name(self) -> &'static str {
        match self {
            StatusCode::Success => "HYDRASDR_SUCCESS",
            StatusCode::True => "HYDRASDR_TRUE",
            StatusCode::InvalidParam => "HYDRASDR_ERROR_INVALID_PARAM",
            StatusCode::NotFound => "HYDRASDR_ERROR_NOT_FOUND",
            StatusCode::Busy => "HYDRASDR_ERROR_BUSY",
            StatusCode::NoMem => "HYDRASDR_ERROR_NO_MEM",
            StatusCode::Unsupported => "HYDRASDR_ERROR_UNSUPPORTED",
            StatusCode::LibUsb => "HYDRASDR_ERROR_LIBUSB",
            StatusCode::Thread => "HYDRASDR_ERROR_THREAD",
            StatusCode::StreamingThreadErr => "HYDRASDR_ERROR_STREAMING_THREAD_ERR",
            StatusCode::StreamingStopped => "HYDRASDR_ERROR_STREAMING_STOPPED",
            StatusCode::Other => "HYDRASDR_ERROR_OTHER",
        }
    }

    /// Number of this code.
    pub fn code(self) -> (code: i32)
        ensures
            code == self.spec_code(),
    {
        match self {
            StatusCode::Success => 0,
            StatusCode::True => 1,
            StatusCode::InvalidParam => -2,
            StatusCode::NotFound => -5,
            StatusCode::Busy => -6,
            StatusCode::NoMem => -11,
            StatusCode::Unsupported => -12,
            StatusCode::LibUsb => -1000,
            StatusCode::Thread => -1001,
            StatusCode::StreamingThreadErr => -1002,
            StatusCode::StreamingStopped => -1003,
            StatusCode::Other => -9999,
        }
    }

    /// C macro name of this code.
    pub fn name(self) -> (name: &'static str)
        ensures
            name == self.spec_name(),
    {
        match self {
            StatusCode::Success => "HYDRASDR_SUCCESS",
            StatusCode::True => "HYDRASDR_TRUE",
            StatusCode::InvalidParam => "HYDRASDR_ERROR_INVALID_PARAM",
            StatusCode::NotFound => "HYDRASDR_ERROR_NOT_FOUND",
            StatusCode::Busy => "HYDRASDR_ERROR_BUSY",
            StatusCode::NoMem => "HYDRASDR_ERROR_NO_MEM",
            StatusCode::Unsupported => "HYDRASDR_ERROR_UNSUPPORTED",
            StatusCode::LibUsb => "HYDRASDR_ERROR_LIBUSB",
            StatusCode::Thread => "HYDRASDR_ERROR_THREAD",
            StatusCode::StreamingThreadErr => "HYDRASDR_ERROR_STREAMING_THREAD_ERR",
            StatusCode::StreamingStopped => "HYDRASDR_ERROR_STREAMING_STOPPED",
            StatusCode::Other => "HYDRASDR_ERROR_OTHER",
        }
    }

    /// C macro name of the code with this number.
    pub fn name_for_code(code: i32) -> (name: &'static str)
        ensures
            name == match status_with_code(code) {
                Ok(status) => status.spec_name(),
                Err(_) => "hydrasdr unknown error",
            },
    {
        match StatusCode::try_from(code) {
            Ok(status) => status.name(),
            Err(_) => "hydrasdr unknown error",
        }
    }
}

/// Status with this number.
pub open spec fn status_with_code(code: i32) -> core::result::Result<StatusCode, UnknownStatusCode> {
    if code == 0 {
        Ok(StatusCode::Success)
    } else if code == 1 {
        Ok(StatusCode::True)
    } else if code == -2 {
        Ok(StatusCode::InvalidParam)
    } else if code == -5 {
        Ok(StatusCode::NotFound)
    } else if code == -6 {
        Ok(StatusCode::Busy)
    } else if code == -11 {
        Ok(StatusCode::NoMem)
    } else if code == -12 {
        Ok(StatusCode::Unsupported)
    } else if code == -1000 {
        Ok(StatusCode::LibUsb)
    } else if code == -1001 {
        Ok(StatusCode::Thread)
    } else if code == -1002 {
        Ok(StatusCode::StreamingThreadErr)
    } else if code == -1003 {
        Ok(StatusCode::StreamingStopped)
    } else if code == -9999 {
        Ok(StatusCode::Other)
    } else {
        Err(UnknownStatusCode(code))
    }
}

impl TryFrom<i32> for StatusCode {
    type Error = UnknownStatusCode;

    fn try_from(code: i32) -> (result: core::result::Result<Self, UnknownStatusCode>) {
        match code {
            0 => Ok(StatusCode::Success),
            1 => Ok(StatusCode::True),
            -2 => Ok(StatusCode::InvalidParam),
            -5 => Ok(StatusCode::NotFound),
            -6 => Ok(StatusCode::Busy),
            -11 => Ok(StatusCode::NoMem),
            -12 => Ok(StatusCode::Unsupported),
            -1000 => Ok(StatusCode::LibUsb),
            -1001 => Ok(StatusCode::Thread),
            -1002 => Ok(StatusCode::StreamingThreadErr),
            -1003 => Ok(StatusCode::StreamingStopped),
            -9999 => Ok(StatusCode::Other),
            other => Err(UnknownStatusCode(other)),
        }
    }
}

impl vstd::std_specs::convert::TryFromSpecImpl<i32> for StatusCode {
    open spec fn obeys_try_from_spec() -> bool {
        true
    }

    open spec fn try_from_spec(code: i32) -> core::result::Result<Self, UnknownStatusCode> {
        status_with_code(code)
    }
}

/// C macro name of a status.
pub fn error_name(status: StatusCode) -> (name: &'static str)
    ensures
        name == status.spec_name(),
{
    status.name()
}

/// Law: the number of a status leads back to it.
pub proof fn law_status_numbers_read_back(status: StatusCode)
    ensures
        status_with_code(status.spec_code() as i32) == Ok::<StatusCode, UnknownStatusCode>(status),
{
}

/// Failure reported by the USB backend, with the backend's own message.
#[derive(Debug)]
pub struct UsbFault {
    /// Status that the failure stands for.
    pub status: StatusCode,
    /// Message of the backend.
    pub message: String,
}

/// Error type used by the HydraSDR API.
///
/// USB errors preserve the backend message while exposing a stable high-level
/// [`ErrorKind`].
#[derive(Debug)]
pub enum Error {
    /// A configuration value failed validation.
    InvalidConfig {
        /// Configuration field.
        field: &'static str,
        /// Rule that the value breaks.
        reason: &'static str,
    },
    /// An active receiver setting is not known.
    StateUnavailable {
        /// Receiver setting.
        field: &'static str,
        /// Why no value can be reported.
        reason: &'static str,
    },
    /// No matching HydraSDR device was found.
    DeviceNotFound,
    /// The device or stream is in use in another way.
    Busy,
    /// The operation is not supported.
    Unsupported,
    /// The stream was stopped, finished or otherwise closed.
    StreamClosed(&'static str),
    /// The device broke the vendor protocol.
    Protocol {
        /// Operation in progress.
        operation: &'static str,
        /// What was wrong.
        reason: &'static str,
        /// Status that the failure stands for.
        status: StatusCode,
    },
    /// A bare status code.
    Status(StatusCode),
    /// A USB operation other than a transfer failed.
    Usb(UsbFault),
    /// A USB transfer failed.
    Transfer(UsbFault),
    /// An error with the operation that it interrupted.
    Operation {
        /// Operation that was in progress.
        operation: &'static str,
        /// Error that interrupted it.
        source: Box<Error>,
    },
}

/// Stable high-level error category.
#[derive(Clone, Copy, Debug, Eq, PartialEq, Structural)]
pub enum ErrorKind {
    /// A provided configuration value failed validation.
    InvalidConfig,
    /// An active receiver setting is not known.
    StateUnavailable,
    /// No matching HydraSDR device was found.
    NotFound,
    /// The device or USB resource is already in use.
    Busy,
    /// The requested operation is not supported by the backend or device.
    Unsupported,
    /// The USB backend returned an error.
    Usb,
    /// The stream was already stopped, finished, or otherwise closed.
    StreamClosed,
    /// Any other driver or backend error.
    Other,
}

/// Category of an error that stands for `status`.
pub open spec fn kind_of_status(status: StatusCode) -> ErrorKind {
    match status {
        StatusCode::InvalidParam => ErrorKind::InvalidConfig,
        StatusCode::NotFound => ErrorKind::NotFound,
        StatusCode::Busy => ErrorKind::Busy,
        StatusCode::Unsupported => ErrorKind::Unsupported,
        StatusCode::LibUsb => ErrorKind::Usb,
        StatusCode::StreamingStopped => ErrorKind::StreamClosed,
        _ => ErrorKind::Other,
    }
}

impl Error {
    /// Status code that this error stands for.
    pub open spec fn spec_status_code(self) -> StatusCode
        decreases self,
    {
        match self {
            Error::InvalidConfig { .. } => StatusCode::InvalidParam,
            Error::StateUnavailable { .. } => StatusCode::Other,
            Error::DeviceNotFound => StatusCode::NotFound,
            Error::Busy => StatusCode::Busy,
            Error::Unsupported => StatusCode::Unsupported,
            Error::StreamClosed(_) => StatusCode::StreamingStopped,
            Error::Protocol { status, .. } => status,
            Error::Status(status) => status,
            Error::Usb(fault) => fault.status,
            Error::Transfer(fault) => fault.status,
            Error::Operation { source, .. } => source.spec_status_code(),
        }
    }

    /// Category of this error.
    pub open spec fn spec_kind(self) -> ErrorKind
        decreases self,
    {
        match self {
            Error::StateUnavailable { .. } => ErrorKind::StateUnavailable,
            Error::Operation { source, .. } => source.spec_kind(),
            _ => kind_of_status(self.spec_status_code()),
        }
    }

    /// Text of this error.
    pub open spec fn spec_message(self) -> Seq<char>
        decreases self,
    {
        match self {
            Error::InvalidConfig { field, reason } => "invalid configuration for "@ + field@ + ": "@
                + reason@,
            Error::StateUnavailable { field, reason } => field@ + " is unavailable: "@ + reason@,
            Error::StreamClosed(reason) => "stream closed: "@ + reason@,
            Error::Protocol { operation, reason, .. } => operation@ + ": "@ + reason@,
            Error::Usb(fault) => fault.status.spec_name()@ + ": "@ + fault.message@,
            Error::Transfer(fault) => fault.status.spec_name()@ + ": "@ + fault.message@,
            Error::Operation { operation, source } => operation@ + ": "@ + source.spec_message(),
            _ => self.spec_status_code().spec_name()@,
        }
    }

    /// Return the C-style status code represented by this error.
    pub fn status_code(&self) -> (code: StatusCode)
        ensures
            code == self.spec_status_code(),
        decreases self,
    {
        match self {
            Error::InvalidConfig { .. } => StatusCode::InvalidParam,
            Error::StateUnavailable { .. } => StatusCode::Other,
            Error::DeviceNotFound => StatusCode::NotFound,
            Error::Busy => StatusCode::Busy,
            Error::Unsupported => StatusCode::Unsupported,
            Error::StreamClosed(_) => StatusCode::StreamingStopped,
            Error::Protocol { status, .. } => *status,
            Error::Status(status) => *status,
            Error::Usb(fault) => fault.status,
            Error::Transfer(fault) => fault.status,
            Error::Operation { source, .. } => source.status_code(),
        }
    }

    /// Return the high-level error category.
    pub fn kind(&self) -> (kind: ErrorKind)
        ensures
            kind == self.spec_kind(),
        decreases self,
    {
        match self {
            Error::StateUnavailable { .. } => ErrorKind::StateUnavailable,
            Error::Operation { source, .. } => source.kind(),
            _ => match self.status_code() {
                StatusCode::InvalidParam => ErrorKind::InvalidConfig,
                StatusCode::NotFound => ErrorKind::NotFound,
                StatusCode::Busy => ErrorKind::Busy,
                StatusCode::Unsupported => ErrorKind::Unsupported,
                StatusCode::LibUsb => ErrorKind::Usb,
                StatusCode::StreamingStopped => ErrorKind::StreamClosed,
                _ => ErrorKind::Other,
            },
        }
    }

    /// Name the operation that this error interrupted.
    pub fn at(self, operation: &'static str) -> (error: Error)
        ensures
            error == (Error::Operation { operation, source: Box::new(self) }),
    {
        Error::Operation { operation, source: Box::new(self) }
    }

    /// Return the text of this error.
    pub fn message(&self) -> (message: String)
        ensures
            message@ == self.spec_message(),
        decreases self,
    {
        let mut text: String = String::new();
        match self {
            Error::InvalidConfig { field, reason } => {
                text.append("invalid configuration for ");
                text.append(field);
                text.append(": ");
                text.append(reason);
            },
            Error::StateUnavailable { field, reason } => {
                text.append(field);
                text.append(" is unavailable: ");
                text.append(reason);
            },
            Error::StreamClosed(reason) => {
                text.append("stream closed: ");
                text.append(reason);
            },
            Error::Protocol { operation, reason, .. } => {
                text.append(operation);
                text.append(": ");
                text.append(reason);
            },
            Error::Usb(fault) => {
                text.append(fault.status.name());
                text.append(": ");
                text.append(fault.message.as_str());
            },
            Error::Transfer(fault) => {
                text.append(fault.status.name());
                text.append(": ");
                text.append(fault.message.as_str());
            },
            Error::Operation { operation, source } => {
                text.append(operation);
                text.append(": ");
                let inner: String = source.message();
                text.append(inner.as_str());
            },
            _ => {
                text.append(self.status_code().name());
            },
        }
        text
    }
}

impl From<StatusCode> for Error {
    fn from(value: StatusCode) -> (error: Self) {
        Error::Status(value)
    }
}

impl vstd::std_specs::convert::FromSpecImpl<StatusCode> for Error {
    open spec fn obeys_from_spec() -> bool {
        true
    }

    open spec fn from_spec(value: StatusCode) -> Self {
        Error::Status(value)
    }
}

/// `nusb::Error`, the error of the USB operations other than transfers.
#[verifier::external_type_specification]
#[verifier::external_body]
pub struct ExUsbError(BackendError);

/// `nusb::ErrorKind`, the category of a `nusb::Error`.
#[verifier::external_type_specification]
pub struct ExUsbErrorKind(BackendErrorKind);

/// `nusb::transfer::TransferError`, the error of a USB transfer.
#[verifier::external_type_specification]
pub struct ExTransferError(nusb::transfer::TransferError);

/// Category that `nusb::Error::kind` reports for an error.
pub uninterp spec fn usb_error_kind(error: BackendError) -> BackendErrorKind;

/// `nusb::Error::kind`: the category stored in the error when it was made.
pub assume_specification[ BackendError::kind ](error: &BackendError) -> (kind: BackendErrorKind)
    ensures
        kind == usb_error_kind(*error),
;

/// Text of a `nusb::Error`, as its `Display` writes it.
///
/// Nothing is said of the text: where the error has an error number of the
/// operating system, the text ends in that number, under a label that differs
/// from platform to platform.
#[verifier::external_body]
fn usb_error_text(error: &BackendError) -> (text: String) {
    error.to_string()
}

/// Fixed text of the transfer errors that carry no error number.
pub open spec fn transfer_error_text(error: nusb::transfer::TransferError) -> Option<&'static str> {
    match error {
        nusb::transfer::TransferError::Cancelled => Some("transfer was cancelled"),
        nusb::transfer::TransferError::Stall => Some("endpoint stalled"),
        nusb::transfer::TransferError::Disconnected => Some("device disconnected"),
        nusb::transfer::TransferError::Fault => Some("hardware fault or protocol violation"),
        nusb::transfer::TransferError::InvalidArgument => Some("invalid or unsupported argument"),
        nusb::transfer::TransferError::Unknown(_) => None,
    }
}

/// Text of a `nusb::transfer::TransferError`, as its `Display` writes it.
///
/// The text is fixed but for an unknown error. There the error number, under a
/// label that differs from platform to platform, stands between a fixed
/// beginning and a closing bracket, and nothing is said of what stands there.
#[verifier::external_body]
fn transfer_error_message(error: &nusb::transfer::TransferError) -> (message: String)
    ensures
        transfer_error_text(*error) matches Some(fixed) ==> message@ == fixed@,
        *error is Unknown ==> text::begins_with(message@, "unknown ("@) && message@.last() == ')',
{
    error.to_string()
}

/// Status that a USB error of this category stands for.
pub open spec fn usb_status(kind: BackendErrorKind) -> StatusCode {
    match kind {
        BackendErrorKind::Busy => StatusCode::Busy,
        BackendErrorKind::NotFound => StatusCode::NotFound,
        BackendErrorKind::Unsupported => StatusCode::Unsupported,
        _ => StatusCode::LibUsb,
    }
}

/// Status that a transfer error stands for.
pub open spec fn transfer_status(error: nusb::transfer::TransferError) -> StatusCode {
    match error {
        nusb::transfer::TransferError::InvalidArgument => StatusCode::InvalidParam,
        _ => StatusCode::LibUsb,
    }
}

/// Status that a USB error of this category stands for.
pub fn status_of_usb_error(kind: BackendErrorKind) -> (status: StatusCode)
    ensures
        status == usb_status(kind),
{
    match kind {
        BackendErrorKind::Busy => StatusCode::Busy,
        BackendErrorKind::NotFound => StatusCode::NotFound,
        BackendErrorKind::Unsupported => StatusCode::Unsupported,
        _ => StatusCode::LibUsb,
    }
}

/// Error that a USB error of this category, with this text, becomes.
pub fn usb_error(kind: BackendErrorKind, message: String) -> (error: Error)
    ensures
        error == Error::Usb((UsbFault { status: usb_status(kind), message })),
{
    let status: StatusCode = status_of_usb_error(kind);
    Error::Usb(UsbFault { status, message })
}

impl From<BackendError> for Error {
    fn from(value: BackendError) -> (error: Self)
        ensures
            error matches Error::Usb(fault) && fault.status == usb_status(usb_error_kind(value)),
    {
        usb_error(value.kind(), usb_error_text(&value))
    }
}

impl vstd::std_specs::convert::FromSpecImpl<BackendError> for Error {
    /// The text of the error is no function of `value`: the clauses of `from` say
    /// what is.
    open spec fn obeys_from_spec() -> bool {
        false
    }

    open spec fn from_spec(value: BackendError) -> Self {
        Error::Status(usb_status(usb_error_kind(value)))
    }
}

impl From<nusb::transfer::TransferError> for Error {
    fn from(value: nusb::transfer::TransferError) -> (error: Self)
        ensures
            error matches Error::Transfer(fault) && fault.status == transfer_status(value) && (
            transfer_error_text(value) matches Some(fixed) ==> fault.message@ == fixed@) && (value
                is Unknown ==> text::begins_with(fault.message@, "unknown ("@)
                && fault.message@.last() == ')'),
    {
        let status: StatusCode = match value {
            nusb::transfer::TransferError::InvalidArgument => StatusCode::InvalidParam,
            nusb::transfer::TransferError::Disconnected
            | nusb::transfer::TransferError::Cancelled
            | nusb::transfer::TransferError::Stall
            | nusb::transfer::TransferError::Fault
            | nusb::transfer::TransferError::Unknown(_) => StatusCode::LibUsb,
        };
        Error::Transfer(UsbFault { status, message: transfer_error_message(&value) })
    }
}

impl vstd::std_specs::convert::FromSpecImpl<nusb::transfer::TransferError> for Error {
    /// The text of the error is no function of `value`: the clauses of `from` say
    /// what is.
    open spec fn obeys_from_spec() -> bool {
        false
    }

    open spec fn from_spec(value: nusb::transfer::TransferError) -> Self {
        Error::Status(transfer_status(value))
    }
}

/// Crate result alias using [`Error`].
pub type Result<T> = core::result::Result<T, Error>;

/// Law: naming the interrupted operation keeps an error's category and status.
pub proof fn law_naming_the_operation_keeps_kind_and_status(error: Error, operation: &'static str)
    ensures
        ({
            let named = Error::Operation { operation, source: Box::new(error) };
            named.spec_kind() == error.spec_kind() && named.spec_status_code()
                == error.spec_status_code()
        }),
{
}

/// Law: each status has a number and a name of its own, zero and one are the
/// successes, and every failure is negative.
pub proof fn law_statuses_are_told_apart(a: StatusCode, b: StatusCode)
    ensures
        a.spec_code() == b.spec_code() ==> a == b,
        a.spec_code() >= 0 <==> a == StatusCode::Success || a == StatusCode::True,
        a.spec_code() == match a {
            StatusCode::Success => 0int,
            StatusCode::True => 1int,
            StatusCode::InvalidParam => -2int,
            StatusCode::NotFound => -5int,
            StatusCode::Busy => -6int,
            StatusCode::NoMem => -11int,
            StatusCode::Unsupported => -12int,
            StatusCode::LibUsb => -1000int,
            StatusCode::Thread => -1001int,
            StatusCode::StreamingThreadErr => -1002int,
            StatusCode::StreamingStopped => -1003int,
            StatusCode::Other => -9999int,
        },
        a.spec_name() == match a {
            StatusCode::Success => "HYDRASDR_SUCCESS",
            StatusCode::True => "HYDRASDR_TRUE",
            StatusCode::InvalidParam => "HYDRASDR_ERROR_INVALID_PARAM",
            StatusCode::NotFound => "HYDRASDR_ERROR_NOT_FOUND",
            StatusCode::Busy => "HYDRASDR_ERROR_BUSY",
            StatusCode::NoMem => "HYDRASDR_ERROR_NO_MEM",
            StatusCode::Unsupported => "HYDRASDR_ERROR_UNSUPPORTED",
            StatusCode::LibUsb => "HYDRASDR_ERROR_LIBUSB",
            StatusCode::Thread => "HYDRASDR_ERROR_THREAD",
            StatusCode::StreamingThreadErr => "HYDRASDR_ERROR_STREAMING_THREAD_ERR",
            StatusCode::StreamingStopped => "HYDRASDR_ERROR_STREAMING_STOPPED",
            StatusCode::Other => "HYDRASDR_ERROR_OTHER",
        },
{
}

/// Law: a number that no status has stands for none, and says which it is.
pub proof fn law_unknown_numbers_are_refused(code: i32)
    ensures
        match status_with_code(code) {
            Ok(status) => status.spec_code() == code,
            Err(unknown) => unknown.0 == code && forall|status: StatusCode| #[trigger]
                status.spec_code() != code,
        },
{
}

/// Law: what category and status an error has. An error that names its operation
/// has those of what it names.
pub proof fn law_what_errors_stand_for(
    text: &'static str,
    detail: &'static str,
    status: StatusCode,
    fault: UsbFault,
)
    ensures
        ({
            let error = Error::InvalidConfig { field: text, reason: detail };
            error.spec_kind() == ErrorKind::InvalidConfig && error.spec_status_code()
                == StatusCode::InvalidParam
        }),
        ({
            let error = Error::StateUnavailable { field: text, reason: detail };
            error.spec_kind() == ErrorKind::StateUnavailable && error.spec_status_code()
                == StatusCode::Other
        }),
        Error::DeviceNotFound.spec_kind() == ErrorKind::NotFound,
        Error::DeviceNotFound.spec_status_code() == StatusCode::NotFound,
        Error::Busy.spec_kind() == ErrorKind::Busy,
        Error::Busy.spec_status_code() == StatusCode::Busy,
        Error::Unsupported.spec_kind() == ErrorKind::Unsupported,
        Error::Unsupported.spec_status_code() == StatusCode::Unsupported,
        Error::StreamClosed(text).spec_kind() == ErrorKind::StreamClosed,
        Error::StreamClosed(text).spec_status_code() == StatusCode::StreamingStopped,
        ({
            let error = Error::Protocol { operation: text, reason: detail, status };
            error.spec_kind() == Error::Status(status).spec_kind() && error.spec_status_code()
                == status
        }),
        Error::Status(status).spec_status_code() == status,
        Error::Status(StatusCode::LibUsb).spec_kind() == ErrorKind::Usb,
        Error::Status(StatusCode::Busy).spec_kind() == ErrorKind::Busy,
        Error::Status(StatusCode::NotFound).spec_kind() == ErrorKind::NotFound,
        Error::Status(StatusCode::Unsupported).spec_kind() == ErrorKind::Unsupported,
        Error::Status(StatusCode::InvalidParam).spec_kind() == ErrorKind::InvalidConfig,
        Error::Status(StatusCode::StreamingStopped).spec_kind() == ErrorKind::StreamClosed,
        Error::Status(StatusCode::NoMem).spec_kind() == ErrorKind::Other,
        Error::Status(StatusCode::Other).spec_kind() == ErrorKind::Other,
        Error::Status(StatusCode::Thread).spec_kind() == ErrorKind::Other,
        Error::Status(StatusCode::StreamingThreadErr).spec_kind() == ErrorKind::Other,
        Error::Status(StatusCode::Success).spec_kind() == ErrorKind::Other,
        Error::Status(StatusCode::True).spec_kind() == ErrorKind::Other,
        Error::Usb(fault).spec_status_code() == fault.status,
        Error::Usb(fault).spec_kind() == Error::Status(fault.status).spec_kind(),
        Error::Transfer(fault).spec_status_code() == fault.status,
        Error::Transfer(fault).spec_kind() == Error::Status(fault.status).spec_kind(),
{
}

/// Law: the text of an error holds what the error holds: a field and the rule that
/// it breaks, the words of the backend behind the name of the status, or an
/// operation and the text of what interrupted it.
pub proof fn law_what_errors_say(
    text: &'static str,
    detail: &'static str,
    status: StatusCode,
    fault: UsbFault,
    source: Error,
)
    ensures
        (Error::InvalidConfig { field: text, reason: detail }).spec_message()
            == "invalid configuration for "@ + text@ + ": "@ + detail@,
        (Error::StateUnavailable { field: text, reason: detail }).spec_message() == text@
            + " is unavailable: "@ + detail@,
        Error::StreamClosed(text).spec_message() == "stream closed: "@ + text@,
        (Error::Protocol { operation: text, reason: detail, status }).spec_message() == text@
            + ": "@ + detail@,
        Error::Usb(fault).spec_message() == fault.status.spec_name()@ + ": "@ + fault.message@,
        Error::Transfer(fault).spec_message() == fault.status.spec_name()@ + ": "@ + fault.message@,
        (Error::Operation { operation: text, source: Box::new(source) }).spec_message() == text@
            + ": "@ + source.spec_message(),
        Error::Status(status).spec_message() == status.spec_name()@,
        Error::DeviceNotFound.spec_message() == StatusCode::NotFound.spec_name()@,
        Error::Busy.spec_message() == StatusCode::Busy.spec_name()@,
        Error::Unsupported.spec_message() == StatusCode::Unsupported.spec_name()@,
{
}

/// Law: of the categories of USB errors, three have a status of their own, and all
/// others are plain USB failures; of the transfer errors, only a bad argument has.
pub proof fn law_what_usb_errors_stand_for(
    kind: BackendErrorKind,
    error: nusb::transfer::TransferError,
)
    ensures
        kind is Busy ==> usb_status(kind) == StatusCode::Busy,
        kind is NotFound ==> usb_status(kind) == StatusCode::NotFound,
        kind is Unsupported ==> usb_status(kind) == StatusCode::Unsupported,
        !(kind is Busy || kind is NotFound || kind is Unsupported) ==> usb_status(kind)
            == StatusCode::LibUsb,
        transfer_status(error) == if error is InvalidArgument {
            StatusCode::InvalidParam
        } else {
            StatusCode::LibUsb
        },
{
}

} // verus!
