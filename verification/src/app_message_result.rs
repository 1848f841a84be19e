//! Results of the app message (phone communication) C API.
use vstd::prelude::*;
use vstd::std_specs::convert::FromSpecImpl;

use crate::dictionary::DictionaryWriteError;

verus! {

/// All fine.
pub const APP_MSG_OK: u16 = 0;
/// The other end did not acknowledge in time.
pub const APP_MSG_SEND_TIMEOUT: u16 = 2;
/// The other end rejected the data.
pub const APP_MSG_SEND_REJECTED: u16 = 4;
/// Not connected.
pub const APP_MSG_NOT_CONNECTED: u16 = 8;
/// The phone app is not running.
pub const APP_MSG_APP_NOT_RUNNING: u16 = 16;
/// Invalid arguments.
pub const APP_MSG_INVALID_ARGS: u16 = 32;
/// Pending messages must be processed first.
pub const APP_MSG_BUSY: u16 = 64;
/// The buffer was too small.
pub const APP_MSG_BUFFER_OVERFLOW: u16 = 128;
/// Already released.
pub const APP_MSG_ALREADY_RELEASED: u16 = 512;
/// A callback was already registered.
pub const APP_MSG_CALLBACK_ALREADY_REGISTERED: u16 = 1024;
/// No callback was registered.
pub const APP_MSG_CALLBACK_NOT_REGISTERED: u16 = 2048;
/// Out of memory.
pub const APP_MSG_OUT_OF_MEMORY: u16 = 4096;
/// Closed.
pub const APP_MSG_CLOSED: u16 = 8192;
/// Internal OS error.
pub const APP_MSG_INTERNAL_ERROR: u16 = 16384;
/// Invalid state.
pub const APP_MSG_INVALID_STATE: u16 = 32768;

/// Errors that can occur when app messages are sent or received.
#[derive(Copy, Clone, Debug, PartialEq, Eq, Structural)]
pub enum AppMessageError {
    /// An error that the C API reported with a code that has no variant here.
    Unknown,
    /// Message sending was not acknowledged by the smartphone app within an OS-defined timeout.
    SendTimeout,
    /// The smartphone app rejected the data.
    SendRejected,
    /// The watch is not connected to a smartphone app.
    NotConnected,
    /// The smartphone app is not running.
    AppNotRunning,
    /// Invalid arguments were provided when calling the C API.
    InvalidArgs,
    /// There are pending (in or outbound) messages that need to be processed first.
    Busy,
    /// Our buffer was too small to contain an incoming message.
    BufferOverflow,
    /// Some resource has already been released.
    AlreadyReleased,
    /// A callback has already been registered.
    CallbackAlreadyRegistered,
    /// The callback could not be deregistered, because it had not been registered before.
    CallbackNotRegistered,
    /// An OOM was encountered while allocating app message data.
    OutOfMemory,
    /// An app message was closed.
    Closed,
    /// Internal OS error.
    InternalError,
    /// A function was called with the app message in an invalid state.
    InvalidState,
}

/// Result type for functions that deal with app messages.
pub type AppMessageResult<T> = Result<T, AppMessageError>;

impl AppMessageError {
    /// The C code of this error; `Unknown` has the code 1, which the C API never uses.
    pub open spec fn spec_raw(self) -> u16 {
        match self {
            AppMessageError::Unknown => 1,
            AppMessageError::SendTimeout => APP_MSG_SEND_TIMEOUT,
            AppMessageError::SendRejected => APP_MSG_SEND_REJECTED,
            AppMessageError::NotConnected => APP_MSG_NOT_CONNECTED,
            AppMessageError::AppNotRunning => APP_MSG_APP_NOT_RUNNING,
            AppMessageError::InvalidArgs => APP_MSG_INVALID_ARGS,
            AppMessageError::Busy => APP_MSG_BUSY,
            AppMessageError::BufferOverflow => APP_MSG_BUFFER_OVERFLOW,
            AppMessageError::AlreadyReleased => APP_MSG_ALREADY_RELEASED,
            AppMessageError::CallbackAlreadyRegistered => APP_MSG_CALLBACK_ALREADY_REGISTERED,
            AppMessageError::CallbackNotRegistered => APP_MSG_CALLBACK_NOT_REGISTERED,
            AppMessageError::OutOfMemory => APP_MSG_OUT_OF_MEMORY,
            AppMessageError::Closed => APP_MSG_CLOSED,
            AppMessageError::InternalError => APP_MSG_INTERNAL_ERROR,
            AppMessageError::InvalidState => APP_MSG_INVALID_STATE,
        }
    }

    /// The C code of this error.
    pub fn raw(&self) -> (r: u16)
        ensures
            r == self.spec_raw(),
    {
        match self {
            AppMessageError::Unknown => 1,
            AppMessageError::SendTimeout => APP_MSG_SEND_TIMEOUT,
            AppMessageError::SendRejected => APP_MSG_SEND_REJECTED,
            AppMessageError::NotConnected => APP_MSG_NOT_CONNECTED,
            AppMessageError::AppNotRunning => APP_MSG_APP_NOT_RUNNING,
            AppMessageError::InvalidArgs => APP_MSG_INVALID_ARGS,
            AppMessageError::Busy => APP_MSG_BUSY,
            AppMessageError::BufferOverflow => APP_MSG_BUFFER_OVERFLOW,
            AppMessageError::AlreadyReleased => APP_MSG_ALREADY_RELEASED,
            AppMessageError::CallbackAlreadyRegistered => APP_MSG_CALLBACK_ALREADY_REGISTERED,
            AppMessageError::CallbackNotRegistered => APP_MSG_CALLBACK_NOT_REGISTERED,
            AppMessageError::OutOfMemory => APP_MSG_OUT_OF_MEMORY,
            AppMessageError::Closed => APP_MSG_CLOSED,
            AppMessageError::InternalError => APP_MSG_INTERNAL_ERROR,
            AppMessageError::InvalidState => APP_MSG_INVALID_STATE,
        }
    }
}

/// What a C `AppMessageResult` means.
pub open spec fn spec_app_message_result(v: u16) -> AppMessageResult<()> {
    if v == APP_MSG_OK {
        Ok(())
    } else if v == APP_MSG_SEND_TIMEOUT {
        Err(AppMessageError::SendTimeout)
    } else if v == APP_MSG_SEND_REJECTED {
        Err(AppMessageError::SendRejected)
    } else if v == APP_MSG_NOT_CONNECTED {
        Err(AppMessageError::NotConnected)
    } else if v == APP_MSG_APP_NOT_RUNNING {
        Err(AppMessageError::AppNotRunning)
    } else if v == APP_MSG_INVALID_ARGS {
        Err(AppMessageError::InvalidArgs)
    } else if v == APP_MSG_BUSY {
        Err(AppMessageError::Busy)
    } else if v == APP_MSG_BUFFER_OVERFLOW {
        Err(AppMessageError::BufferOverflow)
    } else if v == APP_MSG_ALREADY_RELEASED {
        Err(AppMessageError::AlreadyReleased)
    } else if v == APP_MSG_CALLBACK_ALREADY_REGISTERED {
        Err(AppMessageError::CallbackAlreadyRegistered)
    } else if v == APP_MSG_CALLBACK_NOT_REGISTERED {
        Err(AppMessageError::CallbackNotRegistered)
    } else if v == APP_MSG_OUT_OF_MEMORY {
        Err(AppMessageError::OutOfMemory)
    } else if v == APP_MSG_CLOSED {
        Err(AppMessageError::Closed)
    } else if v == APP_MSG_INTERNAL_ERROR {
        Err(AppMessageError::InternalError)
    } else if v == APP_MSG_INVALID_STATE {
        Err(AppMessageError::InvalidState)
    } else {
        Err(AppMessageError::Unknown)
    }
}

/// Maps a C `AppMessageResult` to `Ok(())` or the matching error; codes
/// without a variant map to [`AppMessageError::Unknown`].
pub fn app_message_result_from_raw(v: u16) -> (r: AppMessageResult<()>)
    ensures
        r == spec_app_message_result(v),
{
    match v {
        APP_MSG_OK => Ok(()),
        APP_MSG_SEND_TIMEOUT => Err(AppMessageError::SendTimeout),
        APP_MSG_SEND_REJECTED => Err(AppMessageError::SendRejected),
        APP_MSG_NOT_CONNECTED => Err(AppMessageError::NotConnected),
        APP_MSG_APP_NOT_RUNNING => Err(AppMessageError::AppNotRunning),
        APP_MSG_INVALID_ARGS => Err(AppMessageError::InvalidArgs),
        APP_MSG_BUSY => Err(AppMessageError::Busy),
        APP_MSG_BUFFER_OVERFLOW => Err(AppMessageError::BufferOverflow),
        APP_MSG_ALREADY_RELEASED => Err(AppMessageError::AlreadyReleased),
        APP_MSG_CALLBACK_ALREADY_REGISTERED => Err(AppMessageError::CallbackAlreadyRegistered),
        APP_MSG_CALLBACK_NOT_REGISTERED => Err(AppMessageError::CallbackNotRegistered),
        APP_MSG_OUT_OF_MEMORY => Err(AppMessageError::OutOfMemory),
        APP_MSG_CLOSED => Err(AppMessageError::Closed),
        APP_MSG_INTERNAL_ERROR => Err(AppMessageError::InternalError),
        APP_MSG_INVALID_STATE => Err(AppMessageError::InvalidState),
        _ => Err(AppMessageError::Unknown),
    }
}

/// Every error other than `Unknown` comes back from its own code, and the
/// code of `Unknown` maps to `Unknown`.
pub proof fn lemma_app_message_roundtrip(e: AppMessageError)
    ensures
        spec_app_message_result(e.spec_raw()) == Err::<(), AppMessageError>(e),
        e.spec_raw() != APP_MSG_OK,
{
}

/// Each error stands for the C `AppMessageResult` of its own name, in both
/// directions: `SendTimeout` is 2, `SendRejected` 4, `NotConnected` 8,
/// `AppNotRunning` 16, `InvalidArgs` 32, `Busy` 64, `BufferOverflow` 128,
/// `AlreadyReleased` 512, `CallbackAlreadyRegistered` 1024,
/// `CallbackNotRegistered` 2048, `OutOfMemory` 4096, `Closed` 8192,
/// `InternalError` 16384, `InvalidState` 32768; `Unknown` stands for every
/// other nonzero value (its own raw value is 1), and 0 is success.
pub proof fn lemma_app_message_error_names_its_code(e: AppMessageError, v: u16)
    ensures
        e == AppMessageError::SendTimeout <==> e.spec_raw() == 2,
        e == AppMessageError::SendRejected <==> e.spec_raw() == 4,
        e == AppMessageError::NotConnected <==> e.spec_raw() == 8,
        e == AppMessageError::AppNotRunning <==> e.spec_raw() == 16,
        e == AppMessageError::InvalidArgs <==> e.spec_raw() == 32,
        e == AppMessageError::Busy <==> e.spec_raw() == 64,
        e == AppMessageError::BufferOverflow <==> e.spec_raw() == 128,
        e == AppMessageError::AlreadyReleased <==> e.spec_raw() == 512,
        e == AppMessageError::CallbackAlreadyRegistered <==> e.spec_raw() == 1024,
        e == AppMessageError::CallbackNotRegistered <==> e.spec_raw() == 2048,
        e == AppMessageError::OutOfMemory <==> e.spec_raw() == 4096,
        e == AppMessageError::Closed <==> e.spec_raw() == 8192,
        e == AppMessageError::InternalError <==> e.spec_raw() == 16384,
        e == AppMessageError::InvalidState <==> e.spec_raw() == 32768,
        e == AppMessageError::Unknown <==> e.spec_raw() == 1,
        spec_app_message_result(v) is Ok <==> v == 0,
        spec_app_message_result(v) == Err::<(), AppMessageError>(e) && e != AppMessageError::Unknown
            ==> v == e.spec_raw(),
        v != 0 && v != 2 && v != 4 && v != 8 && v != 16 && v != 32 && v != 64 && v != 128 && v
            != 512 && v != 1024 && v != 2048 && v != 4096 && v != 8192 && v != 16384 && v != 32768
            ==> spec_app_message_result(v) == Err::<(), AppMessageError>(AppMessageError::Unknown),
{
}

impl From<DictionaryWriteError> for AppMessageError {
    fn from(value: DictionaryWriteError) -> (r: Self) {
        match value {
            DictionaryWriteError::NotEnoughStorage => AppMessageError::OutOfMemory,
            DictionaryWriteError::InvalidArgs => AppMessageError::InvalidArgs,
            DictionaryWriteError::Unknown => AppMessageError::Unknown,
        }
    }
}

impl FromSpecImpl<DictionaryWriteError> for AppMessageError {
    open spec fn obeys_from_spec() -> bool {
        true
    }

    open spec fn from_spec(v: DictionaryWriteError) -> Self {
        match v {
            DictionaryWriteError::NotEnoughStorage => AppMessageError::OutOfMemory,
            DictionaryWriteError::InvalidArgs => AppMessageError::InvalidArgs,
            DictionaryWriteError::Unknown => AppMessageError::Unknown,
        }
    }
}

/// The requested data size of the app message inbox and outbox.
#[derive(Copy, Clone, PartialEq, Eq, Structural, Debug)]
pub enum InboxSize {
    /// Request exactly these data sizes from the C API.
    Exact {
        /// Size of the inbox buffer in bytes.
        inbox: u32,
        /// Size of the outbox buffer in bytes.
        outbox: u32,
    },
    /// Request the maximum possible size.
    Max,
    /// Request half of the maximum possible size.
    Half,
    /// Request a quarter of the maximum possible size.
    Quarter,
}

impl InboxSize {
    /// The (inbox, outbox) sizes to request, given the system maxima.
    pub open spec fn spec_resolve(self, inbox_max: u32, outbox_max: u32) -> (u32, u32) {
        match self {
            InboxSize::Exact { inbox, outbox } => (inbox, outbox),
            InboxSize::Max => (inbox_max, outbox_max),
            InboxSize::Half => ((inbox_max / 2) as u32, (outbox_max / 2) as u32),
            InboxSize::Quarter => ((inbox_max / 4) as u32, (outbox_max / 4) as u32),
        }
    }

    /// Whether the system maxima are needed to resolve the sizes.
    pub open spec fn spec_needs_maximum(self) -> bool {
        !(self is Exact)
    }

    /// Whether the system maxima are needed to resolve the sizes.
    pub fn needs_maximum(&self) -> (r: bool)
        ensures
            r == self.spec_needs_maximum(),
    {
        match self {
            InboxSize::Exact { .. } => false,
            _ => true,
        }
    }

    /// The (inbox, outbox) sizes to request: exact sizes as given, otherwise
    /// the maxima shifted right by 0, 1 or 2.
    pub fn resolve(&self, inbox_max: u32, outbox_max: u32) -> (r: (u32, u32))
        ensures
            r == self.spec_resolve(inbox_max, outbox_max),
    {
        proof {
            assert(inbox_max >> 1u32 == inbox_max / 2) by (bit_vector);
            assert(outbox_max >> 1u32 == outbox_max / 2) by (bit_vector);
            assert(inbox_max >> 2u32 == inbox_max / 4) by (bit_vector);
            assert(outbox_max >> 2u32 == outbox_max / 4) by (bit_vector);
        }
        match self {
            InboxSize::Exact { inbox, outbox } => (*inbox, *outbox),
            InboxSize::Max => (inbox_max, outbox_max),
            InboxSize::Half => (inbox_max >> 1u32, outbox_max >> 1u32),
            InboxSize::Quarter => (inbox_max >> 2u32, outbox_max >> 2u32),
        }
    }
}

} // verus!
