use pebble_rust_2026::app_message_result::{app_message_result_from_raw, AppMessageError, InboxSize};
use pebble_rust_2026::dictionary::DictionaryWriteError;
use pebble_rust_2026::status_code::{parse_status_result, StatusError, StatusSuccess};

const ALL_ERRORS: [StatusError; 12] = [
    StatusError::Again,
    StatusError::Busy,
    StatusError::DoesNotExist,
    StatusError::Error,
    StatusError::Internal,
    StatusError::InvalidArgument,
    StatusError::InvalidOperation,
    StatusError::OutOfMemory,
    StatusError::OutOfResources,
    StatusError::OutOfStorage,
    StatusError::Range,
    StatusError::Unknown,
];

#[test]
fn status_error_codes() {
    assert_eq!(StatusError::Error.code(), -1);
    assert_eq!(StatusError::Unknown.code(), -2);
    assert_eq!(StatusError::Internal.code(), -3);
    assert_eq!(StatusError::InvalidArgument.code(), -4);
    assert_eq!(StatusError::Range.code(), -8);
    assert_eq!(StatusError::Again.code(), -12);
}

#[test]
fn status_error_try_from_roundtrip() {
    for e in ALL_ERRORS {
        if e == StatusError::Unknown {
            assert_eq!(StatusError::try_from(e.code()), Err(-2i8));
        } else {
            assert_eq!(StatusError::try_from(e.code()), Ok(e));
            assert_eq!(StatusError::try_from(e.code() as i32), Ok(e));
        }
    }
}

#[test]
fn status_error_try_from_rejects_other_codes() {
    assert_eq!(StatusError::try_from(0i8), Err(0i8));
    assert_eq!(StatusError::try_from(5i8), Err(5i8));
    assert_eq!(StatusError::try_from(-13i8), Err(-13i8));
    assert_eq!(StatusError::try_from(-300i32), Err(-300));
    assert_eq!(StatusError::try_from(1000i32), Err(1000));
    assert_eq!(StatusError::try_from(-2i32), Err(-2));
}

#[test]
fn parse_status_result_successes() {
    assert_eq!(parse_status_result(0), Ok(StatusSuccess::SuccessOrFalse));
    assert_eq!(parse_status_result(1), Ok(StatusSuccess::True));
    assert_eq!(parse_status_result(2), Ok(StatusSuccess::NoMoreItems));
    assert_eq!(parse_status_result(3), Ok(StatusSuccess::NoActionRequired));
}

#[test]
fn parse_status_result_errors() {
    for e in ALL_ERRORS {
        assert_eq!(parse_status_result(e.code() as i32), Err(e));
    }
    assert_eq!(parse_status_result(4), Err(StatusError::Unknown));
    assert_eq!(parse_status_result(-13), Err(StatusError::Unknown));
    assert_eq!(parse_status_result(200), Err(StatusError::Unknown));
    assert_eq!(parse_status_result(-129), Err(StatusError::Unknown));
    assert_eq!(parse_status_result(i32::MIN), Err(StatusError::Unknown));
}

#[test]
fn app_message_result_mapping() {
    assert_eq!(app_message_result_from_raw(0), Ok(()));
    assert_eq!(app_message_result_from_raw(2), Err(AppMessageError::SendTimeout));
    assert_eq!(app_message_result_from_raw(8), Err(AppMessageError::NotConnected));
    assert_eq!(app_message_result_from_raw(64), Err(AppMessageError::Busy));
    assert_eq!(app_message_result_from_raw(32768), Err(AppMessageError::InvalidState));
    assert_eq!(app_message_result_from_raw(256), Err(AppMessageError::Unknown));
    assert_eq!(app_message_result_from_raw(1), Err(AppMessageError::Unknown));
    assert_eq!(app_message_result_from_raw(3), Err(AppMessageError::Unknown));
}

#[test]
fn app_message_error_raw_roundtrip() {
    let all = [
        AppMessageError::SendTimeout,
        AppMessageError::SendRejected,
        AppMessageError::NotConnected,
        AppMessageError::AppNotRunning,
        AppMessageError::InvalidArgs,
        AppMessageError::Busy,
        AppMessageError::BufferOverflow,
        AppMessageError::AlreadyReleased,
        AppMessageError::CallbackAlreadyRegistered,
        AppMessageError::CallbackNotRegistered,
        AppMessageError::OutOfMemory,
        AppMessageError::Closed,
        AppMessageError::InternalError,
        AppMessageError::InvalidState,
        AppMessageError::Unknown,
    ];
    for e in all {
        assert_eq!(app_message_result_from_raw(e.raw()), Err(e));
    }
    assert_eq!(AppMessageError::Unknown.raw(), 1);
}

#[test]
fn app_message_error_from_dictionary_error() {
    assert_eq!(AppMessageError::from(DictionaryWriteError::NotEnoughStorage), AppMessageError::OutOfMemory);
    assert_eq!(AppMessageError::from(DictionaryWriteError::InvalidArgs), AppMessageError::InvalidArgs);
    assert_eq!(AppMessageError::from(DictionaryWriteError::Unknown), AppMessageError::Unknown);
}

#[test]
fn inbox_size_resolution() {
    assert_eq!(InboxSize::Exact { inbox: 10, outbox: 20 }.resolve(1000, 2000), (10, 20));
    assert_eq!(InboxSize::Max.resolve(1001, 2001), (1001, 2001));
    assert_eq!(InboxSize::Half.resolve(1001, 2001), (500, 1000));
    assert_eq!(InboxSize::Quarter.resolve(1001, 2001), (250, 500));
    assert!(!InboxSize::Exact { inbox: 1, outbox: 1 }.needs_maximum());
    assert!(InboxSize::Half.needs_maximum());
}
