use svt_av1_enc::status::ErrorType;
use svt_av1_enc::status::StatusClass;

/// Every status with the bit pattern the encoder core uses for it.
const CODES: [(ErrorType, u32); 18] = [
    (ErrorType::ErrorNone, 0),
    (ErrorType::DecUnsupportedBitstream, 0x4000_1000),
    (ErrorType::DecNoOutputPicture, 0x4000_1004),
    (ErrorType::DecDecodingError, 0x4000_1008),
    (ErrorType::CorruptFrame, 0x4000_100C),
    (ErrorType::ErrorInsufficientResources, 0x8000_1000),
    (ErrorType::ErrorUndefined, 0x8000_1001),
    (ErrorType::ErrorInvalidComponent, 0x8000_1004),
    (ErrorType::ErrorBadParameter, 0x8000_1005),
    (ErrorType::ErrorDestroyThreadFailed, 0x8000_2012),
    (ErrorType::ErrorSemaphoreUnresponsive, 0x8000_2021),
    (ErrorType::ErrorDestroySemaphoreFailed, 0x8000_2022),
    (ErrorType::ErrorCreateMutexFailed, 0x8000_2030),
    (ErrorType::ErrorMutexUnresponsive, 0x8000_2031),
    (ErrorType::ErrorDestroyMutexFailed, 0x8000_2032),
    (ErrorType::NoErrorEmptyQueue, 0x8000_2033),
    (ErrorType::NoErrorFifoShutdown, 0x8000_2034),
    (ErrorType::ErrorMax, 0x7FFF_FFFF),
];

#[test]
fn every_status_has_its_bit_pattern() {
    for (status, pattern) in CODES {
        assert_eq!(status.code() as u32, pattern);
        assert_eq!(status.code(), pattern as i32);
    }
    assert_eq!(ErrorType::ErrorBadParameter.code(), -2147479547);
    assert_eq!(ErrorType::NoErrorFifoShutdown.code(), -2147475404);
}

#[test]
fn a_code_read_back_names_the_same_status() {
    for (status, pattern) in CODES {
        assert_eq!(ErrorType::from_code(status.code()), Some(status));
        assert_eq!(ErrorType::from_code(pattern as i32), Some(status));
    }
}

#[test]
fn numbers_that_are_no_code_name_no_status() {
    for code in [1, -1, 0x4000_1001, 0x4000_1010, i32::MIN, i32::MAX - 1, -2147479550] {
        assert_eq!(ErrorType::from_code(code), None);
    }
}

#[test]
fn success_is_the_only_ok() {
    assert_eq!(ErrorType::ErrorNone.into_result(), Ok(()));
    for (status, _) in CODES {
        if status != ErrorType::ErrorNone {
            assert_eq!(status.into_result(), Err(status));
        }
    }
}

#[test]
fn every_status_has_its_family() {
    assert_eq!(ErrorType::ErrorNone.class(), StatusClass::Success);
    for status in [ErrorType::ErrorBadParameter, ErrorType::ErrorInvalidComponent] {
        assert_eq!(status.class(), StatusClass::Usage);
    }
    for status in [
        ErrorType::ErrorInsufficientResources,
        ErrorType::ErrorDestroyThreadFailed,
        ErrorType::ErrorSemaphoreUnresponsive,
        ErrorType::ErrorDestroySemaphoreFailed,
        ErrorType::ErrorCreateMutexFailed,
        ErrorType::ErrorMutexUnresponsive,
        ErrorType::ErrorDestroyMutexFailed,
    ] {
        assert_eq!(status.class(), StatusClass::Resource);
    }
    for status in [ErrorType::NoErrorEmptyQueue, ErrorType::NoErrorFifoShutdown] {
        assert_eq!(status.class(), StatusClass::Termination);
    }
    for status in [ErrorType::DecUnsupportedBitstream, ErrorType::DecNoOutputPicture, ErrorType::DecDecodingError, ErrorType::CorruptFrame] {
        assert_eq!(status.class(), StatusClass::DecoderOnly);
    }
    for status in [ErrorType::ErrorUndefined, ErrorType::ErrorMax] {
        assert_eq!(status.class(), StatusClass::Unclassified);
    }
}

#[test]
fn only_two_statuses_end_a_drain_without_fault() {
    for (status, _) in CODES {
        let expected =
            status == ErrorType::NoErrorEmptyQueue || status == ErrorType::NoErrorFifoShutdown;
        assert_eq!(status.is_termination_signal(), expected);
    }
}

#[test]
fn decoder_codes_pass_through_unchanged() {
    let status = ErrorType::from_code(0x4000_100C).unwrap();
    assert_eq!(status, ErrorType::CorruptFrame);
    assert_eq!(status.into_result(), Err(ErrorType::CorruptFrame));
    assert_eq!(status.code(), 0x4000_100C);
}
