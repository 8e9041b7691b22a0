use hyperlight_core::types::{
    ErrorCode, FunctionCall, FunctionCallType, GuestError, GuestLogData, LogLevel, ParameterType,
    ParameterValue, ReturnType, ReturnValue,
};
use hyperlight_core::wire::call::{read_frame, write_frame, WireError};

fn sample_call() -> FunctionCall {
    FunctionCall::new(
        "PrintTwoArgs".to_string(),
        Some(vec![
            ParameterValue::String("x".to_string()),
            ParameterValue::Int(42),
            ParameterValue::UInt(7),
            ParameterValue::Long(-9_000_000_000),
            ParameterValue::ULong(u64::MAX),
            ParameterValue::Bool(true),
            ParameterValue::VecBytes(vec![0, 255, 16]),
        ]),
        FunctionCallType::Guest,
        ReturnType::Int,
    )
}

#[test]
fn function_call_round_trips() {
    let call = sample_call();
    let frame = call.encode().unwrap();
    assert_eq!(FunctionCall::decode(&frame).unwrap(), call);
}

#[test]
fn function_call_round_trips_with_bytes_behind_the_frame() {
    let call = sample_call();
    let mut buffer = call.encode().unwrap();
    buffer.extend_from_slice(&[0xAA; 40]);
    assert_eq!(FunctionCall::decode(&buffer).unwrap(), call);
}

#[test]
fn function_call_without_parameter_list_differs_from_empty_list() {
    let absent = FunctionCall::new("f".to_string(), None, FunctionCallType::Host, ReturnType::Void);
    let empty =
        FunctionCall::new("f".to_string(), Some(vec![]), FunctionCallType::Host, ReturnType::Void);
    let a = absent.encode().unwrap();
    let e = empty.encode().unwrap();
    assert_ne!(a, e);
    assert_eq!(FunctionCall::decode(&a).unwrap(), absent);
    assert_eq!(FunctionCall::decode(&e).unwrap(), empty);
}

#[test]
fn function_call_frame_bytes() {
    let call = FunctionCall::new(
        "f".to_string(),
        Some(vec![ParameterValue::Bool(true)]),
        FunctionCallType::Host,
        ReturnType::Void,
    );
    assert_eq!(
        call.encode().unwrap(),
        vec![15, 0, 0, 0, 1, 1, 0, 0, 0, 102, 1, 0, 1, 1, 0, 0, 0, 6, 1]
    );
}

#[test]
fn return_value_frame_bytes() {
    assert_eq!(ReturnValue::Void.encode().unwrap(), vec![2, 0, 0, 0, 2, 0]);
    assert_eq!(ReturnValue::Int(5).encode().unwrap(), vec![6, 0, 0, 0, 2, 1, 5, 0, 0, 0]);
    assert_eq!(
        ReturnValue::Int(-2).encode().unwrap(),
        vec![6, 0, 0, 0, 2, 1, 0xFE, 0xFF, 0xFF, 0xFF]
    );
    assert_eq!(
        ReturnValue::UInt(0x0102_0304).encode().unwrap(),
        vec![6, 0, 0, 0, 2, 2, 4, 3, 2, 1]
    );
    assert_eq!(
        ReturnValue::Long(-1).encode().unwrap(),
        vec![10, 0, 0, 0, 2, 3, 255, 255, 255, 255, 255, 255, 255, 255]
    );
    assert_eq!(
        ReturnValue::ULong(1).encode().unwrap(),
        vec![10, 0, 0, 0, 2, 4, 1, 0, 0, 0, 0, 0, 0, 0]
    );
    assert_eq!(
        ReturnValue::String("hé".to_string()).encode().unwrap(),
        vec![9, 0, 0, 0, 2, 5, 3, 0, 0, 0, b'h', 0xC3, 0xA9]
    );
    assert_eq!(ReturnValue::Bool(false).encode().unwrap(), vec![3, 0, 0, 0, 2, 6, 0]);
    assert_eq!(
        ReturnValue::VecBytes(vec![1, 2, 3]).encode().unwrap(),
        vec![9, 0, 0, 0, 2, 7, 3, 0, 0, 0, 1, 2, 3]
    );
}

#[test]
fn return_value_round_trips() {
    let values = vec![
        ReturnValue::Void,
        ReturnValue::Int(i32::MIN),
        ReturnValue::UInt(u32::MAX),
        ReturnValue::Long(i64::MIN),
        ReturnValue::ULong(u64::MAX),
        ReturnValue::String("hello, wörld".to_string()),
        ReturnValue::String(String::new()),
        ReturnValue::Bool(true),
        ReturnValue::VecBytes(vec![]),
        ReturnValue::VecBytes(vec![9; 1000]),
    ];
    for v in values {
        let frame = v.encode().unwrap();
        assert_eq!(ReturnValue::decode(&frame).unwrap(), v);
    }
}

#[test]
fn guest_error_frame_bytes_and_round_trip() {
    let e = GuestError::new(ErrorCode::GuestFunctionNotFound, "ab".to_string());
    let frame = e.encode().unwrap();
    assert_eq!(frame, vec![8, 0, 0, 0, 3, 4, 2, 0, 0, 0, 97, 98]);
    assert_eq!(GuestError::decode(&frame).unwrap(), e);
}

#[test]
fn every_error_code_round_trips() {
    let codes = vec![
        ErrorCode::NoError,
        ErrorCode::UnsupportedParameterType,
        ErrorCode::GuestFunctionNameNotProvided,
        ErrorCode::GuestFunctionNotFound,
        ErrorCode::GuestFunctionIncorrectNumberOfParameters,
        ErrorCode::DispatchFunctionPointerNotSet,
        ErrorCode::OutbError,
        ErrorCode::UnknownError,
        ErrorCode::StackOverflow,
        ErrorCode::GsCheckFailed,
        ErrorCode::TooManyGuestFunctions,
        ErrorCode::FailureInDlmalloc,
        ErrorCode::MallocFailed,
        ErrorCode::GuestFunctionParameterTypeMismatch,
        ErrorCode::GuestError,
        ErrorCode::ArrayLengthParamIsMissing,
    ];
    for code in codes {
        assert_eq!(ErrorCode::from_tag(code.tag()), Some(code));
        let e = GuestError::new(code, "m".to_string());
        assert_eq!(GuestError::decode(&e.encode().unwrap()).unwrap(), e);
    }
    assert_eq!(ErrorCode::from_tag(1), None);
    assert_eq!(ErrorCode::from_tag(17), None);
}

#[test]
fn log_record_round_trips() {
    let l = GuestLogData::new(LogLevel::Warning, "guest".to_string(), "careful".to_string());
    let frame = l.encode().unwrap();
    assert_eq!(frame[4], 4);
    assert_eq!(GuestLogData::decode(&frame).unwrap(), l);
}

#[test]
fn type_tags_round_trip() {
    let params = vec![
        ParameterType::Int,
        ParameterType::UInt,
        ParameterType::Long,
        ParameterType::ULong,
        ParameterType::String,
        ParameterType::Bool,
        ParameterType::VecBytes,
    ];
    for t in params {
        assert_eq!(ParameterType::from_tag(t.tag()), Some(t));
    }
    let returns = vec![
        ReturnType::Void,
        ReturnType::Int,
        ReturnType::UInt,
        ReturnType::Long,
        ReturnType::ULong,
        ReturnType::String,
        ReturnType::Bool,
        ReturnType::VecBytes,
    ];
    for t in returns {
        assert_eq!(ReturnType::from_tag(t.tag()), Some(t));
    }
    assert_eq!(ParameterType::from_tag(0), None);
    assert_eq!(ParameterType::from_tag(8), None);
    assert_eq!(ReturnType::from_tag(8), None);
}

#[test]
fn frame_prefix_is_little_endian_payload_length() {
    let payload = vec![7u8; 300];
    let frame = write_frame(payload.clone()).unwrap();
    assert_eq!(&frame[..4], &[44, 1, 0, 0]);
    assert_eq!(frame.len(), 304);
    assert_eq!(read_frame(&frame).unwrap(), &payload[..]);
}

#[test]
fn reader_rejects_prefix_beyond_capacity() {
    let mut frame = ReturnValue::Int(1).encode().unwrap();
    let cut = frame.len() - 1;
    frame.truncate(cut);
    assert_eq!(ReturnValue::decode(&frame), Err(WireError::FrameTooLarge));
    assert_eq!(read_frame(&[255, 255, 255, 255, 0]), Err(WireError::FrameTooLarge));
}

#[test]
fn reader_rejects_buffer_without_room_for_a_prefix() {
    assert_eq!(read_frame(&[1, 0, 0]), Err(WireError::InvalidEncoding));
    assert_eq!(FunctionCall::decode(&[]), Err(WireError::InvalidEncoding));
}

#[test]
fn unknown_tags_fail_with_invalid_encoding() {
    // unknown kind of payload
    assert_eq!(ReturnValue::decode(&[2, 0, 0, 0, 9, 0]), Err(WireError::InvalidEncoding));
    // unknown tag of a value
    assert_eq!(ReturnValue::decode(&[2, 0, 0, 0, 2, 8]), Err(WireError::InvalidEncoding));
    // a boolean that is neither zero nor one
    assert_eq!(ReturnValue::decode(&[3, 0, 0, 0, 2, 6, 2]), Err(WireError::InvalidEncoding));
    // unknown error code
    assert_eq!(
        GuestError::decode(&[6, 0, 0, 0, 3, 1, 0, 0, 0, 0]),
        Err(WireError::InvalidEncoding)
    );
    // unknown side of a call
    assert_eq!(
        FunctionCall::decode(&[8, 0, 0, 0, 1, 0, 0, 0, 0, 2, 0, 0]),
        Err(WireError::InvalidEncoding)
    );
    // unknown marker of the parameter list
    assert_eq!(
        FunctionCall::decode(&[8, 0, 0, 0, 1, 0, 0, 0, 0, 1, 0, 2]),
        Err(WireError::InvalidEncoding)
    );
}

#[test]
fn payload_of_another_kind_is_rejected() {
    let frame = ReturnValue::Int(1).encode().unwrap();
    assert_eq!(FunctionCall::decode(&frame), Err(WireError::InvalidEncoding));
    assert_eq!(GuestError::decode(&frame), Err(WireError::InvalidEncoding));
    let frame = GuestError::new(ErrorCode::GuestError, String::new()).encode().unwrap();
    assert_eq!(ReturnValue::decode(&frame), Err(WireError::InvalidEncoding));
}

#[test]
fn truncated_and_overlong_payloads_are_rejected() {
    // an int with three of its four bytes
    assert_eq!(ReturnValue::decode(&[5, 0, 0, 0, 2, 1, 5, 0, 0]), Err(WireError::InvalidEncoding));
    // an int followed by one more byte inside the payload
    assert_eq!(
        ReturnValue::decode(&[7, 0, 0, 0, 2, 1, 5, 0, 0, 0, 0]),
        Err(WireError::InvalidEncoding)
    );
    // bytes whose length reaches past the payload
    assert_eq!(
        ReturnValue::decode(&[7, 0, 0, 0, 2, 7, 2, 0, 0, 0, 1]),
        Err(WireError::InvalidEncoding)
    );
    // a call that announces two parameters and brings one
    assert_eq!(
        FunctionCall::decode(&[14, 0, 0, 0, 1, 0, 0, 0, 0, 1, 0, 1, 2, 0, 0, 0, 6, 1]),
        Err(WireError::InvalidEncoding)
    );
}

#[test]
fn text_that_is_not_utf8_is_rejected() {
    assert_eq!(
        ReturnValue::decode(&[8, 0, 0, 0, 2, 5, 2, 0, 0, 0, 0xC3, 0x28]),
        Err(WireError::InvalidEncoding)
    );
    assert_eq!(
        ReturnValue::decode(&[8, 0, 0, 0, 2, 5, 2, 0, 0, 0, 0xC3, 0xA9]),
        Ok(ReturnValue::String("é".to_string()))
    );
}

#[test]
fn empty_frame_holds_no_value() {
    assert_eq!(read_frame(&[0, 0, 0, 0, 9, 9]).unwrap(), &[] as &[u8]);
    assert_eq!(ReturnValue::decode(&[0, 0, 0, 0]), Err(WireError::InvalidEncoding));
}
