//! Function calls, reported errors, log records and frames.
//!
//! The parts of a payload are named as the integers are: `enc_`, `dec_`,
//! `lemma_dec_enc_`, `put_` and `get_`, each followed by the kind of value. On top of
//! them each kind of payload has its frame: `x_frame` is the frame that holds a value,
//! `x_of_frame` is what a buffer holds that starts with a frame, and a round-trip lemma
//! shows that the second undoes the first. The methods `encode` and `decode` of each
//! type write and read frames.

use crate::types::{
    CallData, ErrorCode, FunctionCall, FunctionCallType, GuestError, GuestErrorData,
    GuestLogData, LogData, LogLevel, ParameterData, ParameterType, ParameterValue, ReturnData,
    ReturnType, ReturnValue,
};
use crate::wire::prim::{
    dec_string, dec_u32, dec_u8, enc_bytes, enc_string, enc_u32, enc_u8, get_string,
    get_u32, get_u8, holds_at, lemma_dec_enc_bytes, lemma_dec_enc_string, lemma_dec_enc_u32,
    lemma_dec_enc_u8, lemma_enc_bytes_len, lemma_enc_u32_len, lemma_holds_at_concat, put_string,
    put_u32, put_u8, string_fits,
};
use crate::wire::value::{
    dec_params, dec_return, enc_params, enc_return, get_params, get_return, lemma_dec_enc_params,
    lemma_dec_enc_return, lemma_type_tags, params_fit, put_params, put_return, return_fits,
    return_type_of_tag, return_type_tag,
};
use vstd::prelude::*;
use vstd::slice::*;

verus! {

/// Why a frame could not be written or read.
#[derive(Clone, Copy, Debug, PartialEq, Eq, Structural)]
pub enum WireError {
    /// The bytes are not a frame of the kind asked for: a tag is unknown, the payload
    /// ends early or goes on after its end, or text is not UTF-8.
    InvalidEncoding,
    /// The payload is longer than the buffer, or than a frame can say.
    FrameTooLarge,
}

/// First payload byte of a function call.
pub const KIND_CALL: u8 = 1;

/// First payload byte of a return value.
pub const KIND_RETURN: u8 = 2;

/// First payload byte of a reported error.
pub const KIND_ERROR: u8 = 3;

/// First payload byte of a log record.
pub const KIND_LOG: u8 = 4;

// ---------------------------------------------------------------------------
// Frames

/// A frame: the payload's length in four bytes, then the payload.
pub open spec fn frame(payload: Seq<u8>) -> Seq<u8> {
    enc_bytes(payload)
}

/// The payload of the frame that starts `buf`. What follows the frame in `buf` is ignored.
pub open spec fn frame_payload(buf: Seq<u8>) -> Result<Seq<u8>, WireError> {
    match dec_u32(buf, 0) {
        Some((n, p)) => if p + n <= buf.len() {
            Ok(buf.subrange(p, p + n))
        } else {
            Err(WireError::FrameTooLarge)
        },
        None => Err(WireError::InvalidEncoding),
    }
}

/// A frame is read back from any buffer that it starts.
pub proof fn lemma_frame_payload(payload: Seq<u8>, tail: Seq<u8>)
    requires
        payload.len() <= u32::MAX,
    ensures
        frame_payload(frame(payload) + tail) == Ok::<Seq<u8>, WireError>(payload),
{
    let buf = frame(payload) + tail;
    lemma_enc_bytes_len(payload);
    assert(buf.subrange(0, frame(payload).len() as int) =~= frame(payload));
    lemma_dec_enc_bytes(buf, 0, payload);
}

/// Puts the length in front of `payload`.
pub fn write_frame(payload: Vec<u8>) -> (r: Result<Vec<u8>, WireError>)
    ensures
        r matches Ok(f) ==> payload@.len() <= u32::MAX && f@ == frame(payload@),
        r matches Err(e) ==> payload@.len() > u32::MAX && e == WireError::FrameTooLarge,
{
    if payload.len() > u32::MAX as usize {
        return Err(WireError::FrameTooLarge);
    }
    let ghost content = payload@;
    let mut f: Vec<u8> = Vec::new();
    put_u32(&mut f, payload.len() as u32);
    let mut rest = payload;
    f.append(&mut rest);
    assert(f@ =~= frame(content));
    Ok(f)
}

/// The payload of the frame that starts `buf`.
pub fn read_frame(buf: &[u8]) -> (r: Result<&[u8], WireError>)
    ensures
        r matches Ok(p) ==> frame_payload(buf@) == Ok::<Seq<u8>, WireError>(p@),
        r matches Err(e) ==> frame_payload(buf@) == Err::<Seq<u8>, WireError>(e),
{
    match get_u32(buf, 0) {
        Some((n, p)) => {
            if n as usize <= buf.len() - p {
                Ok(slice_subrange(buf, p, p + n as usize))
            } else {
                Err(WireError::FrameTooLarge)
            }
        },
        None => Err(WireError::InvalidEncoding),
    }
}

// ---------------------------------------------------------------------------
// Function calls

pub open spec fn call_type_tag(t: FunctionCallType) -> u8 {
    match t {
        FunctionCallType::Guest => 0,
        FunctionCallType::Host => 1,
    }
}

pub open spec fn call_type_of_tag(tag: u8) -> Option<FunctionCallType> {
    if tag == 0 {
        Some(FunctionCallType::Guest)
    } else if tag == 1 {
        Some(FunctionCallType::Host)
    } else {
        None
    }
}

impl FunctionCallType {
    /// The tag under which this value is written.
    pub fn tag(self) -> (tag: u8)
        ensures
            tag == call_type_tag(self),
    {
        match self {
            FunctionCallType::Guest => 0,
            FunctionCallType::Host => 1,
        }
    }

    /// The value that is written under `tag`.
    pub fn from_tag(tag: u8) -> (t: Option<FunctionCallType>)
        ensures
            t == call_type_of_tag(tag),
    {
        if tag == 0 {
            Some(FunctionCallType::Guest)
        } else if tag == 1 {
            Some(FunctionCallType::Host)
        } else {
            None
        }
    }
}

/// An argument list can be written when its length fits in 32 bits and each value fits.
pub open spec fn opt_params_fit(ps: Option<Seq<ParameterData>>) -> bool {
    match ps {
        Some(l) => l.len() <= u32::MAX && params_fit(l),
        None => true,
    }
}

/// An absent list is one zero byte; a present one is a one byte, the number of values,
/// and the values.
pub open spec fn enc_opt_params(ps: Option<Seq<ParameterData>>) -> Seq<u8> {
    match ps {
        Some(l) => enc_u8(1) + enc_u32(l.len() as u32) + enc_params(l),
        None => enc_u8(0),
    }
}

pub open spec fn dec_opt_params(bytes: Seq<u8>, pos: int) -> Option<
    (Option<Seq<ParameterData>>, int),
> {
    match dec_u8(bytes, pos) {
        Some((flag, p)) => if flag == 0 {
            Some((None, p))
        } else if flag == 1 {
            match dec_u32(bytes, p) {
                Some((n, q)) => match dec_params(bytes, q, n as nat) {
                    Some((l, e)) => Some((Some(l), e)),
                    None => None,
                },
                None => None,
            }
        } else {
            None
        },
        None => None,
    }
}

pub proof fn lemma_dec_enc_opt_params(bytes: Seq<u8>, pos: int, ps: Option<Seq<ParameterData>>)
    requires
        opt_params_fit(ps),
        holds_at(bytes, pos, enc_opt_params(ps)),
    ensures
        dec_opt_params(bytes, pos) == Some((ps, pos + enc_opt_params(ps).len())),
{
    match ps {
        Some(l) => {
            let n = l.len() as u32;
            lemma_enc_u32_len(n);
            lemma_holds_at_concat(bytes, pos, enc_u8(1) + enc_u32(n), enc_params(l));
            lemma_holds_at_concat(bytes, pos, enc_u8(1), enc_u32(n));
            lemma_dec_enc_u8(bytes, pos, 1);
            lemma_dec_enc_u32(bytes, pos + 1, n);
            lemma_dec_enc_params(bytes, pos + 5, l);
        },
        None => {
            lemma_dec_enc_u8(bytes, pos, 0);
        },
    }
}

pub fn put_opt_params(out: &mut Vec<u8>, ps: &Option<Vec<ParameterValue>>) -> (ok: bool)
    ensures
        ok <==> opt_params_fit(ps.deep_view()),
        ok ==> final(out)@ == old(out)@ + enc_opt_params(ps.deep_view()),
{
    match ps {
        Some(l) => {
            if l.len() > u32::MAX as usize {
                return false;
            }
            put_u8(out, 1);
            put_u32(out, l.len() as u32);
            let ok = put_params(out, l);
            proof {
                if ok {
                    assert(out@ =~= old(out)@ + enc_opt_params(ps.deep_view()));
                }
            }
            ok
        },
        None => {
            put_u8(out, 0);
            true
        },
    }
}

pub fn get_opt_params(bytes: &[u8], pos: usize) -> (r: Option<
    (Option<Vec<ParameterValue>>, usize),
>)
    ensures
        r matches Some((v, p)) ==> dec_opt_params(bytes@, pos as int) == Some(
            (v.deep_view(), p as int),
        ),
        r is None ==> dec_opt_params(bytes@, pos as int) is None,
{
    match get_u8(bytes, pos) {
        Some((flag, p)) => if flag == 0 {
            Some((None, p))
        } else if flag == 1 {
            match get_u32(bytes, p) {
                Some((n, q)) => match get_params(bytes, q, n) {
                    Some((l, e)) => Some((Some(l), e)),
                    None => None,
                },
                None => None,
            }
        } else {
            None
        },
        None => None,
    }
}

/// A call can be written when its name and its arguments fit.
pub open spec fn call_fits(c: CallData) -> bool {
    string_fits(c.function_name) && opt_params_fit(c.parameters)
}

/// A call: its name, the side asked, the type expected back, the arguments.
pub open spec fn enc_call(c: CallData) -> Seq<u8> {
    enc_string(c.function_name) + enc_u8(call_type_tag(c.function_call_type)) + enc_u8(
        return_type_tag(c.expected_return_type),
    ) + enc_opt_params(c.parameters)
}

pub open spec fn dec_call(bytes: Seq<u8>, pos: int) -> Option<(CallData, int)> {
    match dec_string(bytes, pos) {
        Some((function_name, p1)) => match dec_u8(bytes, p1) {
            Some((kind, p2)) => match call_type_of_tag(kind) {
                Some(function_call_type) => match dec_u8(bytes, p2) {
                    Some((ret, p3)) => match return_type_of_tag(ret) {
                        Some(expected_return_type) => match dec_opt_params(bytes, p3) {
                            Some((parameters, p4)) => Some(
                                (
                                    CallData {
                                        function_name,
                                        parameters,
                                        function_call_type,
                                        expected_return_type,
                                    },
                                    p4,
                                ),
                            ),
                            None => None,
                        },
                        None => None,
                    },
                    None => None,
                },
                None => None,
            },
            None => None,
        },
        None => None,
    }
}

pub proof fn lemma_dec_enc_call(bytes: Seq<u8>, pos: int, c: CallData)
    requires
        call_fits(c),
        holds_at(bytes, pos, enc_call(c)),
    ensures
        dec_call(bytes, pos) == Some((c, pos + enc_call(c).len())),
{
    let a = enc_string(c.function_name);
    let k = call_type_tag(c.function_call_type);
    let t = return_type_tag(c.expected_return_type);
    let d = enc_opt_params(c.parameters);
    lemma_holds_at_concat(bytes, pos, a + enc_u8(k) + enc_u8(t), d);
    lemma_holds_at_concat(bytes, pos, a + enc_u8(k), enc_u8(t));
    lemma_holds_at_concat(bytes, pos, a, enc_u8(k));
    lemma_dec_enc_string(bytes, pos, c.function_name);
    lemma_dec_enc_u8(bytes, pos + a.len(), k);
    lemma_dec_enc_u8(bytes, pos + a.len() + 1, t);
    lemma_type_tags(ParameterType::Int, c.expected_return_type);
    lemma_dec_enc_opt_params(bytes, pos + a.len() + 2, c.parameters);
}

pub fn put_call(out: &mut Vec<u8>, c: &FunctionCall) -> (ok: bool)
    ensures
        ok <==> call_fits(c@),
        ok ==> final(out)@ == old(out)@ + enc_call(c@),
{
    if !put_string(out, c.function_name.as_str()) {
        return false;
    }
    put_u8(out, c.function_call_type.tag());
    put_u8(out, c.expected_return_type.tag());
    let ok = put_opt_params(out, &c.parameters);
    proof {
        if ok {
            assert(out@ =~= old(out)@ + enc_call(c@));
        }
    }
    ok
}

pub fn get_call(bytes: &[u8], pos: usize) -> (r: Option<(FunctionCall, usize)>)
    ensures
        r matches Some((v, p)) ==> dec_call(bytes@, pos as int) == Some((v@, p as int)),
        r is None ==> dec_call(bytes@, pos as int) is None,
{
    let (function_name, p1) = match get_string(bytes, pos) {
        Some(x) => x,
        None => return None,
    };
    let (kind, p2) = match get_u8(bytes, p1) {
        Some(x) => x,
        None => return None,
    };
    let function_call_type = match FunctionCallType::from_tag(kind) {
        Some(x) => x,
        None => return None,
    };
    let (ret, p3) = match get_u8(bytes, p2) {
        Some(x) => x,
        None => return None,
    };
    let expected_return_type = match ReturnType::from_tag(ret) {
        Some(x) => x,
        None => return None,
    };
    let (parameters, p4) = match get_opt_params(bytes, p3) {
        Some(x) => x,
        None => return None,
    };
    Some((FunctionCall { function_name, parameters, function_call_type, expected_return_type }, p4))
}

// ---------------------------------------------------------------------------
// Reported errors

pub open spec fn error_code_tag(c: ErrorCode) -> u8 {
    match c {
        ErrorCode::NoError => 0,
        ErrorCode::UnsupportedParameterType => 2,
        ErrorCode::GuestFunctionNameNotProvided => 3,
        ErrorCode::GuestFunctionNotFound => 4,
        ErrorCode::GuestFunctionIncorrectNumberOfParameters => 5,
        ErrorCode::DispatchFunctionPointerNotSet => 6,
        ErrorCode::OutbError => 7,
        ErrorCode::UnknownError => 8,
        ErrorCode::StackOverflow => 9,
        ErrorCode::GsCheckFailed => 10,
        ErrorCode::TooManyGuestFunctions => 11,
        ErrorCode::FailureInDlmalloc => 12,
        ErrorCode::MallocFailed => 13,
        ErrorCode::GuestFunctionParameterTypeMismatch => 14,
        ErrorCode::GuestError => 15,
        ErrorCode::ArrayLengthParamIsMissing => 16,
    }
}

pub open spec fn error_code_of_tag(tag: u8) -> Option<ErrorCode> {
    if tag == 0 {
        Some(ErrorCode::NoError)
    } else if tag == 2 {
        Some(ErrorCode::UnsupportedParameterType)
    } else if tag == 3 {
        Some(ErrorCode::GuestFunctionNameNotProvided)
    } else if tag == 4 {
        Some(ErrorCode::GuestFunctionNotFound)
    } else if tag == 5 {
        Some(ErrorCode::GuestFunctionIncorrectNumberOfParameters)
    } else if tag == 6 {
        Some(ErrorCode::DispatchFunctionPointerNotSet)
    } else if tag == 7 {
        Some(ErrorCode::OutbError)
    } else if tag == 8 {
        Some(ErrorCode::UnknownError)
    } else if tag == 9 {
        Some(ErrorCode::StackOverflow)
    } else if tag == 10 {
        Some(ErrorCode::GsCheckFailed)
    } else if tag == 11 {
        Some(ErrorCode::TooManyGuestFunctions)
    } else if tag == 12 {
        Some(ErrorCode::FailureInDlmalloc)
    } else if tag == 13 {
        Some(ErrorCode::MallocFailed)
    } else if tag == 14 {
        Some(ErrorCode::GuestFunctionParameterTypeMismatch)
    } else if tag == 15 {
        Some(ErrorCode::GuestError)
    } else if tag == 16 {
        Some(ErrorCode::ArrayLengthParamIsMissing)
    } else {
        None
    }
}

/// Every code is found again from its tag.
pub proof fn lemma_error_code_tags(c: ErrorCode)
    ensures
        error_code_of_tag(error_code_tag(c)) == Some(c),
{
}

impl ErrorCode {
    /// The tag under which this value is written.
    pub fn tag(self) -> (tag: u8)
        ensures
            tag == error_code_tag(self),
    {
        match self {
            ErrorCode::NoError => 0,
            ErrorCode::UnsupportedParameterType => 2,
            ErrorCode::GuestFunctionNameNotProvided => 3,
            ErrorCode::GuestFunctionNotFound => 4,
            ErrorCode::GuestFunctionIncorrectNumberOfParameters => 5,
            ErrorCode::DispatchFunctionPointerNotSet => 6,
            ErrorCode::OutbError => 7,
            ErrorCode::UnknownError => 8,
            ErrorCode::StackOverflow => 9,
            ErrorCode::GsCheckFailed => 10,
            ErrorCode::TooManyGuestFunctions => 11,
            ErrorCode::FailureInDlmalloc => 12,
            ErrorCode::MallocFailed => 13,
            ErrorCode::GuestFunctionParameterTypeMismatch => 14,
            ErrorCode::GuestError => 15,
            ErrorCode::ArrayLengthParamIsMissing => 16,
        }
    }

    /// The value that is written under `tag`.
    pub fn from_tag(tag: u8) -> (c: Option<ErrorCode>)
        ensures
            c == error_code_of_tag(tag),
    {
        if tag == 0 {
            Some(ErrorCode::NoError)
        } else if tag == 2 {
            Some(ErrorCode::UnsupportedParameterType)
        } else if tag == 3 {
            Some(ErrorCode::GuestFunctionNameNotProvided)
        } else if tag == 4 {
            Some(ErrorCode::GuestFunctionNotFound)
        } else if tag == 5 {
            Some(ErrorCode::GuestFunctionIncorrectNumberOfParameters)
        } else if tag == 6 {
            Some(ErrorCode::DispatchFunctionPointerNotSet)
        } else if tag == 7 {
            Some(ErrorCode::OutbError)
        } else if tag == 8 {
            Some(ErrorCode::UnknownError)
        } else if tag == 9 {
            Some(ErrorCode::StackOverflow)
        } else if tag == 10 {
            Some(ErrorCode::GsCheckFailed)
        } else if tag == 11 {
            Some(ErrorCode::TooManyGuestFunctions)
        } else if tag == 12 {
            Some(ErrorCode::FailureInDlmalloc)
        } else if tag == 13 {
            Some(ErrorCode::MallocFailed)
        } else if tag == 14 {
            Some(ErrorCode::GuestFunctionParameterTypeMismatch)
        } else if tag == 15 {
            Some(ErrorCode::GuestError)
        } else if tag == 16 {
            Some(ErrorCode::ArrayLengthParamIsMissing)
        } else {
            None
        }
    }
}

pub open spec fn error_fits(e: GuestErrorData) -> bool {
    string_fits(e.message)
}

/// A reported error: its code, then its message.
pub open spec fn enc_error(e: GuestErrorData) -> Seq<u8> {
    enc_u8(error_code_tag(e.code)) + enc_string(e.message)
}

pub open spec fn dec_error(bytes: Seq<u8>, pos: int) -> Option<(GuestErrorData, int)> {
    match dec_u8(bytes, pos) {
        Some((tag, p)) => match error_code_of_tag(tag) {
            Some(code) => match dec_string(bytes, p) {
                Some((message, q)) => Some((GuestErrorData { code, message }, q)),
                None => None,
            },
            None => None,
        },
        None => None,
    }
}

pub proof fn lemma_dec_enc_error(bytes: Seq<u8>, pos: int, e: GuestErrorData)
    requires
        error_fits(e),
        holds_at(bytes, pos, enc_error(e)),
    ensures
        dec_error(bytes, pos) == Some((e, pos + enc_error(e).len())),
{
    let tag = error_code_tag(e.code);
    lemma_holds_at_concat(bytes, pos, enc_u8(tag), enc_string(e.message));
    lemma_dec_enc_u8(bytes, pos, tag);
    lemma_error_code_tags(e.code);
    lemma_dec_enc_string(bytes, pos + 1, e.message);
}

pub fn put_error(out: &mut Vec<u8>, e: &GuestError) -> (ok: bool)
    ensures
        ok <==> error_fits(e@),
        ok ==> final(out)@ == old(out)@ + enc_error(e@),
{
    put_u8(out, e.code.tag());
    let ok = put_string(out, e.message.as_str());
    proof {
        if ok {
            assert(out@ =~= old(out)@ + enc_error(e@));
        }
    }
    ok
}

pub fn get_error(bytes: &[u8], pos: usize) -> (r: Option<(GuestError, usize)>)
    ensures
        r matches Some((v, p)) ==> dec_error(bytes@, pos as int) == Some((v@, p as int)),
        r is None ==> dec_error(bytes@, pos as int) is None,
{
    let (tag, p) = match get_u8(bytes, pos) {
        Some(x) => x,
        None => return None,
    };
    let code = match ErrorCode::from_tag(tag) {
        Some(x) => x,
        None => return None,
    };
    match get_string(bytes, p) {
        Some((message, q)) => Some((GuestError { code, message }, q)),
        None => None,
    }
}

// ---------------------------------------------------------------------------
// Log records

pub open spec fn log_level_tag(l: LogLevel) -> u8 {
    match l {
        LogLevel::Trace => 0,
        LogLevel::Debug => 1,
        LogLevel::Information => 2,
        LogLevel::Warning => 3,
        LogLevel::Error => 4,
        LogLevel::Critical => 5,
        LogLevel::Off => 6,
    }
}

pub open spec fn log_level_of_tag(tag: u8) -> Option<LogLevel> {
    if tag == 0 {
        Some(LogLevel::Trace)
    } else if tag == 1 {
        Some(LogLevel::Debug)
    } else if tag == 2 {
        Some(LogLevel::Information)
    } else if tag == 3 {
        Some(LogLevel::Warning)
    } else if tag == 4 {
        Some(LogLevel::Error)
    } else if tag == 5 {
        Some(LogLevel::Critical)
    } else if tag == 6 {
        Some(LogLevel::Off)
    } else {
        None
    }
}

impl LogLevel {
    /// The tag under which this value is written.
    pub fn tag(self) -> (tag: u8)
        ensures
            tag == log_level_tag(self),
    {
        match self {
            LogLevel::Trace => 0,
            LogLevel::Debug => 1,
            LogLevel::Information => 2,
            LogLevel::Warning => 3,
            LogLevel::Error => 4,
            LogLevel::Critical => 5,
            LogLevel::Off => 6,
        }
    }

    /// The value that is written under `tag`.
    pub fn from_tag(tag: u8) -> (l: Option<LogLevel>)
        ensures
            l == log_level_of_tag(tag),
    {
        if tag == 0 {
            Some(LogLevel::Trace)
        } else if tag == 1 {
            Some(LogLevel::Debug)
        } else if tag == 2 {
            Some(LogLevel::Information)
        } else if tag == 3 {
            Some(LogLevel::Warning)
        } else if tag == 4 {
            Some(LogLevel::Error)
        } else if tag == 5 {
            Some(LogLevel::Critical)
        } else if tag == 6 {
            Some(LogLevel::Off)
        } else {
            None
        }
    }
}

pub open spec fn log_fits(l: LogData) -> bool {
    string_fits(l.source) && string_fits(l.message)
}

/// A log record: its level, where it comes from, what it says.
pub open spec fn enc_log(l: LogData) -> Seq<u8> {
    enc_u8(log_level_tag(l.level)) + enc_string(l.source) + enc_string(l.message)
}

pub open spec fn dec_log(bytes: Seq<u8>, pos: int) -> Option<(LogData, int)> {
    match dec_u8(bytes, pos) {
        Some((tag, p)) => match log_level_of_tag(tag) {
            Some(level) => match dec_string(bytes, p) {
                Some((source, q)) => match dec_string(bytes, q) {
                    Some((message, e)) => Some((LogData { level, source, message }, e)),
                    None => None,
                },
                None => None,
            },
            None => None,
        },
        None => None,
    }
}

pub proof fn lemma_dec_enc_log(bytes: Seq<u8>, pos: int, l: LogData)
    requires
        log_fits(l),
        holds_at(bytes, pos, enc_log(l)),
    ensures
        dec_log(bytes, pos) == Some((l, pos + enc_log(l).len())),
{
    let tag = log_level_tag(l.level);
    lemma_holds_at_concat(bytes, pos, enc_u8(tag) + enc_string(l.source), enc_string(l.message));
    lemma_holds_at_concat(bytes, pos, enc_u8(tag), enc_string(l.source));
    lemma_dec_enc_u8(bytes, pos, tag);
    lemma_dec_enc_string(bytes, pos + 1, l.source);
    lemma_dec_enc_string(bytes, pos + 1 + enc_string(l.source).len(), l.message);
}

pub fn put_log(out: &mut Vec<u8>, l: &GuestLogData) -> (ok: bool)
    ensures
        ok <==> log_fits(l@),
        ok ==> final(out)@ == old(out)@ + enc_log(l@),
{
    put_u8(out, l.level.tag());
    if !put_string(out, l.source.as_str()) {
        return false;
    }
    let ok = put_string(out, l.message.as_str());
    proof {
        if ok {
            assert(out@ =~= old(out)@ + enc_log(l@));
        }
    }
    ok
}

pub fn get_log(bytes: &[u8], pos: usize) -> (r: Option<(GuestLogData, usize)>)
    ensures
        r matches Some((v, p)) ==> dec_log(bytes@, pos as int) == Some((v@, p as int)),
        r is None ==> dec_log(bytes@, pos as int) is None,
{
    let (tag, p) = match get_u8(bytes, pos) {
        Some(x) => x,
        None => return None,
    };
    let level = match LogLevel::from_tag(tag) {
        Some(x) => x,
        None => return None,
    };
    let (source, q) = match get_string(bytes, p) {
        Some(x) => x,
        None => return None,
    };
    match get_string(bytes, q) {
        Some((message, e)) => Some((GuestLogData { level, source, message }, e)),
        None => None,
    }
}

// ---------------------------------------------------------------------------
// Frames that hold a function call

/// The payload of a frame that holds a function call: the kind byte, then the call.
pub open spec fn call_payload(v: CallData) -> Seq<u8> {
    enc_u8(KIND_CALL) + enc_call(v)
}

/// A function call can be framed when it fits and its payload's length fits in 32 bits.
pub open spec fn call_frame_fits(v: CallData) -> bool {
    call_fits(v) && call_payload(v).len() <= u32::MAX
}

/// The frame that holds a function call.
pub open spec fn call_frame(v: CallData) -> Seq<u8> {
    frame(call_payload(v))
}

/// What a payload holds, read as a function call: the kind byte must say so, and the call must
/// end where the payload ends.
pub open spec fn call_of_payload(payload: Seq<u8>) -> Option<CallData> {
    match dec_u8(payload, 0) {
        Some((kind, p)) => if kind == KIND_CALL {
            match dec_call(payload, p) {
                Some((v, end)) => if end == payload.len() {
                    Some(v)
                } else {
                    None
                },
                None => None,
            }
        } else {
            None
        },
        None => None,
    }
}

/// What the frame that starts `buf` holds, read as a function call.
pub open spec fn call_of_frame(buf: Seq<u8>) -> Result<CallData, WireError> {
    match frame_payload(buf) {
        Ok(payload) => match call_of_payload(payload) {
            Some(v) => Ok(v),
            None => Err(WireError::InvalidEncoding),
        },
        Err(e) => Err(e),
    }
}

/// A function call that can be framed is read back from its frame, whatever follows the
/// frame in the buffer.
pub proof fn function_call_round_trip(v: CallData, tail: Seq<u8>)
    requires
        call_frame_fits(v),
    ensures
        call_of_frame(call_frame(v) + tail) == Ok::<CallData, WireError>(v),
{
    let payload = call_payload(v);
    lemma_frame_payload(payload, tail);
    assert(payload.subrange(0, 1) =~= enc_u8(KIND_CALL));
    lemma_dec_enc_u8(payload, 0, KIND_CALL);
    assert(payload.subrange(1, 1 + enc_call(v).len() as int) =~= enc_call(v));
    lemma_dec_enc_call(payload, 1, v);
}

impl FunctionCall {
    /// Writes this value as a frame.
    pub fn encode(&self) -> (r: Result<Vec<u8>, WireError>)
        ensures
            r matches Ok(f) ==> call_frame_fits(self@) && f@ == call_frame(self@),
            r matches Err(e) ==> !call_frame_fits(self@) && e == WireError::FrameTooLarge,
    {
        let mut payload: Vec<u8> = Vec::new();
        put_u8(&mut payload, KIND_CALL);
        if !put_call(&mut payload, self) {
            return Err(WireError::FrameTooLarge);
        }
        assert(payload@ =~= call_payload(self@));
        write_frame(payload)
    }

    /// Reads the frame that starts `buf` as a function call.
    pub fn decode(buf: &[u8]) -> (r: Result<FunctionCall, WireError>)
        ensures
            r matches Ok(v) ==> call_of_frame(buf@) == Ok::<CallData, WireError>(v@),
            r matches Err(e) ==> call_of_frame(buf@) == Err::<CallData, WireError>(e),
    {
        let payload = match read_frame(buf) {
            Ok(p) => p,
            Err(e) => return Err(e),
        };
        let (kind, p) = match get_u8(payload, 0) {
            Some(x) => x,
            None => return Err(WireError::InvalidEncoding),
        };
        if kind != KIND_CALL {
            return Err(WireError::InvalidEncoding);
        }
        match get_call(payload, p) {
            Some((v, end)) => if end == payload.len() {
                Ok(v)
            } else {
                Err(WireError::InvalidEncoding)
            },
            None => Err(WireError::InvalidEncoding),
        }
    }
}

// ---------------------------------------------------------------------------
// Frames that hold a return value

/// The payload of a frame that holds a return value: the kind byte, then the value.
pub open spec fn return_payload(v: ReturnData) -> Seq<u8> {
    enc_u8(KIND_RETURN) + enc_return(v)
}

/// A return value can be framed when it fits and its payload's length fits in 32 bits.
pub open spec fn return_frame_fits(v: ReturnData) -> bool {
    return_fits(v) && return_payload(v).len() <= u32::MAX
}

/// The frame that holds a return value.
pub open spec fn return_frame(v: ReturnData) -> Seq<u8> {
    frame(return_payload(v))
}

/// What a payload holds, read as a return value: the kind byte must say so, and the value must
/// end where the payload ends.
pub open spec fn return_of_payload(payload: Seq<u8>) -> Option<ReturnData> {
    match dec_u8(payload, 0) {
        Some((kind, p)) => if kind == KIND_RETURN {
            match dec_return(payload, p) {
                Some((v, end)) => if end == payload.len() {
                    Some(v)
                } else {
                    None
                },
                None => None,
            }
        } else {
            None
        },
        None => None,
    }
}

/// What the frame that starts `buf` holds, read as a return value.
pub open spec fn return_of_frame(buf: Seq<u8>) -> Result<ReturnData, WireError> {
    match frame_payload(buf) {
        Ok(payload) => match return_of_payload(payload) {
            Some(v) => Ok(v),
            None => Err(WireError::InvalidEncoding),
        },
        Err(e) => Err(e),
    }
}

/// A return value that can be framed is read back from its frame, whatever follows the
/// frame in the buffer.
pub proof fn return_value_round_trip(v: ReturnData, tail: Seq<u8>)
    requires
        return_frame_fits(v),
    ensures
        return_of_frame(return_frame(v) + tail) == Ok::<ReturnData, WireError>(v),
{
    let payload = return_payload(v);
    lemma_frame_payload(payload, tail);
    assert(payload.subrange(0, 1) =~= enc_u8(KIND_RETURN));
    lemma_dec_enc_u8(payload, 0, KIND_RETURN);
    assert(payload.subrange(1, 1 + enc_return(v).len() as int) =~= enc_return(v));
    lemma_dec_enc_return(payload, 1, v);
}

impl ReturnValue {
    /// Writes this value as a frame.
    pub fn encode(&self) -> (r: Result<Vec<u8>, WireError>)
        ensures
            r matches Ok(f) ==> return_frame_fits(self@) && f@ == return_frame(self@),
            r matches Err(e) ==> !return_frame_fits(self@) && e == WireError::FrameTooLarge,
    {
        let mut payload: Vec<u8> = Vec::new();
        put_u8(&mut payload, KIND_RETURN);
        if !put_return(&mut payload, self) {
            return Err(WireError::FrameTooLarge);
        }
        assert(payload@ =~= return_payload(self@));
        write_frame(payload)
    }

    /// Reads the frame that starts `buf` as a return value.
    pub fn decode(buf: &[u8]) -> (r: Result<ReturnValue, WireError>)
        ensures
            r matches Ok(v) ==> return_of_frame(buf@) == Ok::<ReturnData, WireError>(v@),
            r matches Err(e) ==> return_of_frame(buf@) == Err::<ReturnData, WireError>(e),
    {
        let payload = match read_frame(buf) {
            Ok(p) => p,
            Err(e) => return Err(e),
        };
        let (kind, p) = match get_u8(payload, 0) {
            Some(x) => x,
            None => return Err(WireError::InvalidEncoding),
        };
        if kind != KIND_RETURN {
            return Err(WireError::InvalidEncoding);
        }
        match get_return(payload, p) {
            Some((v, end)) => if end == payload.len() {
                Ok(v)
            } else {
                Err(WireError::InvalidEncoding)
            },
            None => Err(WireError::InvalidEncoding),
        }
    }
}

// ---------------------------------------------------------------------------
// Frames that hold a reported error

/// The payload of a frame that holds a reported error: the kind byte, then the error.
pub open spec fn error_payload(v: GuestErrorData) -> Seq<u8> {
    enc_u8(KIND_ERROR) + enc_error(v)
}

/// A reported error can be framed when it fits and its payload's length fits in 32 bits.
pub open spec fn error_frame_fits(v: GuestErrorData) -> bool {
    error_fits(v) && error_payload(v).len() <= u32::MAX
}

/// The frame that holds a reported error.
pub open spec fn error_frame(v: GuestErrorData) -> Seq<u8> {
    frame(error_payload(v))
}

/// What a payload holds, read as a reported error: the kind byte must say so, and the error must
/// end where the payload ends.
pub open spec fn error_of_payload(payload: Seq<u8>) -> Option<GuestErrorData> {
    match dec_u8(payload, 0) {
        Some((kind, p)) => if kind == KIND_ERROR {
            match dec_error(payload, p) {
                Some((v, end)) => if end == payload.len() {
                    Some(v)
                } else {
                    None
                },
                None => None,
            }
        } else {
            None
        },
        None => None,
    }
}

/// What the frame that starts `buf` holds, read as a reported error.
pub open spec fn error_of_frame(buf: Seq<u8>) -> Result<GuestErrorData, WireError> {
    match frame_payload(buf) {
        Ok(payload) => match error_of_payload(payload) {
            Some(v) => Ok(v),
            None => Err(WireError::InvalidEncoding),
        },
        Err(e) => Err(e),
    }
}

/// A reported error that can be framed is read back from its frame, whatever follows the
/// frame in the buffer.
pub proof fn guest_error_round_trip(v: GuestErrorData, tail: Seq<u8>)
    requires
        error_frame_fits(v),
    ensures
        error_of_frame(error_frame(v) + tail) == Ok::<GuestErrorData, WireError>(v),
{
    let payload = error_payload(v);
    lemma_frame_payload(payload, tail);
    assert(payload.subrange(0, 1) =~= enc_u8(KIND_ERROR));
    lemma_dec_enc_u8(payload, 0, KIND_ERROR);
    assert(payload.subrange(1, 1 + enc_error(v).len() as int) =~= enc_error(v));
    lemma_dec_enc_error(payload, 1, v);
}

impl GuestError {
    /// Writes this value as a frame.
    pub fn encode(&self) -> (r: Result<Vec<u8>, WireError>)
        ensures
            r matches Ok(f) ==> error_frame_fits(self@) && f@ == error_frame(self@),
            r matches Err(e) ==> !error_frame_fits(self@) && e == WireError::FrameTooLarge,
    {
        let mut payload: Vec<u8> = Vec::new();
        put_u8(&mut payload, KIND_ERROR);
        if !put_error(&mut payload, self) {
            return Err(WireError::FrameTooLarge);
        }
        assert(payload@ =~= error_payload(self@));
        write_frame(payload)
    }

    /// Reads the frame that starts `buf` as a reported error.
    pub fn decode(buf: &[u8]) -> (r: Result<GuestError, WireError>)
        ensures
            r matches Ok(v) ==> error_of_frame(buf@) == Ok::<GuestErrorData, WireError>(v@),
            r matches Err(e) ==> error_of_frame(buf@) == Err::<GuestErrorData, WireError>(e),
    {
        let payload = match read_frame(buf) {
            Ok(p) => p,
            Err(e) => return Err(e),
        };
        let (kind, p) = match get_u8(payload, 0) {
            Some(x) => x,
            None => return Err(WireError::InvalidEncoding),
        };
        if kind != KIND_ERROR {
            return Err(WireError::InvalidEncoding);
        }
        match get_error(payload, p) {
            Some((v, end)) => if end == payload.len() {
                Ok(v)
            } else {
                Err(WireError::InvalidEncoding)
            },
            None => Err(WireError::InvalidEncoding),
        }
    }
}

// ---------------------------------------------------------------------------
// Frames that hold a log record

/// The payload of a frame that holds a log record: the kind byte, then the record.
pub open spec fn log_payload(v: LogData) -> Seq<u8> {
    enc_u8(KIND_LOG) + enc_log(v)
}

/// A log record can be framed when it fits and its payload's length fits in 32 bits.
pub open spec fn log_frame_fits(v: LogData) -> bool {
    log_fits(v) && log_payload(v).len() <= u32::MAX
}

/// The frame that holds a log record.
pub open spec fn log_frame(v: LogData) -> Seq<u8> {
    frame(log_payload(v))
}

/// What a payload holds, read as a log record: the kind byte must say so, and the record must
/// end where the payload ends.
pub open spec fn log_of_payload(payload: Seq<u8>) -> Option<LogData> {
    match dec_u8(payload, 0) {
        Some((kind, p)) => if kind == KIND_LOG {
            match dec_log(payload, p) {
                Some((v, end)) => if end == payload.len() {
                    Some(v)
                } else {
                    None
                },
                None => None,
            }
        } else {
            None
        },
        None => None,
    }
}

/// What the frame that starts `buf` holds, read as a log record.
pub open spec fn log_of_frame(buf: Seq<u8>) -> Result<LogData, WireError> {
    match frame_payload(buf) {
        Ok(payload) => match log_of_payload(payload) {
            Some(v) => Ok(v),
            None => Err(WireError::InvalidEncoding),
        },
        Err(e) => Err(e),
    }
}

/// A log record that can be framed is read back from its frame, whatever follows the
/// frame in the buffer.
pub proof fn log_record_round_trip(v: LogData, tail: Seq<u8>)
    requires
        log_frame_fits(v),
    ensures
        log_of_frame(log_frame(v) + tail) == Ok::<LogData, WireError>(v),
{
    let payload = log_payload(v);
    lemma_frame_payload(payload, tail);
    assert(payload.subrange(0, 1) =~= enc_u8(KIND_LOG));
    lemma_dec_enc_u8(payload, 0, KIND_LOG);
    assert(payload.subrange(1, 1 + enc_log(v).len() as int) =~= enc_log(v));
    lemma_dec_enc_log(payload, 1, v);
}

impl GuestLogData {
    /// Writes this value as a frame.
    pub fn encode(&self) -> (r: Result<Vec<u8>, WireError>)
        ensures
            r matches Ok(f) ==> log_frame_fits(self@) && f@ == log_frame(self@),
            r matches Err(e) ==> !log_frame_fits(self@) && e == WireError::FrameTooLarge,
    {
        let mut payload: Vec<u8> = Vec::new();
        put_u8(&mut payload, KIND_LOG);
        if !put_log(&mut payload, self) {
            return Err(WireError::FrameTooLarge);
        }
        assert(payload@ =~= log_payload(self@));
        write_frame(payload)
    }

    /// Reads the frame that starts `buf` as a log record.
    pub fn decode(buf: &[u8]) -> (r: Result<GuestLogData, WireError>)
        ensures
            r matches Ok(v) ==> log_of_frame(buf@) == Ok::<LogData, WireError>(v@),
            r matches Err(e) ==> log_of_frame(buf@) == Err::<LogData, WireError>(e),
    {
        let payload = match read_frame(buf) {
            Ok(p) => p,
            Err(e) => return Err(e),
        };
        let (kind, p) = match get_u8(payload, 0) {
            Some(x) => x,
            None => return Err(WireError::InvalidEncoding),
        };
        if kind != KIND_LOG {
            return Err(WireError::InvalidEncoding);
        }
        match get_log(payload, p) {
            Some((v, end)) => if end == payload.len() {
                Ok(v)
            } else {
                Err(WireError::InvalidEncoding)
            },
            None => Err(WireError::InvalidEncoding),
        }
    }
}

} // verus!
