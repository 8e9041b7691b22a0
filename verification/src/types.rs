//! Values, types and records exchanged between host and guest.

use vstd::prelude::*;

verus! {

/// Discriminator of a [`ParameterValue`].
#[derive(Clone, Copy, Debug, PartialEq, Eq, Structural)]
pub enum ParameterType {
    Int,
    UInt,
    Long,
    ULong,
    String,
    Bool,
    VecBytes,
}

/// Discriminator of a [`ReturnValue`].
#[derive(Clone, Copy, Debug, PartialEq, Eq, Structural)]
pub enum ReturnType {
    Void,
    Int,
    UInt,
    Long,
    ULong,
    String,
    Bool,
    VecBytes,
}

/// One typed argument of a function call.
#[derive(Debug, PartialEq, Eq)]
pub enum ParameterValue {
    Int(i32),
    UInt(u32),
    Long(i64),
    ULong(u64),
    String(String),
    Bool(bool),
    VecBytes(Vec<u8>),
}

/// Mathematical content of a [`ParameterValue`].
pub enum ParameterData {
    Int(i32),
    UInt(u32),
    Long(i64),
    ULong(u64),
    String(Seq<char>),
    Bool(bool),
    VecBytes(Seq<u8>),
}

impl ParameterData {
    /// The discriminator of this value.
    pub open spec fn param_type(self) -> ParameterType {
        match self {
            ParameterData::Int(_) => ParameterType::Int,
            ParameterData::UInt(_) => ParameterType::UInt,
            ParameterData::Long(_) => ParameterType::Long,
            ParameterData::ULong(_) => ParameterType::ULong,
            ParameterData::String(_) => ParameterType::String,
            ParameterData::Bool(_) => ParameterType::Bool,
            ParameterData::VecBytes(_) => ParameterType::VecBytes,
        }
    }
}

impl View for ParameterValue {
    type V = ParameterData;

    open spec fn view(&self) -> ParameterData {
        match self {
            ParameterValue::Int(i) => ParameterData::Int(*i),
            ParameterValue::UInt(i) => ParameterData::UInt(*i),
            ParameterValue::Long(i) => ParameterData::Long(*i),
            ParameterValue::ULong(i) => ParameterData::ULong(*i),
            ParameterValue::String(s) => ParameterData::String(s@),
            ParameterValue::Bool(b) => ParameterData::Bool(*b),
            ParameterValue::VecBytes(v) => ParameterData::VecBytes(v@),
        }
    }
}

impl DeepView for ParameterValue {
    type V = ParameterData;

    open spec fn deep_view(&self) -> ParameterData {
        self@
    }
}

impl Clone for ParameterValue {
    fn clone(&self) -> (res: Self)
        ensures
            res@ == self@,
    {
        match self {
            ParameterValue::Int(i) => ParameterValue::Int(*i),
            ParameterValue::UInt(i) => ParameterValue::UInt(*i),
            ParameterValue::Long(i) => ParameterValue::Long(*i),
            ParameterValue::ULong(i) => ParameterValue::ULong(*i),
            ParameterValue::String(s) => ParameterValue::String(s.clone()),
            ParameterValue::Bool(b) => ParameterValue::Bool(*b),
            ParameterValue::VecBytes(v) => ParameterValue::VecBytes(v.clone()),
        }
    }
}

impl ParameterValue {
    /// The discriminator of this value.
    pub fn get_type(&self) -> (t: ParameterType)
        ensures
            t == self@.param_type(),
    {
        match self {
            ParameterValue::Int(_) => ParameterType::Int,
            ParameterValue::UInt(_) => ParameterType::UInt,
            ParameterValue::Long(_) => ParameterType::Long,
            ParameterValue::ULong(_) => ParameterType::ULong,
            ParameterValue::String(_) => ParameterType::String,
            ParameterValue::Bool(_) => ParameterType::Bool,
            ParameterValue::VecBytes(_) => ParameterType::VecBytes,
        }
    }
}


/// A typed result of a function call.
#[derive(Debug, PartialEq, Eq)]
pub enum ReturnValue {
    Void,
    Int(i32),
    UInt(u32),
    Long(i64),
    ULong(u64),
    String(String),
    Bool(bool),
    VecBytes(Vec<u8>),
}

/// Mathematical content of a [`ReturnValue`].
pub enum ReturnData {
    Void,
    Int(i32),
    UInt(u32),
    Long(i64),
    ULong(u64),
    String(Seq<char>),
    Bool(bool),
    VecBytes(Seq<u8>),
}

impl ReturnData {
    /// The discriminator of this value.
    pub open spec fn return_type(self) -> ReturnType {
        match self {
            ReturnData::Void => ReturnType::Void,
            ReturnData::Int(_) => ReturnType::Int,
            ReturnData::UInt(_) => ReturnType::UInt,
            ReturnData::Long(_) => ReturnType::Long,
            ReturnData::ULong(_) => ReturnType::ULong,
            ReturnData::String(_) => ReturnType::String,
            ReturnData::Bool(_) => ReturnType::Bool,
            ReturnData::VecBytes(_) => ReturnType::VecBytes,
        }
    }
}

impl View for ReturnValue {
    type V = ReturnData;

    open spec fn view(&self) -> ReturnData {
        match self {
            ReturnValue::Void => ReturnData::Void,
            ReturnValue::Int(i) => ReturnData::Int(*i),
            ReturnValue::UInt(i) => ReturnData::UInt(*i),
            ReturnValue::Long(i) => ReturnData::Long(*i),
            ReturnValue::ULong(i) => ReturnData::ULong(*i),
            ReturnValue::String(s) => ReturnData::String(s@),
            ReturnValue::Bool(b) => ReturnData::Bool(*b),
            ReturnValue::VecBytes(v) => ReturnData::VecBytes(v@),
        }
    }
}

impl DeepView for ReturnValue {
    type V = ReturnData;

    open spec fn deep_view(&self) -> ReturnData {
        self@
    }
}

impl Clone for ReturnValue {
    fn clone(&self) -> (res: Self)
        ensures
            res@ == self@,
    {
        match self {
            ReturnValue::Void => ReturnValue::Void,
            ReturnValue::Int(i) => ReturnValue::Int(*i),
            ReturnValue::UInt(i) => ReturnValue::UInt(*i),
            ReturnValue::Long(i) => ReturnValue::Long(*i),
            ReturnValue::ULong(i) => ReturnValue::ULong(*i),
            ReturnValue::String(s) => ReturnValue::String(s.clone()),
            ReturnValue::Bool(b) => ReturnValue::Bool(*b),
            ReturnValue::VecBytes(v) => ReturnValue::VecBytes(v.clone()),
        }
    }
}

impl ReturnValue {
    /// The discriminator of this value.
    pub fn get_type(&self) -> (t: ReturnType)
        ensures
            t == self@.return_type(),
    {
        match self {
            ReturnValue::Void => ReturnType::Void,
            ReturnValue::Int(_) => ReturnType::Int,
            ReturnValue::UInt(_) => ReturnType::UInt,
            ReturnValue::Long(_) => ReturnType::Long,
            ReturnValue::ULong(_) => ReturnType::ULong,
            ReturnValue::String(_) => ReturnType::String,
            ReturnValue::Bool(_) => ReturnType::Bool,
            ReturnValue::VecBytes(_) => ReturnType::VecBytes,
        }
    }
}

/// The side that is asked to run a function.
#[derive(Clone, Copy, Debug, PartialEq, Eq, Structural)]
pub enum FunctionCallType {
    /// The host asks the guest.
    Guest,
    /// The guest asks the host.
    Host,
}

/// A named call with its arguments and the type of result the caller expects.
#[derive(Debug, PartialEq, Eq)]
pub struct FunctionCall {
    pub function_name: String,
    pub parameters: Option<Vec<ParameterValue>>,
    pub function_call_type: FunctionCallType,
    pub expected_return_type: ReturnType,
}

/// Mathematical content of a [`FunctionCall`].
pub struct CallData {
    pub function_name: Seq<char>,
    pub parameters: Option<Seq<ParameterData>>,
    pub function_call_type: FunctionCallType,
    pub expected_return_type: ReturnType,
}

impl CallData {
    /// The arguments, with an absent list read as the empty one.
    pub open spec fn args(self) -> Seq<ParameterData> {
        match self.parameters {
            Some(p) => p,
            None => Seq::empty(),
        }
    }
}

impl View for FunctionCall {
    type V = CallData;

    open spec fn view(&self) -> CallData {
        CallData {
            function_name: self.function_name@,
            parameters: self.parameters.deep_view(),
            function_call_type: self.function_call_type,
            expected_return_type: self.expected_return_type,
        }
    }
}

impl DeepView for FunctionCall {
    type V = CallData;

    open spec fn deep_view(&self) -> CallData {
        self@
    }
}

/// Copies a list of arguments.
pub fn clone_parameters(params: &Vec<ParameterValue>) -> (res: Vec<ParameterValue>)
    ensures
        res.deep_view() == params.deep_view(),
{
    let mut res: Vec<ParameterValue> = Vec::new();
    let mut i: usize = 0;
    while i < params.len()
        invariant
            i <= params.len(),
            res.len() == i,
            forall|j: int| 0 <= j < i ==> res[j]@ == params[j]@,
        decreases params.len() - i,
    {
        res.push(params[i].clone());
        i += 1;
    }
    assert(res.deep_view() =~= params.deep_view());
    res
}

impl Clone for FunctionCall {
    fn clone(&self) -> (res: Self)
        ensures
            res@ == self@,
    {
        let parameters = match &self.parameters {
            Some(p) => Some(clone_parameters(p)),
            None => None,
        };
        FunctionCall {
            function_name: self.function_name.clone(),
            parameters,
            function_call_type: self.function_call_type,
            expected_return_type: self.expected_return_type,
        }
    }
}

impl FunctionCall {
    /// A call of its parts.
    pub fn new(
        function_name: String,
        parameters: Option<Vec<ParameterValue>>,
        function_call_type: FunctionCallType,
        expected_return_type: ReturnType,
    ) -> (call: Self)
        ensures
            call.function_name == function_name,
            call.parameters == parameters,
            call.function_call_type == function_call_type,
            call.expected_return_type == expected_return_type,
    {
        FunctionCall { function_name, parameters, function_call_type, expected_return_type }
    }
}

/// Codes by which one side reports a failure to the other.
#[derive(Clone, Copy, Debug, PartialEq, Eq, Structural)]
pub enum ErrorCode {
    NoError,
    UnsupportedParameterType,
    GuestFunctionNameNotProvided,
    GuestFunctionNotFound,
    GuestFunctionIncorrectNumberOfParameters,
    DispatchFunctionPointerNotSet,
    OutbError,
    UnknownError,
    StackOverflow,
    GsCheckFailed,
    TooManyGuestFunctions,
    FailureInDlmalloc,
    MallocFailed,
    GuestFunctionParameterTypeMismatch,
    GuestError,
    ArrayLengthParamIsMissing,
}

/// A failure reported through the call protocol.
#[derive(Debug, PartialEq, Eq)]
pub struct GuestError {
    pub code: ErrorCode,
    pub message: String,
}

/// Mathematical content of a [`GuestError`].
pub struct GuestErrorData {
    pub code: ErrorCode,
    pub message: Seq<char>,
}

impl View for GuestError {
    type V = GuestErrorData;

    open spec fn view(&self) -> GuestErrorData {
        GuestErrorData { code: self.code, message: self.message@ }
    }
}

impl DeepView for GuestError {
    type V = GuestErrorData;

    open spec fn deep_view(&self) -> GuestErrorData {
        self@
    }
}

impl Clone for GuestError {
    fn clone(&self) -> (res: Self)
        ensures
            res@ == self@,
    {
        GuestError { code: self.code, message: self.message.clone() }
    }
}

impl GuestError {
    /// An error of its parts.
    pub fn new(code: ErrorCode, message: String) -> (e: Self)
        ensures
            e.code == code,
            e.message == message,
    {
        GuestError { code, message }
    }
}


/// How much a log record matters.
#[derive(Clone, Copy, Debug, PartialEq, Eq, Structural)]
pub enum LogLevel {
    Trace,
    Debug,
    Information,
    Warning,
    Error,
    Critical,
    Off,
}

/// A record that the guest hands to the host's logger.
#[derive(Debug, PartialEq, Eq)]
pub struct GuestLogData {
    pub level: LogLevel,
    pub source: String,
    pub message: String,
}

/// Mathematical content of a [`GuestLogData`].
pub struct LogData {
    pub level: LogLevel,
    pub source: Seq<char>,
    pub message: Seq<char>,
}

impl View for GuestLogData {
    type V = LogData;

    open spec fn view(&self) -> LogData {
        LogData { level: self.level, source: self.source@, message: self.message@ }
    }
}

impl DeepView for GuestLogData {
    type V = LogData;

    open spec fn deep_view(&self) -> LogData {
        self@
    }
}

impl Clone for GuestLogData {
    fn clone(&self) -> (res: Self)
        ensures
            res@ == self@,
    {
        GuestLogData {
            level: self.level,
            source: self.source.clone(),
            message: self.message.clone(),
        }
    }
}

impl GuestLogData {
    /// A record of its parts.
    pub fn new(level: LogLevel, source: String, message: String) -> (l: Self)
        ensures
            l.level == level,
            l.source == source,
            l.message == message,
    {
        GuestLogData { level, source, message }
    }
}

} // verus!
