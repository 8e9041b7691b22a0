use hyperlight_core::error::HyperlightError;
use hyperlight_core::registry::{check_types, FunctionDefinition, FunctionRegistry};
use hyperlight_core::types::{
    ErrorCode, FunctionCall, FunctionCallType, GuestError, ParameterType, ParameterValue,
    ReturnType,
};

fn registry() -> FunctionRegistry<u32> {
    let mut r = FunctionRegistry::new();
    r.register(
        FunctionDefinition::new("HostPrint".to_string(), vec![ParameterType::String], ReturnType::Int),
        10,
    )
    .unwrap();
    r.register(
        FunctionDefinition::new(
            "Add".to_string(),
            vec![ParameterType::Int, ParameterType::Long],
            ReturnType::Long,
        ),
        20,
    )
    .unwrap();
    r.register(FunctionDefinition::new("Now".to_string(), vec![], ReturnType::ULong), 30).unwrap();
    r
}

fn call(name: &str, parameters: Option<Vec<ParameterValue>>) -> FunctionCall {
    FunctionCall::new(name.to_string(), parameters, FunctionCallType::Host, ReturnType::Int)
}

#[test]
fn registering_a_name_twice_fails() {
    let mut r = registry();
    assert_eq!(r.len(), 3);
    let again =
        FunctionDefinition::new("Add".to_string(), vec![ParameterType::Bool], ReturnType::Void);
    assert_eq!(
        r.register(again, 99),
        Err(HyperlightError::DuplicateHostFunction { name: "Add".to_string() })
    );
    assert_eq!(r.len(), 3);
    assert_eq!(r.handler(1), Some(&20));
    assert_eq!(r.definition(1).unwrap().parameter_types.len(), 2);
}

#[test]
fn functions_are_found_by_name() {
    let r = registry();
    assert_eq!(r.find(&"HostPrint".to_string()), Some(0));
    assert_eq!(r.find(&"Now".to_string()), Some(2));
    assert_eq!(r.find(&"hostprint".to_string()), None);
    assert_eq!(r.definition(3), None);
    assert_eq!(r.handler(3), None);
}

#[test]
fn valid_calls_give_the_position_of_their_function() {
    let r = registry();
    assert_eq!(r.validate(&call("HostPrint", Some(vec![ParameterValue::String("x".into())]))), Ok(0));
    assert_eq!(
        r.validate(&call("Add", Some(vec![ParameterValue::Int(1), ParameterValue::Long(2)]))),
        Ok(1)
    );
    assert_eq!(r.validate(&call("Now", None)), Ok(2));
    assert_eq!(r.validate(&call("Now", Some(vec![]))), Ok(2));
}

#[test]
fn unknown_name_is_not_found() {
    let r = registry();
    assert_eq!(
        r.validate(&call("Missing", None)),
        Err(GuestError::new(ErrorCode::GuestFunctionNotFound, "Missing".to_string()))
    );
}

#[test]
fn wrong_number_of_parameters_is_reported() {
    let r = registry();
    assert_eq!(
        r.validate(&call("Add", Some(vec![ParameterValue::Int(1)]))),
        Err(GuestError::new(
            ErrorCode::GuestFunctionIncorrectNumberOfParameters,
            "Add".to_string()
        ))
    );
    assert_eq!(
        r.validate(&call("HostPrint", None)),
        Err(GuestError::new(
            ErrorCode::GuestFunctionIncorrectNumberOfParameters,
            "HostPrint".to_string()
        ))
    );
    assert_eq!(
        r.validate(&call("Now", Some(vec![ParameterValue::Bool(true)]))),
        Err(GuestError::new(
            ErrorCode::GuestFunctionIncorrectNumberOfParameters,
            "Now".to_string()
        ))
    );
}

#[test]
fn wrong_parameter_type_is_reported() {
    let r = registry();
    assert_eq!(
        r.validate(&call("HostPrint", Some(vec![ParameterValue::Int(1)]))),
        Err(GuestError::new(
            ErrorCode::GuestFunctionParameterTypeMismatch,
            "HostPrint".to_string()
        ))
    );
    assert_eq!(
        r.validate(&call("Add", Some(vec![ParameterValue::Int(1), ParameterValue::Int(2)]))),
        Err(GuestError::new(ErrorCode::GuestFunctionParameterTypeMismatch, "Add".to_string()))
    );
}

#[test]
fn types_are_held_against_positions() {
    let args = vec![ParameterValue::UInt(1), ParameterValue::VecBytes(vec![])];
    assert!(check_types(&args, &vec![ParameterType::UInt, ParameterType::VecBytes]));
    assert!(!check_types(&args, &vec![ParameterType::VecBytes, ParameterType::UInt]));
    assert!(check_types(&vec![], &vec![]));
}
