//! Functions by name: the registry of the functions that one side offers to the other.

use crate::error::{ErrorData, HyperlightError};
use crate::types::{
    CallData, ErrorCode, FunctionCall, GuestError, ParameterData, ParameterType, ParameterValue,
    ReturnType, ReturnValue,
};
use vstd::prelude::*;

verus! {

/// Name and signature of a function that one side offers to the other.
#[derive(Debug, PartialEq, Eq)]
pub struct FunctionDefinition {
    pub function_name: String,
    pub parameter_types: Vec<ParameterType>,
    pub return_type: ReturnType,
}

/// Mathematical content of a [`FunctionDefinition`].
pub struct DefinitionData {
    pub function_name: Seq<char>,
    pub parameter_types: Seq<ParameterType>,
    pub return_type: ReturnType,
}

impl View for FunctionDefinition {
    type V = DefinitionData;

    open spec fn view(&self) -> DefinitionData {
        DefinitionData {
            function_name: self.function_name@,
            parameter_types: self.parameter_types@,
            return_type: self.return_type,
        }
    }
}

impl FunctionDefinition {
    /// A definition of its parts.
    pub fn new(function_name: String, parameter_types: Vec<ParameterType>, return_type: ReturnType)
        -> (d: Self)
        ensures
            d.function_name == function_name,
            d.parameter_types == parameter_types,
            d.return_type == return_type,
    {
        FunctionDefinition { function_name, parameter_types, return_type }
    }
}

impl Clone for FunctionDefinition {
    fn clone(&self) -> (res: Self)
        ensures
            res@ == self@,
    {
        let mut parameter_types: Vec<ParameterType> = Vec::new();
        let mut i: usize = 0;
        while i < self.parameter_types.len()
            invariant
                i <= self.parameter_types.len(),
                parameter_types@ == self.parameter_types@.take(i as int),
            decreases self.parameter_types.len() - i,
        {
            parameter_types.push(self.parameter_types[i]);
            assert(parameter_types@ =~= self.parameter_types@.take(i + 1));
            i += 1;
        }
        assert(self.parameter_types@.take(i as int) =~= self.parameter_types@);
        FunctionDefinition {
            function_name: self.function_name.clone(),
            parameter_types,
            return_type: self.return_type,
        }
    }
}

/// The registry of the host's functions.
pub type HostFunctionsMap<H> = FunctionRegistry<H>;

/// Name and signature of a host function.
pub type HostFunctionDefinition = FunctionDefinition;

/// What the host runs when the guest calls one of its functions. Nothing is known of
/// what an implementation returns: the sandbox deals with every outcome.
pub trait HostFunction {
    fn call(&self, args: Vec<ParameterValue>) -> Result<ReturnValue, String>;
}

// ---------------------------------------------------------------------------
// Validation

/// Whether a function of that name is among `defs`.
pub open spec fn registered(defs: Seq<DefinitionData>, name: Seq<char>) -> bool {
    exists|i: int| 0 <= i < defs.len() && (#[trigger] defs[i]).function_name == name
}

/// No name occurs twice.
pub open spec fn names_unique(defs: Seq<DefinitionData>) -> bool {
    forall|i: int, j: int|
        0 <= i < defs.len() && 0 <= j < defs.len() && (#[trigger] defs[i]).function_name == (
        #[trigger] defs[j]).function_name ==> i == j
}

/// The definition registered under `name`.
pub open spec fn definition_of(defs: Seq<DefinitionData>, name: Seq<char>) -> DefinitionData {
    defs[choose|i: int| 0 <= i < defs.len() && (#[trigger] defs[i]).function_name == name]
}

/// Each argument has the type declared for its position.
pub open spec fn types_match(args: Seq<ParameterData>, types: Seq<ParameterType>) -> bool {
    forall|i: int|
        0 <= i < args.len() && i < types.len() ==> (#[trigger] args[i]).param_type() == types[i]
}

/// A call is valid when its function is registered, it brings as many arguments as the
/// definition declares, and each argument has the declared type. Otherwise the code says
/// which of the three fails first.
pub open spec fn validation(defs: Seq<DefinitionData>, call: CallData) -> Result<(), ErrorCode> {
    if !registered(defs, call.function_name) {
        Err(ErrorCode::GuestFunctionNotFound)
    } else {
        let def = definition_of(defs, call.function_name);
        if call.args().len() != def.parameter_types.len() {
            Err(ErrorCode::GuestFunctionIncorrectNumberOfParameters)
        } else if !types_match(call.args(), def.parameter_types) {
            Err(ErrorCode::GuestFunctionParameterTypeMismatch)
        } else {
            Ok(())
        }
    }
}

/// Among unique names, the definition of a name is the one that bears it.
pub proof fn lemma_definition_of(defs: Seq<DefinitionData>, i: int)
    requires
        names_unique(defs),
        0 <= i < defs.len(),
    ensures
        registered(defs, defs[i].function_name),
        definition_of(defs, defs[i].function_name) == defs[i],
{
}

/// A definition under a new name joins the others without disturbing them: names stay
/// unique, the new name has the new definition, and a call of any other name is held
/// against what it was held against before.
pub proof fn registering_extends(defs: Seq<DefinitionData>, d: DefinitionData, call: CallData)
    requires
        names_unique(defs),
        !registered(defs, d.function_name),
    ensures
        names_unique(defs.push(d)),
        registered(defs.push(d), d.function_name),
        definition_of(defs.push(d), d.function_name) == d,
        call.function_name != d.function_name ==> validation(defs.push(d), call) == validation(
            defs,
            call,
        ),
{
    let more = defs.push(d);
    assert forall|i: int, j: int|
        0 <= i < more.len() && 0 <= j < more.len() && (#[trigger] more[i]).function_name == (
        #[trigger] more[j]).function_name implies i == j by {
        if i < defs.len() && j < defs.len() {
            assert(defs[i].function_name == defs[j].function_name);
        } else if i < defs.len() {
            assert(defs[i].function_name == d.function_name);
        } else if j < defs.len() {
            assert(defs[j].function_name == d.function_name);
        }
    }
    lemma_definition_of(more, defs.len() as int);
    if call.function_name != d.function_name {
        if registered(defs, call.function_name) {
            let i = choose|i: int|
                0 <= i < defs.len() && (#[trigger] defs[i]).function_name == call.function_name;
            assert(more[i] == defs[i]);
            lemma_definition_of(more, i);
            lemma_definition_of(defs, i);
        } else if registered(more, call.function_name) {
            let i = choose|i: int|
                0 <= i < more.len() && (#[trigger] more[i]).function_name == call.function_name;
            if i < defs.len() {
                assert(defs[i] == more[i]);
            }
        }
    }
}

/// Whether each argument has the type declared for its position.
pub fn check_types(args: &Vec<ParameterValue>, types: &Vec<ParameterType>) -> (ok: bool)
    ensures
        ok == types_match(args.deep_view(), types@),
{
    let mut i: usize = 0;
    while i < args.len() && i < types.len()
        invariant
            i <= args.len(),
            i <= types.len(),
            forall|j: int| 0 <= j < i ==> (#[trigger] args.deep_view()[j]).param_type() == types[j],
        decreases args.len() - i,
    {
        assert(args.deep_view()[i as int] == args[i as int]@);
        if args[i].get_type() != types[i] {
            return false;
        }
        i += 1;
    }
    true
}

// ---------------------------------------------------------------------------
// The registry

/// The offered functions by name, each with its definition and what runs it.
#[derive(Debug)]
pub struct FunctionRegistry<H> {
    definitions: Vec<FunctionDefinition>,
    handlers: Vec<H>,
}

impl<H> FunctionRegistry<H> {
    /// The definitions, in the order in which they were registered.
    pub closed spec fn definitions(&self) -> Seq<DefinitionData> {
        self.definitions@.map_values(|d: FunctionDefinition| d@)
    }

    /// What runs each function, in the same order.
    pub closed spec fn handlers(&self) -> Seq<H> {
        self.handlers@
    }

    /// No name occurs twice, and each definition has its handler.
    pub open spec fn wf(&self) -> bool {
        &&& names_unique(self.definitions())
        &&& self.handlers().len() == self.definitions().len()
    }

    /// A registry without functions.
    pub fn new() -> (m: Self)
        ensures
            m.wf(),
            m.definitions() == Seq::<DefinitionData>::empty(),
            m.handlers() == Seq::<H>::empty(),
    {
        let m = FunctionRegistry { definitions: Vec::new(), handlers: Vec::new() };
        assert(m.definitions() =~= Seq::<DefinitionData>::empty());
        m
    }

    /// The number of registered functions.
    pub fn len(&self) -> (n: usize)
        ensures
            n == self.definitions().len(),
    {
        self.definitions.len()
    }

    /// Where the function of that name stands, if it is registered.
    pub fn find(&self, name: &String) -> (r: Option<usize>)
        ensures
            r matches Some(i) ==> i < self.definitions().len() && self.definitions()[i as int]
                .function_name == name@,
            r is None ==> !registered(self.definitions(), name@),
    {
        let mut i: usize = 0;
        while i < self.definitions.len()
            invariant
                i <= self.definitions.len(),
                forall|j: int|
                    0 <= j < i ==> (#[trigger] self.definitions()[j]).function_name != name@,
            decreases self.definitions.len() - i,
        {
            assert(self.definitions()[i as int] == self.definitions[i as int]@);
            if self.definitions[i].function_name == *name {
                return Some(i);
            }
            i += 1;
        }
        None
    }

    /// Adds a function, unless one of that name is registered already.
    pub fn register(&mut self, definition: FunctionDefinition, handler: H) -> (r: Result<
        (),
        HyperlightError,
    >)
        requires
            old(self).wf(),
        ensures
            final(self).wf(),
            registered(old(self).definitions(), definition@.function_name) ==> {
                &&& r matches Err(e) && e@ == ErrorData::DuplicateHostFunction {
                    name: definition@.function_name,
                }
                &&& final(self).definitions() == old(self).definitions()
                &&& final(self).handlers() == old(self).handlers()
            },
            !registered(old(self).definitions(), definition@.function_name) ==> {
                &&& r is Ok
                &&& final(self).definitions() == old(self).definitions().push(definition@)
                &&& final(self).handlers() == old(self).handlers().push(handler)
            },
    {
        if self.find(&definition.function_name).is_some() {
            return Err(HyperlightError::DuplicateHostFunction { name: definition.function_name });
        }
        let ghost d = definition@;
        self.definitions.push(definition);
        self.handlers.push(handler);
        assert(self.definitions() =~= old(self).definitions().push(d));
        Ok(())
    }

    /// The definition at position `i`, if there is one.
    pub fn definition(&self, i: usize) -> (d: Option<&FunctionDefinition>)
        ensures
            d is Some <==> i < self.definitions().len(),
            d matches Some(x) ==> x@ == self.definitions()[i as int],
    {
        if i < self.definitions.len() {
            Some(&self.definitions[i])
        } else {
            None
        }
    }

    /// What runs the function at position `i`, if there is one.
    pub fn handler(&self, i: usize) -> (h: Option<&H>)
        ensures
            h is Some <==> i < self.handlers().len(),
            h matches Some(x) ==> *x == self.handlers()[i as int],
    {
        if i < self.handlers.len() {
            Some(&self.handlers[i])
        } else {
            None
        }
    }

    /// Holds a call against the registry. A valid call gives the position of
    /// its function; an invalid one gives the error that goes back to the caller, whose
    /// message is the name that was called.
    pub fn validate(&self, call: &FunctionCall) -> (r: Result<usize, GuestError>)
        requires
            self.wf(),
        ensures
            r matches Ok(i) ==> {
                &&& validation(self.definitions(), call@) is Ok
                &&& i < self.definitions().len()
                &&& self.definitions()[i as int] == definition_of(
                    self.definitions(),
                    call@.function_name,
                )
            },
            r matches Err(e) ==> {
                &&& validation(self.definitions(), call@) == Err::<(), ErrorCode>(e.code)
                &&& e@.message == call@.function_name
            },
    {
        let i = match self.find(&call.function_name) {
            Some(i) => i,
            None => {
                return Err(
                    GuestError::new(ErrorCode::GuestFunctionNotFound, call.function_name.clone()),
                );
            },
        };
        proof {
            lemma_definition_of(self.definitions(), i as int);
        }
        let def = &self.definitions[i];
        assert(def@ == self.definitions()[i as int]);
        let ok = match &call.parameters {
            Some(args) => {
                if args.len() != def.parameter_types.len() {
                    return Err(
                        GuestError::new(
                            ErrorCode::GuestFunctionIncorrectNumberOfParameters,
                            call.function_name.clone(),
                        ),
                    );
                }
                check_types(args, &def.parameter_types)
            },
            None => {
                if def.parameter_types.len() != 0 {
                    return Err(
                        GuestError::new(
                            ErrorCode::GuestFunctionIncorrectNumberOfParameters,
                            call.function_name.clone(),
                        ),
                    );
                }
                true
            },
        };
        if ok {
            Ok(i)
        } else {
            Err(
                GuestError::new(
                    ErrorCode::GuestFunctionParameterTypeMismatch,
                    call.function_name.clone(),
                ),
            )
        }
    }
}

} // verus!
