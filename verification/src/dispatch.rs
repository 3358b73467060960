//! The registry of handlers and the routing of an inbound call.
//!
//! A call arrives as an operation name and a payload. The registry decides
//! from the name alone whether the call is answered at all; only then is the
//! payload decoded into a `Request` and handed to `Handlers::invoke`.

use crate::records::{
    CallError, FloatText, HandlerResult, Lists, Maps, Optional, Required, TestFunctionArgs, Tests,
};
use vstd::prelude::*;
use vstd::string::*;

verus! {

/// The operations that a guest can answer.
#[derive(Debug, PartialEq, Eq, Structural, Clone, Copy)]
pub enum Operation {
    TestFunction,
    TestUnary,
    TestDecode,
}

/// The decoded input of one call.
#[derive(Debug, PartialEq, Clone)]
pub enum Request {
    TestFunction(TestFunctionArgs),
    TestUnary(Tests),
    /// The bundle, and its two required floats written out.
    TestDecode(Tests, FloatText),
}

/// What a call gives back, before it is encoded.
#[derive(Debug, PartialEq, Clone)]
pub enum Response {
    Bundle(Tests),
    Text(String),
}

/// The namespace under which the operations are known to the host.
pub open spec fn namespace_name() -> Seq<char> {
    "tests"@
}

/// The namespace under which the operations are known to the host.
pub fn namespace() -> (r: &'static str)
    ensures
        r@ == namespace_name(),
{
    "tests"
}

impl Operation {
    /// The exact name by which the host addresses the operation.
    pub open spec fn wire_name(self) -> Seq<char> {
        match self {
            Operation::TestFunction => "testFunction"@,
            Operation::TestUnary => "testUnary"@,
            Operation::TestDecode => "testDecode"@,
        }
    }

    /// The exact name by which the host addresses the operation.
    pub fn name(self) -> (r: &'static str)
        ensures
            r@ == self.wire_name(),
    {
        match self {
            Operation::TestFunction => "testFunction",
            Operation::TestUnary => "testUnary",
            Operation::TestDecode => "testDecode",
        }
    }

    /// The operation of that name, if there is one. Names are compared
    /// character by character: capital letters count.
    pub fn from_name(name: &str) -> (r: Option<Operation>)
        ensures
            r == named(name@),
    {
        let wanted = name.to_owned();
        if wanted == String::from_str("testFunction") {
            Some(Operation::TestFunction)
        } else if wanted == String::from_str("testUnary") {
            Some(Operation::TestUnary)
        } else if wanted == String::from_str("testDecode") {
            Some(Operation::TestDecode)
        } else {
            None
        }
    }
}

impl Operation {
    /// Whether the operation's reply is a piece of text rather than a
    /// bundle.
    pub fn replies_with_text(self) -> (r: bool)
        ensures
            r == (self == Operation::TestDecode),
    {
        match self {
            Operation::TestDecode => true,
            _ => false,
        }
    }
}

impl Request {
    /// The operation that the request is input to.
    pub open spec fn operation_of(self) -> Operation {
        match self {
            Request::TestFunction(_) => Operation::TestFunction,
            Request::TestUnary(_) => Operation::TestUnary,
            Request::TestDecode(_, _) => Operation::TestDecode,
        }
    }

    /// The operation that the request is input to.
    pub fn operation(&self) -> (r: Operation)
        ensures
            r == self.operation_of(),
    {
        match self {
            Request::TestFunction(_) => Operation::TestFunction,
            Request::TestUnary(_) => Operation::TestUnary,
            Request::TestDecode(_, _) => Operation::TestDecode,
        }
    }
}

/// The operation with the given name, if any.
pub open spec fn named(name: Seq<char>) -> Option<Operation> {
    if name == Operation::TestFunction.wire_name() {
        Some(Operation::TestFunction)
    } else if name == Operation::TestUnary.wire_name() {
        Some(Operation::TestUnary)
    } else if name == Operation::TestDecode.wire_name() {
        Some(Operation::TestDecode)
    } else {
        None
    }
}

/// Where a call under `name` goes, given the set of registered operations:
/// to the operation of that name if it is registered, and nowhere otherwise.
pub open spec fn route_of(registered: Set<Operation>, name: Seq<char>) -> Result<
    Operation,
    CallError,
> {
    match named(name) {
        Some(op) => if registered.contains(op) {
            Ok(op)
        } else {
            Err(CallError::OperationNotFound)
        },
        None => Err(CallError::OperationNotFound),
    }
}

/// No two operations share a name.
pub proof fn lemma_names_distinct(a: Operation, b: Operation)
    ensures
        a.wire_name() == b.wire_name() ==> a == b,
        named(a.wire_name()) == Some(a),
{
    reveal_strlit("testFunction");
    reveal_strlit("testUnary");
    reveal_strlit("testDecode");
    assert("testFunction"@.len() == 12);
    assert("testUnary"@.len() == 9);
    assert("testDecode"@.len() == 10);
}

/// The registry: at most one handler for each operation.
pub struct Handlers<F, U, D> {
    test_function: Option<F>,
    test_unary: Option<U>,
    test_decode: Option<D>,
}

impl<F, U, D> Handlers<F, U, D> {
    /// The handler of `testFunction`, if one is registered.
    pub closed spec fn function_handler(&self) -> Option<F> {
        self.test_function
    }

    /// The handler of `testUnary`, if one is registered.
    pub closed spec fn unary_handler(&self) -> Option<U> {
        self.test_unary
    }

    /// The handler of `testDecode`, if one is registered.
    pub closed spec fn decode_handler(&self) -> Option<D> {
        self.test_decode
    }
}

impl<F, U, D> View for Handlers<F, U, D> {
    type V = Set<Operation>;

    /// The set of operations that have a handler.
    open spec fn view(&self) -> Set<Operation> {
        Set::new(
            |op: Operation|
                match op {
                    Operation::TestFunction => self.function_handler() is Some,
                    Operation::TestUnary => self.unary_handler() is Some,
                    Operation::TestDecode => self.decode_handler() is Some,
                },
        )
    }
}

impl<F, U, D> Handlers<F, U, D> where
    F: Fn(Required, Optional, Maps, Lists) -> HandlerResult<Tests>,
    U: Fn(Tests) -> HandlerResult<Tests>,
    D: Fn(Tests, FloatText) -> HandlerResult<String>,
 {
    /// Every registered handler can be called on every input.
    pub open spec fn wf(&self) -> bool {
        &&& self.function_handler() is Some ==> forall|
            required: Required,
            optional: Optional,
            maps: Maps,
            lists: Lists,
        | #[trigger]
            call_requires(self.function_handler()->0, (required, optional, maps, lists))
        &&& self.unary_handler() is Some ==> forall|tests: Tests| #[trigger]
            call_requires(self.unary_handler()->0, (tests,))
        &&& self.decode_handler() is Some ==> forall|tests: Tests, floats: FloatText| #[trigger]
            call_requires(self.decode_handler()->0, (tests, floats))
    }

    /// Whether `outcome` is what the registered handler of the request's
    /// operation may return on the request's input: the handler's own
    /// result, a bundle or a text wrapped as a reply, its error handed on.
    pub open spec fn answers(&self, request: Request, outcome: Result<Response, CallError>) -> bool {
        match request {
            Request::TestFunction(args) => match outcome {
                Ok(Response::Bundle(tests)) => call_ensures(
                    self.function_handler()->0,
                    (args.required, args.optional, args.maps, args.lists),
                    Ok::<Tests, CallError>(tests),
                ),
                Ok(Response::Text(_)) => false,
                Err(e) => call_ensures(
                    self.function_handler()->0,
                    (args.required, args.optional, args.maps, args.lists),
                    Err::<Tests, CallError>(e),
                ),
            },
            Request::TestUnary(tests) => match outcome {
                Ok(Response::Bundle(reply)) => call_ensures(
                    self.unary_handler()->0,
                    (tests,),
                    Ok::<Tests, CallError>(reply),
                ),
                Ok(Response::Text(_)) => false,
                Err(e) => call_ensures(
                    self.unary_handler()->0,
                    (tests,),
                    Err::<Tests, CallError>(e),
                ),
            },
            Request::TestDecode(tests, floats) => match outcome {
                Ok(Response::Text(text)) => call_ensures(
                    self.decode_handler()->0,
                    (tests, floats),
                    Ok::<String, CallError>(text),
                ),
                Ok(Response::Bundle(_)) => false,
                Err(e) => call_ensures(
                    self.decode_handler()->0,
                    (tests, floats),
                    Err::<String, CallError>(e),
                ),
            },
        }
    }

    /// A registry with no handler in it.
    pub fn new() -> (r: Handlers<F, U, D>)
        ensures
            r@ == Set::<Operation>::empty(),
            r.wf(),
    {
        let r = Handlers { test_function: None, test_unary: None, test_decode: None };
        assert(r@ =~= Set::<Operation>::empty());
        r
    }

    /// Registers `f` as the handler of `testFunction`, in place of an
    /// earlier one if there was one. The other entries stay as they are.
    pub fn register_test_function(&mut self, f: F)
        requires
            old(self).wf(),
            forall|required: Required, optional: Optional, maps: Maps, lists: Lists| #[trigger]
                call_requires(f, (required, optional, maps, lists)),
        ensures
            final(self).wf(),
            final(self).function_handler() == Some(f),
            final(self).unary_handler() == old(self).unary_handler(),
            final(self).decode_handler() == old(self).decode_handler(),
            final(self)@ == old(self)@.insert(Operation::TestFunction),
    {
        self.test_function = Some(f);
        assert(self@ =~= old(self)@.insert(Operation::TestFunction));
    }

    /// Registers `f` as the handler of `testUnary`, in place of an earlier
    /// one if there was one. The other entries stay as they are.
    pub fn register_test_unary(&mut self, f: U)
        requires
            old(self).wf(),
            forall|tests: Tests| #[trigger] call_requires(f, (tests,)),
        ensures
            final(self).wf(),
            final(self).unary_handler() == Some(f),
            final(self).function_handler() == old(self).function_handler(),
            final(self).decode_handler() == old(self).decode_handler(),
            final(self)@ == old(self)@.insert(Operation::TestUnary),
    {
        self.test_unary = Some(f);
        assert(self@ =~= old(self)@.insert(Operation::TestUnary));
    }

    /// Registers `f` as the handler of `testDecode`, in place of an earlier
    /// one if there was one. The other entries stay as they are.
    pub fn register_test_decode(&mut self, f: D)
        requires
            old(self).wf(),
            forall|tests: Tests, floats: FloatText| #[trigger] call_requires(f, (tests, floats)),
        ensures
            final(self).wf(),
            final(self).decode_handler() == Some(f),
            final(self).function_handler() == old(self).function_handler(),
            final(self).unary_handler() == old(self).unary_handler(),
            final(self)@ == old(self)@.insert(Operation::TestDecode),
    {
        self.test_decode = Some(f);
        assert(self@ =~= old(self)@.insert(Operation::TestDecode));
    }

    /// Whether `op` has a handler.
    pub fn is_registered(&self, op: Operation) -> (r: bool)
        ensures
            r == self@.contains(op),
    {
        match op {
            Operation::TestFunction => self.test_function.is_some(),
            Operation::TestUnary => self.test_unary.is_some(),
            Operation::TestDecode => self.test_decode.is_some(),
        }
    }

    /// Decides from the operation's name alone where a call goes. An
    /// unknown or unregistered name is refused here, before anything is
    /// decoded.
    pub fn route(&self, operation: &str) -> (r: Result<Operation, CallError>)
        ensures
            r == route_of(self@, operation@),
    {
        match Operation::from_name(operation) {
            Some(op) => if self.is_registered(op) {
                Ok(op)
            } else {
                Err(CallError::OperationNotFound)
            },
            None => Err(CallError::OperationNotFound),
        }
    }

    /// Runs the registered handler of the request's operation on its decoded
    /// input. Without such a handler the call is not found.
    pub fn invoke(&self, request: Request) -> (r: Result<Response, CallError>)
        requires
            self.wf(),
        ensures
            !self@.contains(request.operation_of()) ==> r == Err::<Response, CallError>(
                CallError::OperationNotFound,
            ),
            self@.contains(request.operation_of()) ==> self.answers(request, r),
    {
        match request {
            Request::TestFunction(args) => match &self.test_function {
                Some(f) => match f(args.required, args.optional, args.maps, args.lists) {
                    Ok(tests) => Ok(Response::Bundle(tests)),
                    Err(e) => Err(e),
                },
                None => Err(CallError::OperationNotFound),
            },
            Request::TestUnary(tests) => match &self.test_unary {
                Some(f) => match f(tests) {
                    Ok(reply) => Ok(Response::Bundle(reply)),
                    Err(e) => Err(e),
                },
                None => Err(CallError::OperationNotFound),
            },
            Request::TestDecode(tests, floats) => match &self.test_decode {
                Some(f) => match f(tests, floats) {
                    Ok(text) => Ok(Response::Text(text)),
                    Err(e) => Err(e),
                },
                None => Err(CallError::OperationNotFound),
            },
        }
    }
}

/// A call under a name that no registered operation bears is refused as not
/// found, whatever its payload; a call under the name of a registered
/// operation goes to that operation.
pub proof fn law_route(registered: Set<Operation>, name: Seq<char>)
    ensures
        (forall|op: Operation| registered.contains(op) ==> op.wire_name() != name) ==> route_of(
            registered,
            name,
        ) == Err::<Operation, CallError>(CallError::OperationNotFound),
        forall|op: Operation|
            registered.contains(op) && op.wire_name() == name ==> route_of(registered, name) == Ok::<
                Operation,
                CallError,
            >(op),
{
    lemma_names_distinct(Operation::TestFunction, Operation::TestUnary);
    lemma_names_distinct(Operation::TestFunction, Operation::TestDecode);
    lemma_names_distinct(Operation::TestUnary, Operation::TestDecode);
}

} // verus!
