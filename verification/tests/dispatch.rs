use wapc_fixture::codec::{deserialize_text, serialize_text};
use wapc_fixture::dispatch::{namespace, Handlers, Operation, Request, Response};
use wapc_fixture::handlers::{test_decode, test_function, test_unary};
use wapc_fixture::records::{
    CallError, FloatText, HandlerResult, Lists, Maps, Optional, Required, TestFunctionArgs, Tests,
    Thing,
};

type Registry = Handlers<
    fn(Required, Optional, Maps, Lists) -> HandlerResult<Tests>,
    fn(Tests) -> HandlerResult<Tests>,
    fn(Tests, FloatText) -> HandlerResult<String>,
>;

fn failing_unary(_tests: Tests) -> HandlerResult<Tests> {
    Err(CallError::Handler("handler gave up".to_string()))
}

fn emptying_unary(_tests: Tests) -> HandlerResult<Tests> {
    Ok(Tests::default())
}

fn bundle() -> Tests {
    let mut tests = Tests::default();
    tests.required.u32_value = 77;
    tests.required.string_value = "x".to_string();
    tests.optional.object_value = Some(Thing { value: "o".to_string() });
    tests.lists.list_u64s = vec![1, 2, 3];
    tests.maps.map_u64_primative.insert(4, 5);
    tests
}

fn zero_floats() -> FloatText {
    FloatText { f32_value: "0e0".to_string(), f64_value: "0e0".to_string() }
}

fn all_registered() -> Registry {
    let mut handlers = Registry::new();
    handlers.register_test_function(test_function);
    handlers.register_test_unary(test_unary);
    handlers.register_test_decode(test_decode);
    handlers
}

#[test]
fn names_are_exact() {
    assert_eq!(namespace(), "tests");
    assert_eq!(Operation::TestFunction.name(), "testFunction");
    assert_eq!(Operation::TestUnary.name(), "testUnary");
    assert_eq!(Operation::TestDecode.name(), "testDecode");
}

#[test]
fn from_name_is_case_sensitive() {
    assert_eq!(Operation::from_name("testFunction"), Some(Operation::TestFunction));
    assert_eq!(Operation::from_name("testUnary"), Some(Operation::TestUnary));
    assert_eq!(Operation::from_name("testDecode"), Some(Operation::TestDecode));
    assert_eq!(Operation::from_name("testdecode"), None);
    assert_eq!(Operation::from_name("TestUnary"), None);
    assert_eq!(Operation::from_name("testUnary "), None);
    assert_eq!(Operation::from_name(""), None);
}

#[test]
fn empty_registry_refuses_every_name() {
    let handlers = Registry::new();
    assert_eq!(handlers.route("testFunction"), Err(CallError::OperationNotFound));
    assert_eq!(handlers.route("testUnary"), Err(CallError::OperationNotFound));
    assert_eq!(handlers.route("testDecode"), Err(CallError::OperationNotFound));
    assert_eq!(handlers.route("other"), Err(CallError::OperationNotFound));
}

#[test]
fn registration_adds_one_operation() {
    let mut handlers = Registry::new();
    handlers.register_test_unary(test_unary);
    assert!(handlers.is_registered(Operation::TestUnary));
    assert!(!handlers.is_registered(Operation::TestFunction));
    assert!(!handlers.is_registered(Operation::TestDecode));
    assert_eq!(handlers.route("testUnary"), Ok(Operation::TestUnary));
    assert_eq!(handlers.route("testDecode"), Err(CallError::OperationNotFound));
}

#[test]
fn registering_again_replaces_the_handler() {
    let mut handlers = Registry::new();
    handlers.register_test_unary(test_unary);
    handlers.register_test_unary(emptying_unary);
    assert!(handlers.is_registered(Operation::TestUnary));
    assert!(!handlers.is_registered(Operation::TestFunction));
    assert_eq!(
        handlers.invoke(Request::TestUnary(bundle())),
        Ok(Response::Bundle(Tests::default()))
    );
}

#[test]
fn handler_error_ends_the_call() {
    let mut handlers = Registry::new();
    handlers.register_test_unary(failing_unary);
    assert_eq!(
        handlers.invoke(Request::TestUnary(bundle())),
        Err(CallError::Handler("handler gave up".to_string()))
    );
}

#[test]
fn full_registry_routes_the_three_names_only() {
    let handlers = all_registered();
    assert_eq!(handlers.route("testFunction"), Ok(Operation::TestFunction));
    assert_eq!(handlers.route("testUnary"), Ok(Operation::TestUnary));
    assert_eq!(handlers.route("testDecode"), Ok(Operation::TestDecode));
    assert_eq!(handlers.route("testNothing"), Err(CallError::OperationNotFound));
    assert_eq!(handlers.route("TESTUNARY"), Err(CallError::OperationNotFound));
}

#[test]
fn registry_without_the_decode_handler() {
    let mut handlers = Registry::new();
    handlers.register_test_function(test_function);
    handlers.register_test_unary(test_unary);
    assert_eq!(handlers.route("testDecode"), Err(CallError::OperationNotFound));
    assert_eq!(
        handlers.invoke(Request::TestDecode(bundle(), zero_floats())),
        Err(CallError::OperationNotFound)
    );
    assert_eq!(handlers.invoke(Request::TestUnary(bundle())), Ok(Response::Bundle(bundle())));
}

#[test]
fn request_knows_its_operation() {
    assert_eq!(Request::TestUnary(bundle()).operation(), Operation::TestUnary);
    assert_eq!(
        Request::TestFunction(TestFunctionArgs::default()).operation(),
        Operation::TestFunction
    );
    assert_eq!(
        Request::TestDecode(bundle(), zero_floats()).operation(),
        Operation::TestDecode
    );
}

#[test]
fn invoke_runs_the_unary_handler() {
    let handlers = all_registered();
    assert_eq!(handlers.invoke(Request::TestUnary(bundle())), Ok(Response::Bundle(bundle())));
}

#[test]
fn invoke_runs_the_function_handler() {
    let handlers = all_registered();
    let tests = bundle();
    let args = TestFunctionArgs {
        required: tests.required.clone(),
        optional: tests.optional.clone(),
        maps: tests.maps.clone(),
        lists: tests.lists.clone(),
    };
    assert_eq!(handlers.invoke(Request::TestFunction(args)), Ok(Response::Bundle(tests)));
}

#[test]
fn invoke_runs_the_decode_handler() {
    let handlers = all_registered();
    let mut tests = Tests::default();
    tests.required.string_value = "x".to_string();
    assert_eq!(
        handlers.invoke(Request::TestDecode(tests, zero_floats())),
        Ok(Response::Text("{\nfalse\n0\n0\n0\n0\n0\n0\n0\n0\n0e0\n0e0\nx\nx\n}".to_string()))
    );
}

#[test]
fn invoke_on_an_empty_registry_is_not_found() {
    let handlers = Registry::new();
    assert_eq!(handlers.invoke(Request::TestUnary(bundle())), Err(CallError::OperationNotFound));
    assert_eq!(
        handlers.invoke(Request::TestFunction(TestFunctionArgs::default())),
        Err(CallError::OperationNotFound)
    );
}

#[test]
fn reply_kinds() {
    assert!(Operation::TestDecode.replies_with_text());
    assert!(!Operation::TestUnary.replies_with_text());
    assert!(!Operation::TestFunction.replies_with_text());
}

#[test]
fn decode_reply_survives_the_wire() {
    let handlers = all_registered();
    let mut tests = Tests::default();
    tests.required.string_value = "x".to_string();
    let reply = match handlers.invoke(Request::TestDecode(tests, zero_floats())) {
        Ok(Response::Text(text)) => text,
        other => panic!("unexpected outcome: {:?}", other),
    };
    let payload = serialize_text(&reply).unwrap();
    assert_eq!(&payload[..3], &[0xd9, 37, b'{']);
    assert_eq!(payload.len(), 39);
    assert_eq!(
        deserialize_text(&payload),
        Ok("{\nfalse\n0\n0\n0\n0\n0\n0\n0\n0\n0e0\n0e0\nx\nx\n}".to_string())
    );
}
