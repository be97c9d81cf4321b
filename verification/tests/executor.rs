use ticos_gst::realtime::executor::{Executor, FunctionCall, SendFailure};

#[test]
fn test_incomplete_arguments() {
    let s = "{\"motion_tag\": \"turn_left\"}\n 好的，我现在向左转。";
    let obj = FunctionCall::try_parse_arguments(s);
    assert!(obj.is_some());
}

#[test]
fn arguments_are_found_in_chatter() {
    let call = FunctionCall::from("move", "Sure: {\"motion_tag\": \"turn_left\", \"n\": 2} done").unwrap();
    assert_eq!(call.name, "move");
    assert_eq!(call.arguments.len(), 2);
    assert_eq!(call.arguments["motion_tag"].as_str(), Some("turn_left"));
    assert_eq!(call.arguments["n"].as_u64(), Some(2));
}

#[test]
fn no_arguments() {
    assert!(FunctionCall::from("move", "").is_none());
    assert!(FunctionCall::from("move", "{").is_none());
    assert!(FunctionCall::from("move", "}").is_none());
    assert!(FunctionCall::from("move", "{not json}").is_none());
    assert!(FunctionCall::from("move", "}{").is_none());
    assert!(FunctionCall::try_parse_arguments("[1]").is_none());
}

#[test]
fn texts_that_cannot_be_searched() {
    assert!(FunctionCall::is_searchable("}{"));
    assert!(!FunctionCall::is_searchable("} {"));
    assert!(FunctionCall::is_searchable("a { b } c"));
    assert!(FunctionCall::is_searchable("nothing"));
}

#[test]
fn surroundings_are_cut_away() {
    assert_eq!(
        FunctionCall::remove_surrounding_chars("x[1, [2]] y", '[', ']'),
        Some("[1, [2]]".to_string())
    );
    assert_eq!(FunctionCall::remove_surrounding_chars("x1]", '[', ']'), None);
    assert_eq!(
        FunctionCall::remove_surrounding_chars("好{好}好", '{', '}'),
        Some("{好}".to_string())
    );
}

#[test]
fn arguments_given_or_not() {
    let arguments = FunctionCall::try_parse_arguments("{\"a\": null}");
    assert_eq!(FunctionCall::with_arguments("f", arguments).unwrap().name, "f");
    assert!(FunctionCall::with_arguments("f", None).is_none());
}

#[test]
fn executor_connects_once() {
    let mut executor = Executor::default();
    assert!(!executor.is_connected());
    let addr = Some("127.0.0.1:9999".to_string());
    assert_eq!(executor.ensure_connection(&addr).unwrap(), addr);
    assert_eq!(executor.ensure_connection(&None).unwrap_err().text, "Addr is not set");
    let err = executor.connection_attempted("127.0.0.1:9999", Err("refused".to_string())).unwrap_err();
    assert_eq!(err.text, "Failed to connect 127.0.0.1:9999, error: refused");
    assert!(!executor.is_connected());
    executor.connection_attempted("127.0.0.1:9999", Ok(())).unwrap();
    assert!(executor.is_connected());
    assert_eq!(executor.ensure_connection(&addr).unwrap(), None);
    executor.reset_connection();
    assert!(!executor.is_connected());
}

#[test]
fn messages_are_framed() {
    let mut executor = Executor::default();
    assert_eq!(executor.execute(Ok(vec![])).unwrap_err().text, "Not connected to executor");
    executor.connection_attempted("a", Ok(())).unwrap();
    assert_eq!(executor.execute(Ok(vec![7, 8, 9])).unwrap(), vec![0, 0, 0, 3, 7, 8, 9]);
    assert_eq!(
        executor.execute(Err("bad".to_string())).unwrap_err().text,
        "Failed to serialize FunctionCall: bad"
    );
}

#[test]
fn failures_to_send() {
    assert!(Executor::executed(Ok(())).is_ok());
    assert_eq!(
        Executor::executed(Err(SendFailure::Write("gone".to_string()))).unwrap_err().text,
        "Failed to send contents gone"
    );
    assert_eq!(
        Executor::executed(Err(SendFailure::Clone("gone".to_string()))).unwrap_err().text,
        "Failed to clone stream gone"
    );
}

#[test]
fn calls_are_copied() {
    let call = FunctionCall::from("f", "{\"a\": [1, 2]}").unwrap();
    let copy = call.clone();
    assert_eq!(copy.name, "f");
    assert_eq!(copy.arguments, call.arguments);
}
