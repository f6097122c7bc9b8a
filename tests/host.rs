use now_server::content::{Payload, PromptRole, ToolContent};
use now_server::dispatch::{Answer, Request, RequestId, RpcError};
use now_server::now::{Behavior, ContextServerState, LineOutcome, NowPrompt, NowTool};

fn state() -> ContextServerState {
    ContextServerState::new("now_server".to_string(), "0.1.0".to_string())
}

fn call(id: i64, method: &str, name: Option<&str>) -> Request {
    Request {
        id: Some(RequestId::Number(id)),
        method: method.to_string(),
        name: name.map(|n| n.to_string()),
        arguments: None,
    }
}

#[test]
fn call_now_tool_gives_non_empty_text() {
    let resp = state().process_request(call(1, "tools/call", Some("now"))).unwrap();
    assert!(matches!(resp.id, RequestId::Number(1)));
    match resp.result {
        Ok(Answer::Invoked(Payload::Tool(v))) => {
            assert_eq!(v.len(), 1);
            let ToolContent::Text { text } = &v[0];
            assert!(!text.is_empty());
            assert!(text.starts_with("Current local time: "));
        }
        _ => panic!("expected the tool's content"),
    }
}

#[test]
fn get_now_prompt_gives_one_user_message() {
    let resp = state().process_request(call(2, "prompts/get", Some("Now"))).unwrap();
    match resp.result {
        Ok(Answer::Invoked(Payload::Prompt(p))) => {
            assert_eq!(p.description, "Current time information");
            assert_eq!(p.messages.len(), 1);
            assert_eq!(p.messages[0].role, PromptRole::User);
            assert!(p.messages[0].text.contains("Week of the year: "));
        }
        _ => panic!("expected the prompt"),
    }
}

#[test]
fn call_missing_tool_is_not_found() {
    let resp = state().process_request(call(3, "tools/call", Some("missing"))).unwrap();
    assert!(matches!(resp.result, Err(RpcError::NotFound { .. })));
}

#[test]
fn host_lists_its_tool_and_prompt() {
    let s = state();
    match s.process_request(call(4, "tools/list", None)).unwrap().result {
        Ok(Answer::Listing { descriptors, .. }) => {
            assert_eq!(descriptors.len(), 1);
            assert_eq!(descriptors[0].name, "now");
            assert_eq!(
                descriptors[0].description.as_deref(),
                Some("Retrieve the current local time, week of the year, and day of the week.")
            );
            assert_eq!(descriptors[0].schema, "{\"properties\":{},\"type\":\"object\"}");
        }
        _ => panic!("expected a listing"),
    }
    match s.process_request(call(5, "prompts/list", None)).unwrap().result {
        Ok(Answer::Listing { descriptors, .. }) => {
            assert_eq!(descriptors.len(), 1);
            assert_eq!(descriptors[0].name, "Now");
            assert_eq!(descriptors[0].description, None);
            assert_eq!(descriptors[0].schema, "[]");
        }
        _ => panic!("expected a listing"),
    }
    assert!(matches!(s.rpc.tools.lookup(&"now".to_string()).unwrap().behavior, Behavior::NowTool(_)));
    assert_eq!(s.rpc.resources.len(), 0);
}

#[test]
fn malformed_line_then_valid_request_gives_one_response() {
    let s = state();
    let first = s.handle_line(Err("expected value at line 1 column 1".to_string()));
    match first {
        LineOutcome::Skipped { error } => assert_eq!(error, "expected value at line 1 column 1"),
        _ => panic!("expected the line to be skipped"),
    }
    let second = s.handle_line(Ok(call(6, "tools/list", None)));
    match second {
        LineOutcome::Answered(resp) => {
            assert!(matches!(resp.id, RequestId::Number(6)));
            assert!(matches!(resp.result, Ok(Answer::Listing { .. })));
        }
        _ => panic!("expected a response"),
    }
    let third = s.handle_line(Ok(call(7, "tools/call", Some("now"))));
    assert!(matches!(third, LineOutcome::Answered(_)));
}

#[test]
fn notification_line_is_quiet() {
    let s = state();
    let note = Request {
        id: None,
        method: "notifications/initialized".to_string(),
        name: None,
        arguments: None,
    };
    assert!(matches!(s.handle_line(Ok(note)), LineOutcome::Quiet));
}

#[test]
fn sample_capabilities_describe_themselves() {
    assert_eq!(NowTool.to_tool().name, "now");
    assert_eq!(NowPrompt.name(), "Now");
    assert_eq!(NowPrompt.to_prompt().name, "Now");
    assert_eq!(NowTool.execute(None).len(), 1);
    assert_eq!(NowPrompt.compute(None).messages.len(), 1);
}
