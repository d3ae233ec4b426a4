use remote_exec_broker::client::ContentBlock;
use remote_exec_broker::request_log::RequestContext;
use remote_exec_broker::tool_output::{finish_tool_call, format_tool_error_message, tool_error_result, ToolCallOutput, CallToolResult};

fn single_text<S>(result: &CallToolResult<S>) -> String {
    assert_eq!(result.content.len(), 1);
    match &result.content[0] {
        ContentBlock::Text(t) => t.clone(),
        _ => panic!("expected a text item"),
    }
}

#[test]
fn structured_content_is_sent_only_when_enabled() {
    let out = ToolCallOutput::text_and_structured("done".to_string(), "{\"ok\":true}".to_string());
    let sent = out.into_call_tool_result(true);
    assert!(!sent.is_error);
    assert_eq!(single_text(&sent), "done");
    assert_eq!(sent.structured_content.as_deref(), Some("{\"ok\":true}"));
    let out = ToolCallOutput::text_and_structured("done".to_string(), "{\"ok\":true}".to_string());
    assert!(out.into_call_tool_result(false).structured_content.is_none());
    let plain: ToolCallOutput<String> = ToolCallOutput::text("hi".to_string());
    assert!(plain.into_call_tool_result(true).structured_content.is_none());
}

#[test]
fn error_results_carry_the_message() {
    let r: CallToolResult<String> = tool_error_result("boom".to_string());
    assert!(r.is_error);
    assert_eq!(single_text(&r), "boom");
    let r: CallToolResult<String> = format_tool_error_message("boom", None);
    assert_eq!(single_text(&r), "boom");
}

#[test]
fn failed_call_is_correlated_with_its_context() {
    let mut context = RequestContext::new("req-7".to_string(), "exec_command".to_string());
    let r: CallToolResult<String> = finish_tool_call(Err("daemon unreachable".to_string()), true, &context);
    assert!(r.is_error);
    assert_eq!(single_text(&r), "request_id=req-7 tool=exec_command: daemon unreachable");
    context.set_target("builder-a".to_string());
    let r: CallToolResult<String> = finish_tool_call(Err("daemon unreachable".to_string()), true, &context);
    assert_eq!(single_text(&r), "request_id=req-7 tool=exec_command target=builder-a: daemon unreachable");
    let ok = finish_tool_call(
        Ok(ToolCallOutput::content_and_structured(vec![ContentBlock::Text("a".to_string())], 5u32)),
        true,
        &context,
    );
    assert!(!ok.is_error);
    assert_eq!(ok.structured_content, Some(5));
}
