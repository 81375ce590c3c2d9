use nca_cli::export::{
    export_event_log_markdown, export_session_html, export_session_markdown, html_for_content,
    image_src, markdown_for_content, message_included, resolve_session_query, ContentPart,
    ExportedSession, Message, MessageContent, ResolveError, Role, ToolCall,
};
use nca_cli::render::{DiffRenderer, MarkdownRenderer};
use nca_cli::session::{SessionStatus, UtcTime};

fn message(role: Role, text: &str) -> Message {
    Message {
        role,
        content: MessageContent::Text(text.to_string()),
        tool_call_id: None,
        tool_calls: None,
    }
}

fn session(messages: Vec<Message>) -> ExportedSession {
    ExportedSession {
        id: "s-1".to_string(),
        model: "MiniMax-M2.5".to_string(),
        status: SessionStatus::Completed,
        updated_at: UtcTime { secs: 0, nanos: 0 },
        workspace: "/work".to_string(),
        total_input_tokens: 12,
        total_output_tokens: 34,
        estimated_cost_ten_thousandths: 199,
        messages,
    }
}

fn ids(v: &[&str]) -> Vec<String> {
    v.iter().map(|s| s.to_string()).collect()
}

#[test]
fn included_messages_follow_the_flags() {
    assert!(message_included(&message(Role::User, "x"), false, false));
    assert!(message_included(&message(Role::Assistant, "x"), false, false));
    assert!(!message_included(&message(Role::System, "x"), false, true));
    assert!(message_included(&message(Role::System, "x"), true, false));
    assert!(!message_included(&message(Role::Tool, "x"), true, false));
    assert!(message_included(&message(Role::Tool, "x"), false, true));
}

#[test]
fn images_are_linked_or_inlined_as_base64() {
    assert_eq!(image_src("img/a.png", "image/png", false, b"hi"), "img/a.png");
    assert_eq!(image_src("img/a.png", "image/png", true, b"hi"), "data:image/png;base64,aGk=");
    assert_eq!(image_src("x", "image/gif", true, b"Man"), "data:image/gif;base64,TWFu");
    assert_eq!(image_src("x", "image/gif", true, b"M"), "data:image/gif;base64,TQ==");
    assert_eq!(image_src("x", "image/gif", true, b""), "data:image/gif;base64,");
    assert_eq!(image_src("x", "image/gif", true, &[0xfb, 0xff, 0xbf]), "data:image/gif;base64,+/+/");
}

#[test]
fn content_parts_render_as_markdown_and_html() {
    let parts = MessageContent::Parts(vec![
        ContentPart::Text { text: "a < b".to_string() },
        ContentPart::Image {
            media_type: "image/png".to_string(),
            path: "shots/x.png".to_string(),
            data: Vec::new(),
        },
    ]);
    assert_eq!(markdown_for_content(&parts, false), "a < b\n![x.png](shots/x.png)\n\n");
    assert_eq!(
        html_for_content(&parts, false),
        "<div class=\"parts\"><div class=\"text\">a &lt; b</div><figure class=\"img\"><img src=\"shots/x.png\" alt=\"shots/x.png\"/></figure></div>"
    );
    let text = MessageContent::Text("x\ny".to_string());
    assert_eq!(html_for_content(&text, false), "<div class=\"text\">x<br/>\ny</div>");
}

#[test]
fn markdown_export_lists_header_and_included_messages() {
    let mut tool_msg = message(Role::Assistant, "done");
    tool_msg.tool_calls = Some(vec![ToolCall {
        id: "c1".to_string(),
        name: "bash".to_string(),
        arguments: "{}".to_string(),
    }]);
    let mut result = message(Role::Tool, "ok");
    result.tool_call_id = Some("c1".to_string());
    let s = session(vec![message(Role::System, "sys"), message(Role::User, "hi"), tool_msg, result]);
    let md = export_session_markdown(&s, false, true, false);
    let expected = "# Session `s-1`\n\n\
- **Workspace:** `/work`\n\
- **Model:** MiniMax-M2.5\n\
- **Status:** Completed\n\
- **Updated:** 1970-01-01 00:00:00 UTC\n\
- **Tokens:** in 12 / out 34 (~$0.0199)\n\n\
## User (#1)\n\nhi\n\n---\n\n\
## Assistant (#2)\n\n**Tool calls:**\n\n- `bash` (`c1`)\n\n```json\n{}\n```\n\ndone\n\n---\n\n\
## Tool (#3)\n\n`tool_call_id`: `c1`\n\nok\n\n---\n\n";
    assert_eq!(md, expected);
}

#[test]
fn html_export_escapes_and_wraps_messages() {
    let s = session(vec![message(Role::User, "<hi>")]);
    let html = export_session_html(&s, false, false, false);
    assert!(html.starts_with("<!DOCTYPE html>\n<html lang=\"en\">\n<head>\n  <meta charset=\"utf-8\"/>\n  <title>nca session s-1</title>\n  <style>\n"));
    assert!(html.contains("<p>MiniMax-M2.5 · Completed · in 12 / out 34 tokens (~$0.0199)</p>\n  <section class=\"msg\"><h2>User <span class=\"idx\">#0</span></h2><div class=\"text\">&lt;hi&gt;</div></section>\n</body>\n</html>\n"));
}

#[test]
fn session_queries_resolve_exactly_or_by_unique_prefix() {
    let all = ids(&["abc-1", "abd-2", "abc-3"]);
    assert_eq!(resolve_session_query(&all, "abc-1"), Ok("abc-1".to_string()));
    assert_eq!(resolve_session_query(&all, "abd"), Ok("abd-2".to_string()));
    assert_eq!(resolve_session_query(&all, ""), Err(ResolveError::Empty));
    assert_eq!(resolve_session_query(&all, "zz"), Err(ResolveError::NoMatch));
    assert_eq!(
        resolve_session_query(&ids(&["abc-3", "abd-2", "abc-1"]), "abc"),
        Err(ResolveError::Ambiguous { count: 2, first: "abc-1".to_string(), second: "abc-3".to_string() })
    );
    assert_eq!(
        resolve_session_query(&ids(&["x1", "x1"]), "x"),
        Err(ResolveError::Ambiguous { count: 2, first: "x1".to_string(), second: "x1".to_string() })
    );
}

#[test]
fn event_log_exports_messages_and_tool_calls() {
    let raw = "{\"kind\":\"MessageReceived\",\"role\":\"user\",\"content\":\"hi\"}\nnot json\n{\"kind\":\"ToolCallStarted\",\"tool\":\"bash\"}\n{\"kind\":\"Other\"}\n{\"kind\":\"MessageReceived\"}";
    assert_eq!(
        export_event_log_markdown("s1", raw),
        "# Session s1\n\n## user\n\nhi\n\n### tool: bash\n\n## ?\n\n\n"
    );
    assert_eq!(export_event_log_markdown("s2", ""), "# Session s2\n");
}

#[test]
fn diff_renderer_writes_a_unified_diff() {
    let d = DiffRenderer::new();
    assert_eq!(
        d.render("a\nb\n", "a\nc\n"),
        "--- before\n+++ after\n@@ -1,2 +1,2 @@\n a\n-b\n+c\n"
    );
}

#[test]
fn markdown_renderer_keeps_the_text_and_styles_bold_and_fences() {
    let m = MarkdownRenderer::new();
    assert_eq!(m.render("hello"), "hello");
    assert_eq!(m.render("# title"), "# title");
    assert_eq!(m.render("a **b** c"), "a \u{1b}[1mb\u{1b}[22m c");
    assert_eq!(m.render("x\n```rust\ny"), "x\n\u{1b}[2m```rust\u{1b}[22m\ny");
    assert_eq!(m.render(""), "");
}
