//! Session transcript export as Markdown and HTML, and how a typed session id or prefix
//! is resolved.

use crate::html::{breaks_to_br, escaped, html_escape, text_to_html};
use crate::session::{
    cost_string, cost_text, dec, push_decimal, status_label, status_name, time_ok, utc_format,
    utc_format_text, SessionStatus, UtcTime,
};
use crate::session_list::{text_less, text_lt};
use crate::branch::{text_lines, text_lines_of};
use crate::text::{chars_of, eq_vec, has_prefix, starts_with_vec, string_of};
use crate::wrap::views;
use vstd::prelude::*;

verus! {

/// Who wrote a message.
#[derive(Clone, Copy, PartialEq, Eq, Debug, Structural)]
pub enum Role {
    System,
    User,
    Assistant,
    Tool,
}

/// A part of a message.
#[derive(Clone, Debug)]
pub enum ContentPart {
    Text { text: String },
    /// An image file of the workspace; `data` holds its bytes when they are to be inlined.
    Image { media_type: String, path: String, data: Vec<u8> },
}

/// The content of a message: plain text or parts.
#[derive(Clone, Debug)]
pub enum MessageContent {
    Text(String),
    Parts(Vec<ContentPart>),
}

/// A tool call made by the assistant, its arguments as pretty-printed JSON.
#[derive(Clone, Debug)]
pub struct ToolCall {
    pub id: String,
    pub name: String,
    pub arguments: String,
}

/// A message of a saved session.
#[derive(Clone, Debug)]
pub struct Message {
    pub role: Role,
    pub content: MessageContent,
    pub tool_call_id: Option<String>,
    pub tool_calls: Option<Vec<ToolCall>>,
}

/// A saved session as the exporter reads it.
#[derive(Clone, Debug)]
pub struct ExportedSession {
    pub id: String,
    pub model: String,
    pub status: SessionStatus,
    pub updated_at: UtcTime,
    pub workspace: String,
    pub total_input_tokens: u64,
    pub total_output_tokens: u64,
    /// Estimated cost in ten-thousandths of a dollar.
    pub estimated_cost_ten_thousandths: u64,
    pub messages: Vec<Message>,
}

/// The character of a six-bit value in the standard base64 alphabet (RFC 4648):
/// `A`-`Z`, `a`-`z`, `0`-`9`, `+`, `/`.
pub open spec fn b64_char(v: int) -> char {
    if v < 26 {
        (65 + v) as char
    } else if v < 52 {
        (97 + v - 26) as char
    } else if v < 62 {
        (48 + v - 52) as char
    } else if v == 62 {
        '+'
    } else {
        '/'
    }
}

/// Standard base64 with padding (RFC 4648): each group of three bytes as four characters
/// of six bits each, a final group of one or two bytes padded with `=` to four.
pub open spec fn base64_standard(bytes: Seq<u8>) -> Seq<char>
    decreases bytes.len(),
{
    if bytes.len() == 0 {
        seq![]
    } else if bytes.len() == 1 {
        let b0 = bytes[0] as int;
        seq![b64_char(b0 / 4), b64_char((b0 % 4) * 16), '=', '=']
    } else if bytes.len() == 2 {
        let b0 = bytes[0] as int;
        let b1 = bytes[1] as int;
        seq![b64_char(b0 / 4), b64_char((b0 % 4) * 16 + b1 / 16), b64_char((b1 % 16) * 4), '=']
    } else {
        let b0 = bytes[0] as int;
        let b1 = bytes[1] as int;
        let b2 = bytes[2] as int;
        seq![
            b64_char(b0 / 4),
            b64_char((b0 % 4) * 16 + b1 / 16),
            b64_char((b1 % 16) * 4 + b2 / 64),
            b64_char(b2 % 64),
        ] + base64_standard(bytes.skip(3))
    }
}

/// Encodes `bytes` with `base64::engine::general_purpose::STANDARD`; claimed: the result is
/// the standard padded base64 of the bytes (the crate's `STANDARD` engine uses the RFC 4648
/// alphabet with padding), four characters for every three bytes or part of three.
/// Inputs whose encoded length overflows (where the crate panics) are excluded.
#[verifier::external_body]
fn base64_encode(bytes: &[u8]) -> (r: String)
    requires
        bytes@.len() / 3 * 4 + 4 <= usize::MAX,
    ensures
        r@ == base64_standard(bytes@),
        r@.len() == 4 * ((bytes@.len() + 2) / 3),
{
    base64::Engine::encode(&base64::engine::general_purpose::STANDARD, bytes)
}

/// Whether a message goes into an export: system messages and tool results only when
/// asked for.
pub open spec fn included(role: Role, include_system: bool, include_tool_results: bool) -> bool {
    match role {
        Role::System => include_system,
        Role::Tool => include_tool_results,
        Role::User | Role::Assistant => true,
    }
}

/// Whether `m` goes into an export (see [`included`]).
pub fn message_included(m: &Message, include_system: bool, include_tool_results: bool) -> (b: bool)
    ensures
        b == included(m.role, include_system, include_tool_results),
{
    match m.role {
        Role::System => include_system,
        Role::Tool => include_tool_results,
        Role::User | Role::Assistant => true,
    }
}

/// The title of a role.
pub open spec fn role_title(r: Role) -> Seq<char> {
    match r {
        Role::User => "User"@,
        Role::Assistant => "Assistant"@,
        Role::System => "System"@,
        Role::Tool => "Tool"@,
    }
}

fn role_title_str(r: Role) -> (s: &'static str)
    ensures
        s@ == role_title(r),
{
    match r {
        Role::User => "User",
        Role::Assistant => "Assistant",
        Role::System => "System",
        Role::Tool => "Tool",
    }
}

/// Bytes the base64 engine can encode without overflow.
pub open spec fn encodable(bytes: Seq<u8>) -> bool {
    bytes.len() / 3 * 4 + 4 <= usize::MAX
}

/// Where an export points for an image: its path, or a `data:` URL of its bytes when
/// inlining.
pub open spec fn image_source(path: Seq<char>, media_type: Seq<char>, inline: bool, data: Seq<u8>) -> Seq<char> {
    if inline {
        "data:"@ + media_type + ";base64,"@ + base64_standard(data)
    } else {
        path
    }
}

/// The image reference of an export (see [`image_source`]).
pub fn image_src(path: &str, media_type: &str, inline: bool, data: &[u8]) -> (r: String)
    requires
        inline ==> encodable(data@),
    ensures
        r@ == image_source(path@, media_type@, inline, data@),
{
    if !inline {
        return path.to_owned();
    }
    let mut r = "data:".to_owned();
    r.append(media_type);
    r.append(";base64,");
    let b = base64_encode(data);
    r.append(b.as_str());
    r
}

/// The text after the last `/` of a path (all of it when it has none).
pub open spec fn file_name(path: Seq<char>) -> Seq<char>
    decreases path.len(),
{
    if path.len() == 0 {
        path
    } else if path.last() == '/' {
        Seq::empty()
    } else {
        file_name(path.drop_last()).push(path.last())
    }
}

fn file_name_of(path: &str) -> (r: String)
    ensures
        r@ == file_name(path@),
{
    let v = chars_of(path);
    let mut k = v.len();
    assert(v@.take(k as int) =~= v@);
    assert(v@.skip(k as int) =~= Seq::<char>::empty());
    assert(file_name(v@) =~= file_name(v@.take(k as int)) + v@.skip(k as int));
    while k > 0 && v[k - 1] != '/'
        invariant
            k <= v@.len(),
            file_name(v@) == file_name(v@.take(k as int)) + v@.skip(k as int),
        decreases k,
    {
        assert(v@.take(k as int).drop_last() =~= v@.take(k - 1));
        assert(v@.skip(k - 1) =~= seq![v@[k - 1]] + v@.skip(k as int));
        assert(file_name(v@.take(k as int)) == file_name(v@.take(k - 1)).push(v@[k - 1]));
        assert(file_name(v@.take(k - 1)) + v@.skip(k - 1) =~= file_name(v@.take(k - 1)).push(v@[k - 1])
            + v@.skip(k as int));
        k -= 1;
    }
    assert(file_name(v@.take(k as int)) =~= Seq::<char>::empty());
    let r = crate::text::slice_vec(&v, k, v.len());
    assert(r@ =~= v@.skip(k as int));
    string_of(&r)
}

/// Images of a content whose bytes are inlined can be encoded.
pub open spec fn content_encodable(c: MessageContent, inline: bool) -> bool {
    match c {
        MessageContent::Text(_) => true,
        MessageContent::Parts(ps) => forall|i: int| 0 <= i < ps@.len() ==> match #[trigger] ps@[i] {
            ContentPart::Image { data, .. } => inline ==> encodable(data@),
            _ => true,
        },
    }
}

/// The Markdown of one part: text followed by a line break; an image as `![name](src)`
/// and a blank line.
pub open spec fn part_markdown(p: ContentPart, inline: bool) -> Seq<char> {
    match p {
        ContentPart::Text { text } => text@.push('\n'),
        ContentPart::Image { media_type, path, data } => "!["@ + file_name(path@) + "]("@
            + image_source(path@, media_type@, inline, data@) + ")\n\n"@,
    }
}

/// The Markdown of the first `n` parts.
pub open spec fn parts_markdown(ps: Seq<ContentPart>, inline: bool, n: nat) -> Seq<char>
    decreases n,
{
    if n == 0 || n > ps.len() {
        Seq::empty()
    } else {
        parts_markdown(ps, inline, (n - 1) as nat) + part_markdown(ps[n - 1], inline)
    }
}

/// The Markdown of a message's content.
pub open spec fn content_markdown(c: MessageContent, inline: bool) -> Seq<char> {
    match c {
        MessageContent::Text(t) => t@,
        MessageContent::Parts(ps) => parts_markdown(ps@, inline, ps@.len()),
    }
}

/// The Markdown of a message's content (see [`content_markdown`]).
pub fn markdown_for_content(content: &MessageContent, inline_images: bool) -> (r: String)
    requires
        content_encodable(*content, inline_images),
    ensures
        r@ == content_markdown(*content, inline_images),
{
    match content {
        MessageContent::Text(t) => t.clone(),
        MessageContent::Parts(parts) => {
            let mut s = String::new();
            let mut i: usize = 0;
            while i < parts.len()
                invariant
                    i <= parts@.len(),
                    content_encodable(*content, inline_images),
                    *content == MessageContent::Parts(*parts),
                    s@ == parts_markdown(parts@, inline_images, i as nat),
                decreases parts@.len() - i,
            {
                match &parts[i] {
                    ContentPart::Text { text } => {
                        s.append(text.as_str());
                        crate::text::push_char(&mut s, '\n');
                    },
                    ContentPart::Image { media_type, path, data } => {
                        assert(inline_images ==> encodable(data@));
                        let src = image_src(path.as_str(), media_type.as_str(), inline_images, data.as_slice());
                        s.append("![");
                        s.append(file_name_of(path.as_str()).as_str());
                        s.append("](");
                        s.append(src.as_str());
                        s.append(")\n\n");
                    },
                }
                assert(s@ =~= parts_markdown(parts@, inline_images, (i + 1) as nat));
                i += 1;
            }
            s
        },
    }
}

/// The HTML of one part: text in a `text` division with line breaks kept; an image as a
/// figure.
pub open spec fn part_html(p: ContentPart, inline: bool) -> Seq<char> {
    match p {
        ContentPart::Text { text } => "<div class=\"text\">"@ + breaks_to_br(escaped(text@)) + "</div>"@,
        ContentPart::Image { media_type, path, data } => "<figure class=\"img\"><img src=\""@ + escaped(
            image_source(path@, media_type@, inline, data@),
        ) + "\" alt=\""@ + escaped(path@) + "\"/></figure>"@,
    }
}

/// The HTML of the first `n` parts.
pub open spec fn parts_html(ps: Seq<ContentPart>, inline: bool, n: nat) -> Seq<char>
    decreases n,
{
    if n == 0 || n > ps.len() {
        Seq::empty()
    } else {
        parts_html(ps, inline, (n - 1) as nat) + part_html(ps[n - 1], inline)
    }
}

/// The HTML of a message's content.
pub open spec fn content_html(c: MessageContent, inline: bool) -> Seq<char> {
    match c {
        MessageContent::Text(t) => "<div class=\"text\">"@ + breaks_to_br(escaped(t@)) + "</div>"@,
        MessageContent::Parts(ps) => "<div class=\"parts\">"@ + parts_html(ps@, inline, ps@.len())
            + "</div>"@,
    }
}

/// The HTML of a message's content (see [`content_html`]).
pub fn html_for_content(content: &MessageContent, inline_images: bool) -> (r: String)
    requires
        content_encodable(*content, inline_images),
    ensures
        r@ == content_html(*content, inline_images),
{
    match content {
        MessageContent::Text(t) => {
            let mut s = "<div class=\"text\">".to_owned();
            s.append(text_to_html(t.as_str()).as_str());
            s.append("</div>");
            s
        },
        MessageContent::Parts(parts) => {
            let mut s = "<div class=\"parts\">".to_owned();
            let ghost head = s@;
            let mut i: usize = 0;
            while i < parts.len()
                invariant
                    i <= parts@.len(),
                    content_encodable(*content, inline_images),
                    *content == MessageContent::Parts(*parts),
                    head == "<div class=\"parts\">"@,
                    s@ == head + parts_html(parts@, inline_images, i as nat),
                decreases parts@.len() - i,
            {
                match &parts[i] {
                    ContentPart::Text { text } => {
                        s.append("<div class=\"text\">");
                        s.append(text_to_html(text.as_str()).as_str());
                        s.append("</div>");
                    },
                    ContentPart::Image { media_type, path, data } => {
                        assert(inline_images ==> encodable(data@));
                        let src = image_src(path.as_str(), media_type.as_str(), inline_images, data.as_slice());
                        s.append("<figure class=\"img\"><img src=\"");
                        s.append(html_escape(src.as_str()).as_str());
                        s.append("\" alt=\"");
                        s.append(html_escape(path.as_str()).as_str());
                        s.append("\"/></figure>");
                    },
                }
                assert(s@ =~= head + parts_html(parts@, inline_images, (i + 1) as nat));
                i += 1;
            }
            s.append("</div>");
            s
        },
    }
}

/// The Markdown of the first `n` tool calls.
pub open spec fn calls_markdown(calls: Seq<ToolCall>, n: nat) -> Seq<char>
    decreases n,
{
    if n == 0 || n > calls.len() {
        Seq::empty()
    } else {
        let c = calls[n - 1];
        calls_markdown(calls, (n - 1) as nat) + "- `"@ + c.name@ + "` (`"@ + c.id@ + "`)\n\n```json\n"@
            + c.arguments@ + "\n```\n\n"@
    }
}

/// The Markdown section of message number `i`: heading, tool call id, tool calls,
/// content and a rule.
pub open spec fn message_markdown(m: Message, i: nat, inline: bool) -> Seq<char> {
    "## "@ + role_title(m.role) + " (#"@ + dec(i) + ")\n\n"@ + match m.tool_call_id {
        Some(id) => "`tool_call_id`: `"@ + id@ + "`\n\n"@,
        None => Seq::empty(),
    } + match m.tool_calls {
        Some(calls) => "**Tool calls:**\n\n"@ + calls_markdown(calls@, calls@.len()),
        None => Seq::empty(),
    } + content_markdown(m.content, inline) + "\n\n---\n\n"@
}

/// The Markdown sections of the included messages among the first `n`.
pub open spec fn messages_markdown(ms: Seq<Message>, sys: bool, tools: bool, inline: bool, n: nat) -> Seq<
    char,
>
    decreases n,
{
    if n == 0 || n > ms.len() {
        Seq::empty()
    } else {
        messages_markdown(ms, sys, tools, inline, (n - 1) as nat) + if included(ms[n - 1].role, sys, tools) {
            message_markdown(ms[n - 1], (n - 1) as nat, inline)
        } else {
            Seq::empty()
        }
    }
}

/// The strftime pattern of the export's update time.
pub open spec fn export_time_pattern() -> Seq<char> {
    "%Y-%m-%d %H:%M:%S UTC"@
}

/// The head of a Markdown export: id, workspace, model, status, update time, tokens and
/// cost.
pub open spec fn markdown_header(s: ExportedSession) -> Seq<char> {
    "# Session `"@ + s.id@ + "`\n\n- **Workspace:** `"@ + s.workspace@ + "`\n- **Model:** "@ + s.model@
        + "\n- **Status:** "@ + status_name(s.status) + "\n- **Updated:** "@ + utc_format_text(
        s.updated_at.secs,
        s.updated_at.nanos,
        export_time_pattern(),
    ) + "\n- **Tokens:** in "@ + dec(s.total_input_tokens as nat) + " / out "@ + dec(
        s.total_output_tokens as nat,
    ) + " (~"@ + cost_text(s.estimated_cost_ten_thousandths as nat) + ")\n\n"@
}

/// A session's Markdown export.
pub open spec fn session_markdown(s: ExportedSession, sys: bool, tools: bool, inline: bool) -> Seq<char> {
    markdown_header(s) + messages_markdown(s.messages@, sys, tools, inline, s.messages@.len())
}

/// The session can be exported: its update time is in the calendar's range and the images
/// to inline can be encoded.
pub open spec fn exportable(s: ExportedSession, inline: bool) -> bool {
    &&& time_ok(s.updated_at)
    &&& forall|i: int| 0 <= i < s.messages@.len() ==> content_encodable(
        #[trigger] s.messages@[i].content,
        inline,
    )
}

fn push_calls_markdown(out: &mut String, calls: &Vec<ToolCall>)
    ensures
        final(out)@ == old(out)@ + calls_markdown(calls@, calls@.len()),
{
    let ghost o = out@;
    let mut i: usize = 0;
    while i < calls.len()
        invariant
            i <= calls@.len(),
            out@ == o + calls_markdown(calls@, i as nat),
        decreases calls@.len() - i,
    {
        let c = &calls[i];
        out.append("- `");
        out.append(c.name.as_str());
        out.append("` (`");
        out.append(c.id.as_str());
        out.append("`)\n\n```json\n");
        out.append(c.arguments.as_str());
        out.append("\n```\n\n");
        assert(out@ =~= o + calls_markdown(calls@, (i + 1) as nat));
        i += 1;
    }
}

fn push_markdown_meta(out: &mut String, m: &Message)
    ensures
        final(out)@ == old(out)@ + match m.tool_call_id {
            Some(id) => "`tool_call_id`: `"@ + id@ + "`\n\n"@,
            None => Seq::empty(),
        } + match m.tool_calls {
            Some(calls) => "**Tool calls:**\n\n"@ + calls_markdown(calls@, calls@.len()),
            None => Seq::empty(),
        },
{
    let ghost o = out@;
    if let Some(id) = &m.tool_call_id {
        out.append("`tool_call_id`: `");
        out.append(id.as_str());
        out.append("`\n\n");
    }
    let ghost mid = out@;
    if let Some(calls) = &m.tool_calls {
        out.append("**Tool calls:**\n\n");
        push_calls_markdown(out, calls);
    }
    assert(out@ =~= o + (mid.skip(o.len() as int)) + out@.skip(mid.len() as int));
}

#[verifier::rlimit(30)]
fn push_message_markdown(out: &mut String, m: &Message, i: usize, inline: bool)
    requires
        content_encodable(m.content, inline),
    ensures
        final(out)@ == old(out)@ + message_markdown(*m, i as nat, inline),
{
    let ghost o = out@;
    out.append("## ");
    out.append(role_title_str(m.role));
    out.append(" (#");
    push_decimal(out, i as u64);
    out.append(")\n\n");
    push_markdown_meta(out, m);
    let body = markdown_for_content(&m.content, inline);
    out.append(body.as_str());
    out.append("\n\n---\n\n");
    assert(out@ =~= o + message_markdown(*m, i as nat, inline));
}

/// A session's Markdown export (see [`session_markdown`]).
pub fn export_session_markdown(
    state: &ExportedSession,
    include_system: bool,
    include_tool_results: bool,
    inline_images: bool,
) -> (r: String)
    requires
        exportable(*state, inline_images),
    ensures
        r@ == session_markdown(*state, include_system, include_tool_results, inline_images),
{
    let mut out = "# Session `".to_owned();
    out.append(state.id.as_str());
    out.append("`\n\n- **Workspace:** `");
    out.append(state.workspace.as_str());
    out.append("`\n- **Model:** ");
    out.append(state.model.as_str());
    out.append("\n- **Status:** ");
    out.append(status_label(state.status));
    out.append("\n- **Updated:** ");
    let updated = utc_format(state.updated_at.secs, state.updated_at.nanos, "%Y-%m-%d %H:%M:%S UTC");
    out.append(updated.as_str());
    out.append("\n- **Tokens:** in ");
    push_decimal(&mut out, state.total_input_tokens);
    out.append(" / out ");
    push_decimal(&mut out, state.total_output_tokens);
    out.append(" (~");
    out.append(cost_string(state.estimated_cost_ten_thousandths).as_str());
    out.append(")\n\n");
    assert(out@ =~= markdown_header(*state));
    let ghost head = out@;
    let mut i: usize = 0;
    while i < state.messages.len()
        invariant
            i <= state.messages@.len(),
            exportable(*state, inline_images),
            out@ == head + messages_markdown(
                state.messages@,
                include_system,
                include_tool_results,
                inline_images,
                i as nat,
            ),
        decreases state.messages@.len() - i,
    {
        let m = &state.messages[i];
        if message_included(m, include_system, include_tool_results) {
            assert(content_encodable(state.messages@[i as int].content, inline_images));
            push_message_markdown(&mut out, m, i, inline_images);
        }
        assert(out@ =~= head + messages_markdown(
            state.messages@,
            include_system,
            include_tool_results,
            inline_images,
            (i + 1) as nat,
        ));
        i += 1;
    }
    out
}

/// The HTML of the first `n` tool calls.
pub open spec fn calls_html(calls: Seq<ToolCall>, n: nat) -> Seq<char>
    decreases n,
{
    if n == 0 || n > calls.len() {
        Seq::empty()
    } else {
        let c = calls[n - 1];
        calls_html(calls, (n - 1) as nat) + "<li><code>"@ + escaped(c.name@) + "</code> <span class=\"id\">"@
            + escaped(c.id@) + "</span><pre>"@ + escaped(c.arguments@) + "</pre></li>"@
    }
}

/// The HTML section of message number `i`.
pub open spec fn message_html(m: Message, i: nat, inline: bool) -> Seq<char> {
    "<section class=\"msg\"><h2>"@ + escaped(role_title(m.role)) + " <span class=\"idx\">#"@ + dec(i)
        + "</span></h2>"@ + match m.tool_call_id {
        Some(id) => "<p class=\"meta\"><code>tool_call_id</code>: "@ + escaped(id@) + "</p>"@,
        None => Seq::empty(),
    } + match m.tool_calls {
        Some(calls) => "<div class=\"tool-calls\"><h3>Tool calls</h3><ul>"@ + calls_html(
            calls@,
            calls@.len(),
        ) + "</ul></div>"@,
        None => Seq::empty(),
    } + content_html(m.content, inline) + "</section>"@
}

/// The HTML sections of the included messages among the first `n`.
pub open spec fn messages_html(ms: Seq<Message>, sys: bool, tools: bool, inline: bool, n: nat) -> Seq<char>
    decreases n,
{
    if n == 0 || n > ms.len() {
        Seq::empty()
    } else {
        messages_html(ms, sys, tools, inline, (n - 1) as nat) + if included(ms[n - 1].role, sys, tools) {
            message_html(ms[n - 1], (n - 1) as nat, inline)
        } else {
            Seq::empty()
        }
    }
}

/// The style sheet of an HTML export.
pub open spec fn html_style() -> Seq<char> {
    "  <style>\n    body { font-family: system-ui, sans-serif; max-width: 52rem; margin: 2rem auto; line-height: 1.5; }\n    h1 { font-size: 1.25rem; }\n    section.msg { border-bottom: 1px solid #ccc; padding: 1rem 0; }\n    pre { background: #f6f8fa; padding: 0.75rem; overflow-x: auto; }\n    img { max-width: 100%; height: auto; }\n    .idx { color: #666; font-weight: normal; font-size: 0.9em; }\n  </style>\n"@
}

/// A session's HTML export: a page with the id, model, status, tokens and cost, then the
/// included messages.
pub open spec fn session_html(s: ExportedSession, sys: bool, tools: bool, inline: bool) -> Seq<char> {
    "<!DOCTYPE html>\n<html lang=\"en\">\n<head>\n  <meta charset=\"utf-8\"/>\n  <title>nca session "@
        + escaped(s.id@) + "</title>\n"@ + html_style() + "</head>\n<body>\n  <h1>Session <code>"@
        + escaped(s.id@) + "</code></h1>\n  <p>"@ + escaped(s.model@) + " · "@ + escaped(status_name(s.status))
        + " · in "@ + dec(s.total_input_tokens as nat) + " / out "@ + dec(s.total_output_tokens as nat)
        + " tokens (~"@ + cost_text(s.estimated_cost_ten_thousandths as nat) + ")</p>\n  "@
        + messages_html(s.messages@, sys, tools, inline, s.messages@.len()) + "\n</body>\n</html>\n"@
}

fn push_calls_html(out: &mut String, calls: &Vec<ToolCall>)
    ensures
        final(out)@ == old(out)@ + calls_html(calls@, calls@.len()),
{
    let ghost o = out@;
    let mut i: usize = 0;
    while i < calls.len()
        invariant
            i <= calls@.len(),
            out@ == o + calls_html(calls@, i as nat),
        decreases calls@.len() - i,
    {
        let c = &calls[i];
        out.append("<li><code>");
        out.append(html_escape(c.name.as_str()).as_str());
        out.append("</code> <span class=\"id\">");
        out.append(html_escape(c.id.as_str()).as_str());
        out.append("</span><pre>");
        out.append(html_escape(c.arguments.as_str()).as_str());
        out.append("</pre></li>");
        assert(out@ =~= o + calls_html(calls@, (i + 1) as nat));
        i += 1;
    }
}

fn push_html_heading(out: &mut String, role: Role, i: usize)
    ensures
        final(out)@ == old(out)@ + "<section class=\"msg\"><h2>"@ + escaped(role_title(role))
            + " <span class=\"idx\">#"@ + dec(i as nat) + "</span></h2>"@,
{
    out.append("<section class=\"msg\"><h2>");
    out.append(html_escape(role_title_str(role)).as_str());
    out.append(" <span class=\"idx\">#");
    push_decimal(out, i as u64);
    out.append("</span></h2>");
}

fn push_html_meta(out: &mut String, m: &Message)
    ensures
        final(out)@ == old(out)@ + match m.tool_call_id {
            Some(id) => "<p class=\"meta\"><code>tool_call_id</code>: "@ + escaped(id@) + "</p>"@,
            None => Seq::empty(),
        } + match m.tool_calls {
            Some(calls) => "<div class=\"tool-calls\"><h3>Tool calls</h3><ul>"@ + calls_html(
                calls@,
                calls@.len(),
            ) + "</ul></div>"@,
            None => Seq::empty(),
        },
{
    let ghost o = out@;
    if let Some(id) = &m.tool_call_id {
        out.append("<p class=\"meta\"><code>tool_call_id</code>: ");
        out.append(html_escape(id.as_str()).as_str());
        out.append("</p>");
    }
    let ghost mid = out@;
    if let Some(calls) = &m.tool_calls {
        out.append("<div class=\"tool-calls\"><h3>Tool calls</h3><ul>");
        push_calls_html(out, calls);
        out.append("</ul></div>");
    }
    assert(out@ =~= o + (mid.skip(o.len() as int)) + out@.skip(mid.len() as int));
}

fn push_message_html(out: &mut String, m: &Message, i: usize, inline: bool)
    requires
        content_encodable(m.content, inline),
    ensures
        final(out)@ == old(out)@ + message_html(*m, i as nat, inline),
{
    let ghost o = out@;
    push_html_heading(out, m.role, i);
    push_html_meta(out, m);
    let body = html_for_content(&m.content, inline);
    out.append(body.as_str());
    out.append("</section>");
    assert(out@ =~= o + message_html(*m, i as nat, inline));
}

/// A session's HTML export (see [`session_html`]).
pub fn export_session_html(
    state: &ExportedSession,
    include_system: bool,
    include_tool_results: bool,
    inline_images: bool,
) -> (r: String)
    requires
        exportable(*state, inline_images),
    ensures
        r@ == session_html(*state, include_system, include_tool_results, inline_images),
{
    let mut blocks = String::new();
    let mut i: usize = 0;
    while i < state.messages.len()
        invariant
            i <= state.messages@.len(),
            exportable(*state, inline_images),
            blocks@ == messages_html(state.messages@, include_system, include_tool_results, inline_images, i as nat),
        decreases state.messages@.len() - i,
    {
        let m = &state.messages[i];
        if message_included(m, include_system, include_tool_results) {
            assert(content_encodable(state.messages@[i as int].content, inline_images));
            push_message_html(&mut blocks, m, i, inline_images);
        }
        assert(blocks@ =~= messages_html(
            state.messages@,
            include_system,
            include_tool_results,
            inline_images,
            (i + 1) as nat,
        ));
        i += 1;
    }
    let id = html_escape(state.id.as_str());
    let mut doc = "<!DOCTYPE html>\n<html lang=\"en\">\n<head>\n  <meta charset=\"utf-8\"/>\n  <title>nca session ".to_owned();
    doc.append(id.as_str());
    doc.append("</title>\n");
    doc.append("  <style>\n    body { font-family: system-ui, sans-serif; max-width: 52rem; margin: 2rem auto; line-height: 1.5; }\n    h1 { font-size: 1.25rem; }\n    section.msg { border-bottom: 1px solid #ccc; padding: 1rem 0; }\n    pre { background: #f6f8fa; padding: 0.75rem; overflow-x: auto; }\n    img { max-width: 100%; height: auto; }\n    .idx { color: #666; font-weight: normal; font-size: 0.9em; }\n  </style>\n");
    doc.append("</head>\n<body>\n  <h1>Session <code>");
    doc.append(id.as_str());
    doc.append("</code></h1>\n  <p>");
    doc.append(html_escape(state.model.as_str()).as_str());
    doc.append(" · ");
    doc.append(html_escape(status_label(state.status)).as_str());
    doc.append(" · in ");
    push_decimal(&mut doc, state.total_input_tokens);
    doc.append(" / out ");
    push_decimal(&mut doc, state.total_output_tokens);
    doc.append(" tokens (~");
    doc.append(cost_string(state.estimated_cost_ten_thousandths).as_str());
    doc.append(")</p>\n  ");
    doc.append(blocks.as_str());
    doc.append("\n</body>\n</html>\n");
    assert(doc@ =~= session_html(*state, include_system, include_tool_results, inline_images));
    doc
}

/// Why a typed session id or prefix names no single session.
#[derive(Clone, Debug, PartialEq, Eq)]
pub enum ResolveError {
    /// Nothing was typed.
    Empty,
    /// No session id starts with the prefix.
    NoMatch,
    /// Several ids start with the prefix: how many, and the first two in order.
    Ambiguous { count: usize, first: String, second: String },
}

/// The ids that start with `q`, in list order.
pub open spec fn prefixed(ids: Seq<Seq<char>>, q: Seq<char>) -> Seq<Seq<char>> {
    ids.filter(|id: Seq<char>| has_prefix(id, q))
}

/// Position of the first of the least ids among the first `n` (code-point order).
pub open spec fn least_at(s: Seq<Seq<char>>, n: nat) -> nat
    decreases n,
{
    if n <= 1 {
        0
    } else {
        let j = least_at(s, (n - 1) as nat);
        if text_lt(s[n - 1], s[j as int]) {
            (n - 1) as nat
        } else {
            j
        }
    }
}

/// The least id of a nonempty list.
pub open spec fn least(s: Seq<Seq<char>>) -> Seq<char> {
    s[least_at(s, s.len()) as int]
}

/// What a typed session query names: an id equal to it; else the one id that starts with
/// it; else an error (nothing typed, no id, or several ids with their count and the two
/// least).
pub open spec fn resolution(ids: Seq<Seq<char>>, q: Seq<char>) -> Result<Seq<char>, (nat, nat, Seq<char>, Seq<char>)> {
    let m = prefixed(ids, q);
    if q.len() == 0 {
        Err((0, 0, Seq::empty(), Seq::empty()))
    } else if ids.contains(q) {
        Ok(q)
    } else if m.len() == 0 {
        Err((1, 0, Seq::empty(), Seq::empty()))
    } else if m.len() == 1 {
        Ok(m[0])
    } else {
        let rest = m.remove(least_at(m, m.len()) as int);
        Err((2, m.len(), least(m), least(rest)))
    }
}

/// The outcome matches a [`resolution`].
pub open spec fn resolves_as(r: Result<String, ResolveError>, e: Result<Seq<char>, (nat, nat, Seq<char>, Seq<char>)>) -> bool {
    match (r, e) {
        (Ok(id), Ok(sid)) => id@ == sid,
        (Err(ResolveError::Empty), Err((k, _, _, _))) => k == 0,
        (Err(ResolveError::NoMatch), Err((k, _, _, _))) => k == 1,
        (Err(ResolveError::Ambiguous { count, first, second }), Err((k, n, a, b))) => k == 2 && count
            == n && first@ == a && second@ == b,
        _ => false,
    }
}

proof fn lemma_least_at_bound(s: Seq<Seq<char>>, n: nat)
    requires
        0 < n <= s.len(),
    ensures
        least_at(s, n) < n,
    decreases n,
{
    if n > 1 {
        lemma_least_at_bound(s, (n - 1) as nat);
    }
}

fn least_index(s: &Vec<String>) -> (j: usize)
    requires
        s@.len() > 0,
    ensures
        j as nat == least_at(views(s@), s@.len() as nat),
        j < s@.len(),
{
    let ghost sv = views(s@);
    let mut j: usize = 0;
    let mut n: usize = 1;
    while n < s.len()
        invariant
            1 <= n <= s@.len(),
            sv == views(s@),
            j as nat == least_at(sv, n as nat),
            j < n,
        decreases s@.len() - n,
    {
        if text_less(s[n].as_str(), s[j].as_str()) {
            j = n;
        }
        n += 1;
    }
    j
}

/// Resolve a typed session id or prefix against the saved ids (see [`resolution`]).
pub fn resolve_session_query(ids: &[String], query: &str) -> (r: Result<String, ResolveError>)
    ensures
        resolves_as(r, resolution(views(ids@), query@)),
{
    let q = chars_of(query);
    if q.len() == 0 {
        return Err(ResolveError::Empty);
    }
    let ghost iv = views(ids@);
    let mut i: usize = 0;
    while i < ids.len()
        invariant
            i <= ids@.len(),
            iv == views(ids@),
            q@ == query@,
            q@.len() > 0,
            forall|k: int| 0 <= k < i ==> iv[k] != query@,
        decreases ids@.len() - i,
    {
        if crate::text::eq_vec(&chars_of(ids[i].as_str()), &q) {
            assert(iv[i as int] == query@);
            assert(iv.contains(query@));
            return Ok(query.to_owned());
        }
        i += 1;
    }
    assert(!iv.contains(query@));
    let ghost pred = |id: Seq<char>| has_prefix(id, query@);
    let mut m: Vec<String> = Vec::new();
    let mut k: usize = 0;
    while k < ids.len()
        invariant
            k <= ids@.len(),
            iv == views(ids@),
            q@ == query@,
            pred == (|id: Seq<char>| has_prefix(id, query@)),
            views(m@) == iv.take(k as int).filter(pred),
        decreases ids@.len() - k,
    {
        let c = chars_of(ids[k].as_str());
        assert(iv.take(k + 1).drop_last() =~= iv.take(k as int));
        reveal_with_fuel(Seq::filter, 1);
        if starts_with_vec(&c, &q) {
            let ghost m0 = views(m@);
            m.push(ids[k].clone());
            assert(views(m@) =~= m0.push(c@));
        }
        k += 1;
    }
    assert(iv.take(ids@.len() as int) =~= iv);
    let ghost mv = views(m@);
    assert(mv == prefixed(iv, query@));
    if m.len() == 0 {
        return Err(ResolveError::NoMatch);
    }
    if m.len() == 1 {
        return Ok(m[0].clone());
    }
    let count = m.len();
    let j = least_index(&m);
    let first = m.remove(j);
    assert(views(m@) =~= mv.remove(j as int));
    let j2 = least_index(&m);
    let second = m[j2].clone();
    Err(ResolveError::Ambiguous { count, first, second })
}

/// What `serde_json` reads as the string value at `key` of the JSON object on `line`;
/// `None` when the line is no JSON, not an object, lacks the key or holds no string there.
pub uninterp spec fn json_string_field(line: Seq<char>, key: Seq<char>) -> Option<Seq<char>>;

/// Parses `line` with `serde_json::from_str` into a `Value` and reads the string at `key`;
/// claimed: the result is the named reading of the line and key, nothing more.
#[verifier::external_body]
fn json_field(line: &str, key: &str) -> (r: Option<String>)
    ensures
        match r {
            Some(v) => json_string_field(line@, key@) == Some(v@),
            None => json_string_field(line@, key@) is None,
        },
{
    match serde_json::from_str::<serde_json::Value>(line) {
        Ok(v) => match v.get(key) {
            Some(serde_json::Value::String(s)) => Some(s.clone()),
            _ => None,
        },
        Err(_) => None,
    }
}

/// A text or a default.
pub open spec fn or_text(o: Option<Seq<char>>, d: Seq<char>) -> Seq<char> {
    match o {
        Some(t) => t,
        None => d,
    }
}

/// The Markdown lines of an event with the given `kind`, `role`, `content` and `tool`
/// fields: a received message as its role heading (`?` when absent) and content, a
/// started tool call as a tool heading (`?` when absent), anything else nothing.
pub open spec fn event_fields_markdown(
    kind: Option<Seq<char>>,
    role: Option<Seq<char>>,
    content: Option<Seq<char>>,
    tool: Option<Seq<char>>,
) -> Seq<Seq<char>> {
    match kind {
        Some(k) => if k == "MessageReceived"@ {
            seq!["## "@ + or_text(role, "?"@), Seq::empty(), or_text(content, Seq::empty()), Seq::empty()]
        } else if k == "ToolCallStarted"@ {
            seq!["### tool: "@ + or_text(tool, "?"@), Seq::empty()]
        } else {
            seq![]
        },
        None => seq![],
    }
}

/// The Markdown lines of one event-log line: [`event_fields_markdown`] of its string
/// fields.
pub open spec fn event_markdown(line: Seq<char>) -> Seq<Seq<char>> {
    event_fields_markdown(
        json_string_field(line, "kind"@),
        json_string_field(line, "role"@),
        json_string_field(line, "content"@),
        json_string_field(line, "tool"@),
    )
}

/// The Markdown lines of the first `n` event-log lines.
pub open spec fn events_markdown(lines: Seq<Seq<char>>, n: nat) -> Seq<Seq<char>>
    decreases n,
{
    if n == 0 || n > lines.len() {
        seq![]
    } else {
        events_markdown(lines, (n - 1) as nat) + event_markdown(lines[n - 1])
    }
}

/// Lines joined with `\n` between them.
pub open spec fn joined(ls: Seq<Seq<char>>) -> Seq<char>
    decreases ls.len(),
{
    if ls.len() == 0 {
        Seq::empty()
    } else if ls.len() == 1 {
        ls[0]
    } else {
        joined(ls.drop_last()) + "\n"@ + ls.last()
    }
}

/// The Markdown transcript the session's `/export` writes from its event log: a title,
/// then the messages and tool calls of the log, lines joined with `\n`.
pub open spec fn event_log_markdown(session_id: Seq<char>, raw: Seq<char>) -> Seq<char> {
    let ls = text_lines(raw);
    joined(seq!["# Session "@ + session_id, Seq::empty()] + events_markdown(ls, ls.len()))
}

fn string_of_str(s: &str) -> (r: String)
    ensures
        r@ == s@,
{
    s.to_owned()
}

fn opt_as_str(o: &Option<String>) -> (r: Option<&str>)
    ensures
        match r {
            Some(t) => o matches Some(s) && t@ == s@,
            None => o is None,
        },
{
    match o {
        Some(s) => Some(s.as_str()),
        None => None,
    }
}

/// The Markdown lines of an event given its string fields (see
/// [`event_fields_markdown`]).
pub fn event_fields_lines(kind: Option<&str>, role: Option<&str>, content: Option<&str>, tool: Option<&str>) -> (r:
    Vec<String>)
    ensures
        views(r@) == event_fields_markdown(
            match kind {
                Some(s) => Some(s@),
                None => None,
            },
            match role {
                Some(s) => Some(s@),
                None => None,
            },
            match content {
                Some(s) => Some(s@),
                None => None,
            },
            match tool {
                Some(s) => Some(s@),
                None => None,
            },
        ),
{
    let mut out: Vec<String> = Vec::new();
    if let Some(kind) = kind {
        let k = chars_of(kind);
        if eq_vec(&k, &chars_of("MessageReceived")) {
            let mut h = "## ".to_owned();
            match role {
                Some(r) => h.append(r),
                None => h.append("?"),
            }
            out.push(h);
            out.push(String::new());
            out.push(
                match content {
                    Some(c) => string_of_str(c),
                    None => String::new(),
                },
            );
            out.push(String::new());
        } else if eq_vec(&k, &chars_of("ToolCallStarted")) {
            let mut h = "### tool: ".to_owned();
            match tool {
                Some(t) => h.append(t),
                None => h.append("?"),
            }
            out.push(h);
            out.push(String::new());
        }
    }
    assert(views(out@) =~= event_fields_markdown(
        match kind {
            Some(s) => Some(s@),
            None => None,
        },
        match role {
            Some(s) => Some(s@),
            None => None,
        },
        match content {
            Some(s) => Some(s@),
            None => None,
        },
        match tool {
            Some(s) => Some(s@),
            None => None,
        },
    ));
    out
}

fn push_event_markdown(out: &mut Vec<String>, line: &str)
    ensures
        views(final(out)@) == views(old(out)@) + event_markdown(line@),
{
    let ghost o = views(out@);
    let kind = json_field(line, "kind");
    let role = json_field(line, "role");
    let content = json_field(line, "content");
    let tool = json_field(line, "tool");
    let lines = event_fields_lines(
        opt_as_str(&kind),
        opt_as_str(&role),
        opt_as_str(&content),
        opt_as_str(&tool),
    );
    let mut i: usize = 0;
    while i < lines.len()
        invariant
            i <= lines@.len(),
            views(out@) == o + views(lines@).take(i as int),
        decreases lines@.len() - i,
    {
        let ghost b = views(out@);
        out.push(lines[i].clone());
        assert(views(out@) =~= b.push(lines@[i as int]@));
        assert(views(lines@).take(i + 1) =~= views(lines@).take(i as int).push(lines@[i as int]@));
        i = i + 1;
    }
    assert(views(lines@).take(lines@.len() as int) =~= views(lines@));
}

fn join_lines(ls: &Vec<String>) -> (r: String)
    ensures
        r@ == joined(views(ls@)),
{
    let ghost lv = views(ls@);
    let mut r = String::new();
    let mut i: usize = 0;
    while i < ls.len()
        invariant
            i <= ls@.len(),
            lv == views(ls@),
            r@ == joined(lv.take(i as int)),
        decreases ls@.len() - i,
    {
        if i > 0 {
            crate::text::push_char(&mut r, '\n');
        }
        r.append(ls[i].as_str());
        proof {
            reveal_strlit("\n");
        }
        assert(lv.take(i + 1).drop_last() =~= lv.take(i as int));
        assert(r@ =~= joined(lv.take(i + 1)));
        i += 1;
    }
    assert(lv.take(ls@.len() as int) =~= lv);
    r
}

/// The session `/export` Markdown of an event log (see [`event_log_markdown`]).
pub fn export_event_log_markdown(session_id: &str, raw: &str) -> (r: String)
    ensures
        r@ == event_log_markdown(session_id@, raw@),
{
    let mut title = "# Session ".to_owned();
    title.append(session_id);
    let mut md: Vec<String> = Vec::new();
    md.push(title);
    md.push(String::new());
    let ghost head = views(md@);
    assert(head =~= seq!["# Session "@ + session_id@, Seq::empty()]);
    let lines = text_lines_of(raw);
    let ghost lv = views(lines@);
    let mut i: usize = 0;
    while i < lines.len()
        invariant
            i <= lines@.len(),
            lv == views(lines@),
            lv == text_lines(raw@),
            views(md@) == head + events_markdown(lv, i as nat),
        decreases lines@.len() - i,
    {
        push_event_markdown(&mut md, lines[i].as_str());
        assert(views(md@) =~= head + events_markdown(lv, (i + 1) as nat));
        i += 1;
    }
    join_lines(&md)
}

/// A typed query resolves only to an id that starts with it: the query itself when it is
/// an id, else the one id it prefixes.
pub proof fn law_resolved_id_starts_with_query(ids: Seq<Seq<char>>, q: Seq<char>)
    ensures
        resolution(ids, q) matches Ok(id) ==> has_prefix(id, q),
{
    assert(q.take(q.len() as int) =~= q);
    if q.len() > 0 && !ids.contains(q) && prefixed(ids, q).len() == 1 {
        ids.lemma_filter_pred(|id: Seq<char>| has_prefix(id, q), 0);
    }
}


proof fn lemma_messages_html_push(ms: Seq<Message>, m: Message, sys: bool, tools: bool, inline: bool, n: nat)
    requires
        n <= ms.len(),
    ensures
        messages_html(ms.push(m), sys, tools, inline, n) == messages_html(ms, sys, tools, inline, n),
        messages_markdown(ms.push(m), sys, tools, inline, n) == messages_markdown(ms, sys, tools, inline, n),
    decreases n,
{
    if n > 0 {
        lemma_messages_html_push(ms, m, sys, tools, inline, (n - 1) as nat);
        assert(ms.push(m)[n - 1] == ms[n - 1]);
    }
}

/// A message's section follows those of the messages before it in the HTML export: a user
/// or assistant message always, a system message exactly when `include_system` holds and a
/// tool result exactly when `include_tool_results` does; the section carries the message's
/// position. The Markdown export takes the very same messages.
pub proof fn law_html_export_sections_follow_flags(
    ms: Seq<Message>,
    m: Message,
    sys: bool,
    tools: bool,
    inline: bool,
)
    ensures
        messages_html(ms.push(m), sys, tools, inline, ms.len() + 1) == messages_html(
            ms,
            sys,
            tools,
            inline,
            ms.len(),
        ) + if (m.role == Role::System && !sys) || (m.role == Role::Tool && !tools) {
            Seq::empty()
        } else {
            message_html(m, ms.len(), inline)
        },
        (messages_html(ms.push(m), sys, tools, inline, ms.len() + 1) == messages_html(ms, sys, tools, inline, ms.len()))
            <==> (messages_markdown(ms.push(m), sys, tools, inline, ms.len() + 1) == messages_markdown(
            ms,
            sys,
            tools,
            inline,
            ms.len(),
        )),
{
    lemma_messages_html_push(ms, m, sys, tools, inline, ms.len());
    let n = ms.len();
    assert(ms.push(m)[n as int] == m);
    let h = messages_html(ms, sys, tools, inline, n);
    let k = messages_markdown(ms, sys, tools, inline, n);
    let sh = message_html(m, n, inline);
    let sk = message_markdown(m, n, inline);
    assert(sh.len() > 0) by {
        reveal_strlit("<section class=\"msg\"><h2>");
    }
    assert(sk.len() > 0) by {
        reveal_strlit("## ");
    }
    if included(m.role, sys, tools) {
        assert((h + sh).len() > h.len());
        assert((k + sk).len() > k.len());
    } else {
        assert(h + Seq::<char>::empty() =~= h);
        assert(k + Seq::<char>::empty() =~= k);
    }
}

/// Without tool results among the messages the tool-result flag changes nothing in the HTML
/// export, and without system messages the system flag changes nothing.
pub proof fn law_html_export_flags_act_on_their_role(
    ms: Seq<Message>,
    sys: bool,
    tools: bool,
    inline: bool,
    n: nat,
)
    ensures
        (forall|i: int| 0 <= i < ms.len() ==> (#[trigger] ms[i]).role != Role::Tool) ==> messages_html(
            ms,
            sys,
            tools,
            inline,
            n,
        ) == messages_html(ms, sys, !tools, inline, n),
        (forall|i: int| 0 <= i < ms.len() ==> (#[trigger] ms[i]).role != Role::System) ==> messages_html(
            ms,
            sys,
            tools,
            inline,
            n,
        ) == messages_html(ms, !sys, tools, inline, n),
    decreases n,
{
    if n > 0 && n <= ms.len() {
        law_html_export_flags_act_on_their_role(ms, sys, tools, inline, (n - 1) as nat);
        let r = ms[n - 1].role;
        assert(r != Role::Tool ==> included(r, sys, tools) == included(r, sys, !tools));
        assert(r != Role::System ==> included(r, sys, tools) == included(r, !sys, tools));
    }
}

} // verus!
