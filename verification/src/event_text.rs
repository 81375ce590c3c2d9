//! What the human-readable stream mode writes for each agent event.

use crate::session::{dec, push_decimal};
use vstd::prelude::*;

verus! {

/// An agent event as the human stream reads it; the texts of structured values (a tool's
/// input, an end reason, a response) are given as already written.
#[derive(Clone, Debug)]
pub enum AgentEvent {
    SessionStarted { session_id: String, model: String },
    TokensStreamed { delta: String },
    ToolCallStarted { tool: String, input: String },
    ToolCallCompleted { success: bool, error: Option<String> },
    ApprovalRequested { tool: String, description: String },
    ApprovalResolved { approved: bool },
    Checkpoint { phase: String, detail: String, turn: u64 },
    SessionEnded { reason: String },
    Error { message: String },
    Response { response: String },
    ChildSessionSpawned { child_session_id: String, task: String },
    ChildSessionCompleted { child_session_id: String, status: String },
    /// Events the human stream does not show (messages, costs, todos, links, modes).
    Quiet,
}

/// Where a line of the human stream goes.
#[derive(Clone, Copy, PartialEq, Eq, Debug, Structural)]
pub enum OutputStream {
    Stdout,
    Stderr,
}

/// `true` or `false`.
pub open spec fn bool_text(b: bool) -> Seq<char> {
    if b {
        "true"@
    } else {
        "false"@
    }
}

/// What the human stream writes for an event: streamed tokens as they are on standard
/// output; everything else shown as a tagged line on standard error; quiet events nothing.
pub open spec fn event_text(ev: AgentEvent) -> Option<(OutputStream, Seq<char>)> {
    match ev {
        AgentEvent::SessionStarted { session_id, model } => Some(
            (OutputStream::Stderr, "[session] "@ + session_id@ + " model="@ + model@ + "\n"@),
        ),
        AgentEvent::TokensStreamed { delta } => Some((OutputStream::Stdout, delta@)),
        AgentEvent::ToolCallStarted { tool, input } => Some(
            (OutputStream::Stderr, "\n[tool:start] "@ + tool@ + " "@ + input@ + "\n"@),
        ),
        AgentEvent::ToolCallCompleted { success, error } => Some(
            (
                OutputStream::Stderr,
                if success {
                    "[tool:done] ok\n"@
                } else {
                    "[tool:done] error: "@ + match error {
                        Some(e) => e@,
                        None => "tool failed"@,
                    } + "\n"@
                },
            ),
        ),
        AgentEvent::ApprovalRequested { tool, description } => Some(
            (OutputStream::Stderr, "[approval] "@ + tool@ + ": "@ + description@ + "\n"@),
        ),
        AgentEvent::ApprovalResolved { approved } => Some(
            (OutputStream::Stderr, "[approval] resolved="@ + bool_text(approved) + "\n"@),
        ),
        AgentEvent::Checkpoint { phase, detail, turn } => Some(
            (
                OutputStream::Stderr,
                "[checkpoint] turn="@ + dec(turn as nat) + " phase="@ + phase@ + " "@ + detail@ + "\n"@,
            ),
        ),
        AgentEvent::SessionEnded { reason } => Some(
            (OutputStream::Stderr, "\n[session:end] "@ + reason@ + "\n"@),
        ),
        AgentEvent::Error { message } => Some((OutputStream::Stderr, "[error] "@ + message@ + "\n"@)),
        AgentEvent::Response { response } => Some(
            (OutputStream::Stderr, "[response] "@ + response@ + "\n"@),
        ),
        AgentEvent::ChildSessionSpawned { child_session_id, task } => Some(
            (OutputStream::Stderr, "[subagent:spawn] "@ + child_session_id@ + " task="@ + task@ + "\n"@),
        ),
        AgentEvent::ChildSessionCompleted { child_session_id, status } => Some(
            (OutputStream::Stderr, "[subagent:done] "@ + child_session_id@ + " status="@ + status@ + "\n"@),
        ),
        AgentEvent::Quiet => None,
    }
}

fn joined3(a: &str, b: &str, c: &str) -> (r: String)
    ensures
        r@ == a@ + b@ + c@,
{
    let mut r = a.to_owned();
    r.append(b);
    r.append(c);
    r
}

fn joined5(a: &str, b: &str, c: &str, d: &str, e: &str) -> (r: String)
    ensures
        r@ == a@ + b@ + c@ + d@ + e@,
{
    let mut r = a.to_owned();
    r.append(b);
    r.append(c);
    r.append(d);
    r.append(e);
    r
}

/// What the human stream writes for an event (see [`event_text`]).
pub fn human_event_text(ev: &AgentEvent) -> (r: Option<(OutputStream, String)>)
    ensures
        match (r, event_text(*ev)) {
            (Some((s, t)), Some((es, et))) => s == es && t@ == et,
            (None, None) => true,
            _ => false,
        },
{
    match ev {
        AgentEvent::SessionStarted { session_id, model } => Some(
            (OutputStream::Stderr, joined5("[session] ", session_id.as_str(), " model=", model.as_str(), "\n")),
        ),
        AgentEvent::TokensStreamed { delta } => Some((OutputStream::Stdout, delta.clone())),
        AgentEvent::ToolCallStarted { tool, input } => Some(
            (OutputStream::Stderr, joined5("\n[tool:start] ", tool.as_str(), " ", input.as_str(), "\n")),
        ),
        AgentEvent::ToolCallCompleted { success, error } => {
            if *success {
                Some((OutputStream::Stderr, "[tool:done] ok\n".to_owned()))
            } else {
                let e: &str = match error {
                    Some(e) => e.as_str(),
                    None => "tool failed",
                };
                Some((OutputStream::Stderr, joined3("[tool:done] error: ", e, "\n")))
            }
        },
        AgentEvent::ApprovalRequested { tool, description } => Some(
            (OutputStream::Stderr, joined5("[approval] ", tool.as_str(), ": ", description.as_str(), "\n")),
        ),
        AgentEvent::ApprovalResolved { approved } => Some(
            (OutputStream::Stderr, joined3("[approval] resolved=", if *approved { "true" } else { "false" }, "\n")),
        ),
        AgentEvent::Checkpoint { phase, detail, turn } => {
            let mut t = "[checkpoint] turn=".to_owned();
            push_decimal(&mut t, *turn);
            t.append(" phase=");
            t.append(phase.as_str());
            t.append(" ");
            t.append(detail.as_str());
            t.append("\n");
            Some((OutputStream::Stderr, t))
        },
        AgentEvent::SessionEnded { reason } => Some(
            (OutputStream::Stderr, joined3("\n[session:end] ", reason.as_str(), "\n")),
        ),
        AgentEvent::Error { message } => Some((OutputStream::Stderr, joined3("[error] ", message.as_str(), "\n"))),
        AgentEvent::Response { response } => Some(
            (OutputStream::Stderr, joined3("[response] ", response.as_str(), "\n")),
        ),
        AgentEvent::ChildSessionSpawned { child_session_id, task } => Some(
            (
                OutputStream::Stderr,
                joined5("[subagent:spawn] ", child_session_id.as_str(), " task=", task.as_str(), "\n"),
            ),
        ),
        AgentEvent::ChildSessionCompleted { child_session_id, status } => Some(
            (
                OutputStream::Stderr,
                joined5("[subagent:done] ", child_session_id.as_str(), " status=", status.as_str(), "\n"),
            ),
        ),
        AgentEvent::Quiet => None,
    }
}

} // verus!
