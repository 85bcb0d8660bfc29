//! One tool call: the hooks around it and what it hands back.
use vstd::prelude::*;

use crate::event::{AgentEvent, AgentEventView};
use crate::json::{opt_json, Json};
use crate::limits::setting_text;
use crate::model::{error_output, ContentBlock, ToolCall, ToolOutput, ToolOutputView};
use crate::text::{opt_text, owned, trimmed};

verus! {

/// What extensions said of a tool call before it runs.
#[derive(Debug, PartialEq, Eq)]
pub enum CallHookReply {
    /// An extension decided.
    Decision { block: bool, reason: Option<String> },
    /// No extension had anything to say.
    Silent,
    /// The hook failed or ran out of time.
    Failed,
}

/// What running a tool came to.
#[derive(Debug, PartialEq, Eq)]
pub enum ToolReply {
    /// There is no such tool.
    NotFound,
    /// The tool ran.
    Output(ToolOutput),
    /// The tool failed, with the failure in words.
    Failed(String),
}

/// What extensions said of the output of a tool call.
#[derive(Debug, PartialEq, Eq)]
pub enum ResultHookReply {
    /// Parts of the output are replaced.
    Change { content: Option<Vec<ContentBlock>>, details: Option<Json> },
    /// No extension had anything to say.
    Silent,
    /// The hook failed or ran out of time.
    Failed,
}

/// Why a blocked call did not run, in words.
pub open spec fn blocked_text(reason: Option<Seq<char>>) -> Seq<char> {
    match reason {
        Some(r) => if trimmed(r).len() > 0 {
            "Tool execution blocked: "@ + trimmed(r)
        } else {
            "Tool execution was blocked by an extension"@
        },
        None => "Tool execution was blocked by an extension"@,
    }
}

/// The output of a blocked call.
pub fn tool_call_blocked_output(reason: Option<&str>) -> (r: ToolOutput)
    ensures
        r@ == error_output(blocked_text(setting_text(reason))),
{
    let text = match reason {
        Some(r) => {
            let r = r.trim();
            if r.is_empty() {
                owned("Tool execution was blocked by an extension")
            } else {
                let mut text = owned("Tool execution blocked: ");
                text.push_str(r);
                text
            }
        },
        None => owned("Tool execution was blocked by an extension"),
    };
    ToolOutput::error(text)
}

/// What a call of a tool that does not exist comes to, in words.
pub open spec fn not_found_text(name: Seq<char>) -> Seq<char> {
    "Error: Tool '"@ + name + "' not found"@
}

/// The output of a call of a tool that does not exist.
pub fn tool_not_found_output(tool_name: &str) -> (r: ToolOutput)
    ensures
        r@ == error_output(not_found_text(tool_name@)),
{
    let mut text = owned("Error: Tool '");
    text.push_str(tool_name);
    text.push_str("' not found");
    ToolOutput::error(text)
}

/// The output that stands for a call which its hook kept from running, if it did. A hook that failed
/// keeps the call from running only if hooks fail closed.
pub open spec fn call_hook_blocks(reply: CallHookReply, fail_closed: bool) -> Option<ToolOutputView> {
    match reply {
        CallHookReply::Decision { block, reason } => if block {
            Some(error_output(blocked_text(opt_text(reason))))
        } else {
            None
        },
        CallHookReply::Silent => None,
        CallHookReply::Failed => if fail_closed {
            Some(error_output(blocked_text(Some("extension hook failed"@))))
        } else {
            None
        },
    }
}

/// The value of an optional output.
pub open spec fn opt_output(o: Option<ToolOutput>) -> Option<ToolOutputView> {
    match o {
        Some(t) => Some(t@),
        None => None,
    }
}

/// Decides whether a call may run.
pub fn call_hook_outcome(reply: &CallHookReply, fail_closed: bool) -> (r: Option<ToolOutput>)
    ensures
        opt_output(r) == call_hook_blocks(*reply, fail_closed),
{
    match reply {
        CallHookReply::Decision { block, reason } => {
            if *block {
                match reason {
                    Some(text) => Some(tool_call_blocked_output(Some(text.as_str()))),
                    None => Some(tool_call_blocked_output(None)),
                }
            } else {
                None
            }
        },
        CallHookReply::Silent => None,
        CallHookReply::Failed => {
            if fail_closed {
                Some(tool_call_blocked_output(Some("extension hook failed")))
            } else {
                None
            }
        },
    }
}

/// What running a tool hands back, and whether it counts as an error.
pub open spec fn tool_outcome(name: Seq<char>, reply: ToolReply) -> (ToolOutputView, bool) {
    match reply {
        ToolReply::NotFound => (error_output(not_found_text(name)), true),
        ToolReply::Output(output) => (output@, output.is_error),
        ToolReply::Failed(text) => (error_output("Error: "@ + text@), true),
    }
}

/// What running a tool hands back, and whether it counts as an error.
pub fn read_tool_reply(name: &str, reply: ToolReply) -> (r: (ToolOutput, bool))
    ensures
        (r.0@, r.1) == tool_outcome(name@, reply),
{
    match reply {
        ToolReply::NotFound => (tool_not_found_output(name), true),
        ToolReply::Output(output) => {
            let is_error = output.is_error;
            (output, is_error)
        },
        ToolReply::Failed(text) => {
            let mut message = owned("Error: ");
            message.push_str(text.as_str());
            (ToolOutput::error(message), true)
        },
    }
}

/// The output after extensions had their say. Only what they replace changes.
pub open spec fn hooked_output(output: ToolOutputView, reply: ResultHookReply) -> ToolOutputView {
    match reply {
        ResultHookReply::Change { content, details } => ToolOutputView {
            content: match content {
                Some(blocks) => blocks.deep_view(),
                None => output.content,
            },
            details: match details {
                Some(d) => Some(d@),
                None => output.details,
            },
            ..output
        },
        _ => output,
    }
}

/// Lets extensions change the output of a call.
pub fn apply_result_hook(output: &mut ToolOutput, reply: ResultHookReply)
    ensures
        final(output)@ == hooked_output(old(output)@, reply),
{
    if let ResultHookReply::Change { content, details } = reply {
        if let Some(blocks) = content {
            output.content = blocks;
        }
        if let Some(d) = details {
            output.details = Some(d);
        }
    }
}

/// The event for what a tool shows while it runs.
pub fn tool_update_event(
    call: &ToolCall,
    content: Vec<ContentBlock>,
    details: Option<Json>,
) -> (r: AgentEvent)
    ensures
        r@ == (AgentEventView::ToolExecutionUpdate {
            tool_call_id: call@.id,
            tool_name: call@.name,
            args: call@.arguments,
            partial_result: ToolOutputView {
                content: content.deep_view(),
                details: opt_json(details),
                is_error: false,
            },
        }),
{
    AgentEvent::ToolExecutionUpdate {
        tool_call_id: call.id.clone(),
        tool_name: call.name.clone(),
        args: call.arguments.clone(),
        partial_result: ToolOutput { content, details, is_error: false },
    }
}

/// What a tool call waits for.
#[derive(Debug, Clone, Copy, PartialEq, Eq, Structural)]
pub enum ExecPhase {
    CallHook,
    Tool,
    ResultHook,
    Done,
}

/// What a tool call asks for next.
#[derive(Debug, Clone, Copy, PartialEq, Eq, Structural)]
pub enum ExecAction {
    /// Ask extensions whether the call may run.
    DispatchCallHook,
    /// Run the tool.
    RunTool,
    /// Show the output to extensions.
    DispatchResultHook,
    /// The call is over.
    Finish,
}

/// What a tool call answers to.
#[derive(Debug, PartialEq, Eq)]
pub enum ExecInput {
    CallHook(CallHookReply),
    Tool(ToolReply),
    ResultHook(ResultHookReply),
}

/// A tool call on its way through its hooks.
#[derive(Debug, PartialEq, Eq)]
pub struct ToolExecution {
    pub tool_name: String,
    /// Whether there are extensions to ask.
    pub hooked: bool,
    pub fail_closed: bool,
    pub output: Option<ToolOutput>,
    pub is_error: bool,
    pub phase: ExecPhase,
}

/// The mathematical value of [`ToolExecution`].
#[verifier::ext_equal]
pub struct ToolExecutionView {
    pub tool_name: Seq<char>,
    pub hooked: bool,
    pub fail_closed: bool,
    pub output: Option<ToolOutputView>,
    pub is_error: bool,
    pub phase: ExecPhase,
}

impl View for ToolExecution {
    type V = ToolExecutionView;

    open spec fn view(&self) -> ToolExecutionView {
        ToolExecutionView {
            tool_name: self.tool_name@,
            hooked: self.hooked,
            fail_closed: self.fail_closed,
            output: opt_output(self.output),
            is_error: self.is_error,
            phase: self.phase,
        }
    }
}

impl ToolExecutionView {
    /// What the phase asks for.
    pub open spec fn expected(self) -> ExecAction {
        match self.phase {
            ExecPhase::CallHook => ExecAction::DispatchCallHook,
            ExecPhase::Tool => ExecAction::RunTool,
            ExecPhase::ResultHook => ExecAction::DispatchResultHook,
            ExecPhase::Done => ExecAction::Finish,
        }
    }

    /// There is an output from when the call ran or was blocked.
    pub open spec fn wf(self) -> bool {
        (self.phase == ExecPhase::ResultHook || self.phase == ExecPhase::Done) ==> self.output is Some
    }

    /// The call once it has an output: extensions see it, if there are any.
    pub open spec fn with_output(self, output: ToolOutputView, is_error: bool) -> Self {
        ToolExecutionView {
            output: Some(output),
            is_error,
            phase: if self.hooked {
                ExecPhase::ResultHook
            } else {
                ExecPhase::Done
            },
            ..self
        }
    }

    /// What an input does. An input that the phase does not wait for changes nothing.
    pub open spec fn step(self, input: ExecInput) -> Self {
        match (self.phase, input) {
            (ExecPhase::CallHook, ExecInput::CallHook(reply)) => match call_hook_blocks(
                reply,
                self.fail_closed,
            ) {
                Some(output) => self.with_output(output, true),
                None => ToolExecutionView { phase: ExecPhase::Tool, ..self },
            },
            (ExecPhase::Tool, ExecInput::Tool(reply)) => {
                let (output, is_error) = tool_outcome(self.tool_name, reply);
                self.with_output(output, is_error)
            },
            (ExecPhase::ResultHook, ExecInput::ResultHook(reply)) => ToolExecutionView {
                output: match self.output {
                    Some(output) => Some(hooked_output(output, reply)),
                    None => None,
                },
                phase: ExecPhase::Done,
                ..self
            },
            _ => self,
        }
    }
}

impl ToolExecution {
    /// A tool call that is about to run.
    pub fn start(tool_name: String, hooked: bool, fail_closed: bool) -> (r: (Self, ExecAction))
        ensures
            r.0@ == (ToolExecutionView {
                tool_name: tool_name@,
                hooked,
                fail_closed,
                output: None,
                is_error: false,
                phase: if hooked {
                    ExecPhase::CallHook
                } else {
                    ExecPhase::Tool
                },
            }),
            r.0@.wf(),
            r.1 == r.0@.expected(),
    {
        let phase = if hooked {
            ExecPhase::CallHook
        } else {
            ExecPhase::Tool
        };
        let action = if hooked {
            ExecAction::DispatchCallHook
        } else {
            ExecAction::RunTool
        };
        (
            ToolExecution { tool_name, hooked, fail_closed, output: None, is_error: false, phase },
            action,
        )
    }

    fn finish_with(&mut self, output: ToolOutput, is_error: bool)
        ensures
            final(self)@ == old(self)@.with_output(output@, is_error),
    {
        self.output = Some(output);
        self.is_error = is_error;
        self.phase = if self.hooked {
            ExecPhase::ResultHook
        } else {
            ExecPhase::Done
        };
    }

    /// Takes one step of the call.
    pub fn step(&mut self, input: ExecInput) -> (action: ExecAction)
        requires
            old(self)@.wf(),
        ensures
            final(self)@ == old(self)@.step(input),
            final(self)@.wf(),
            action == final(self)@.expected(),
    {
        match (self.phase, input) {
            (ExecPhase::CallHook, ExecInput::CallHook(reply)) => {
                match call_hook_outcome(&reply, self.fail_closed) {
                    Some(output) => self.finish_with(output, true),
                    None => {
                        self.phase = ExecPhase::Tool;
                    },
                }
            },
            (ExecPhase::Tool, ExecInput::Tool(reply)) => {
                let (output, is_error) = read_tool_reply(self.tool_name.as_str(), reply);
                self.finish_with(output, is_error);
            },
            (ExecPhase::ResultHook, ExecInput::ResultHook(reply)) => {
                if let Some(output) = self.output.take() {
                    let mut output = output;
                    apply_result_hook(&mut output, reply);
                    self.output = Some(output);
                }
                self.phase = ExecPhase::Done;
            },
            _ => {},
        }
        match self.phase {
            ExecPhase::CallHook => ExecAction::DispatchCallHook,
            ExecPhase::Tool => ExecAction::RunTool,
            ExecPhase::ResultHook => ExecAction::DispatchResultHook,
            ExecPhase::Done => ExecAction::Finish,
        }
    }
}

/// A call that an extension blocks does not run, and counts as an error.
pub proof fn blocked_call_does_not_run(e: ToolExecutionView, reason: Option<String>)
    requires
        e.phase == ExecPhase::CallHook,
    ensures
        ({
            let next = e.step(
                ExecInput::CallHook(CallHookReply::Decision { block: true, reason }),
            );
            next.phase != ExecPhase::Tool && next.is_error && next.output == Some(
                error_output(blocked_text(opt_text(reason))),
            )
        }),
{
}

/// Where hooks fail closed a failing hook keeps the call from running; elsewhere it does not matter.
pub proof fn failing_hook_blocks_only_if_closed(e: ToolExecutionView)
    requires
        e.phase == ExecPhase::CallHook,
    ensures
        e.step(ExecInput::CallHook(CallHookReply::Failed)).phase == ExecPhase::Tool
            <==> !e.fail_closed,
        !e.fail_closed ==> e.step(ExecInput::CallHook(CallHookReply::Failed)) == e.step(
            ExecInput::CallHook(CallHookReply::Silent),
        ),
{
}

/// Extensions can change what a call hands back, but not whether it counts as an error.
pub proof fn result_hook_keeps_verdict(e: ToolExecutionView, reply: ResultHookReply)
    requires
        e.phase == ExecPhase::ResultHook,
        e.wf(),
    ensures
        e.step(ExecInput::ResultHook(reply)).is_error == e.is_error,
        e.step(ExecInput::ResultHook(reply)).phase == ExecPhase::Done,
        e.step(ExecInput::ResultHook(reply)).output->Some_0.is_error == e.output->Some_0.is_error,
{
}

} // verus!
