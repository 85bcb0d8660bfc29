//! The agent: its configuration, its history and the context it sends to a provider.
use vstd::prelude::*;

use crate::clock::now_millis;
use crate::content::{
    blocks_of, filter_images_for_provider, image_count, is_visible, message_without_images,
    no_image_is_left, visible, visible_messages,
};
use crate::effects::ToolEffects;
use crate::json::{Json, JsonView};
use crate::limits::{iteration_cap, positive_setting, resolve_max_tool_iterations, setting_text};
use crate::model::{
    clone_messages, no_usage, push_message, AssistantMessage, AssistantMessageView, ContentBlockView,
    Message, MessageView, StopReason, Usage, UserContentView,
};
use crate::queue::{bounded_push, MessageQueue, MessageQueueView, QueueKind, QueueMode};
use crate::text::{clone_opt_text, opt_text, owned};

verus! {

/// Most messages that the history holds.
pub const MAX_AGENT_MESSAGES: usize = 10_000;

/// How much the model is asked to reason.
#[derive(Debug, Clone, Copy, PartialEq, Eq, Structural)]
pub enum ThinkingLevel {
    Off,
    Minimal,
    Low,
    Medium,
    High,
    XHigh,
}

/// What counts of a list of header fields.
pub open spec fn header_fields(headers: Seq<(String, String)>) -> Seq<(Seq<char>, Seq<char>)> {
    headers.map_values(|h: (String, String)| (h.0@, h.1@))
}

/// Copies a list of header fields.
pub fn clone_headers(headers: &Vec<(String, String)>) -> (r: Vec<(String, String)>)
    ensures
        header_fields(r@) == header_fields(headers@),
{
    let mut r: Vec<(String, String)> = Vec::new();
    let mut i: usize = 0;
    while i < headers.len()
        invariant
            i <= headers@.len(),
            r@.len() == i,
            forall|j: int|
                0 <= j < i ==> (#[trigger] r@[j]).0@ == headers@[j].0@ && r@[j].1@ == headers@[j].1@,
        decreases headers@.len() - i,
    {
        r.push((headers[i].0.clone(), headers[i].1.clone()));
        i += 1;
    }
    assert(header_fields(r@) =~= header_fields(headers@));
    r
}

/// Options of a completion request. The temperature is the bit pattern of a single-precision
/// number.
#[derive(Debug, PartialEq, Eq)]
pub struct StreamOptions {
    pub session_id: Option<String>,
    pub api_key: Option<String>,
    pub headers: Vec<(String, String)>,
    pub thinking_level: Option<ThinkingLevel>,
    pub max_tokens: Option<u32>,
    pub temperature: Option<u32>,
}

/// The mathematical value of [`StreamOptions`].
#[verifier::ext_equal]
pub struct StreamOptionsView {
    pub session_id: Option<Seq<char>>,
    pub api_key: Option<Seq<char>>,
    pub headers: Seq<(Seq<char>, Seq<char>)>,
    pub thinking_level: Option<ThinkingLevel>,
    pub max_tokens: Option<u32>,
    pub temperature: Option<u32>,
}

impl View for StreamOptions {
    type V = StreamOptionsView;

    open spec fn view(&self) -> StreamOptionsView {
        StreamOptionsView {
            session_id: opt_text(self.session_id),
            api_key: opt_text(self.api_key),
            headers: header_fields(self.headers@),
            thinking_level: self.thinking_level,
            max_tokens: self.max_tokens,
            temperature: self.temperature,
        }
    }
}

impl Clone for StreamOptions {
    fn clone(&self) -> (r: Self)
        ensures
            r@ == self@,
    {
        StreamOptions {
            session_id: clone_opt_text(&self.session_id),
            api_key: clone_opt_text(&self.api_key),
            headers: clone_headers(&self.headers),
            thinking_level: self.thinking_level,
            max_tokens: self.max_tokens,
            temperature: self.temperature,
        }
    }
}

/// Options that ask for nothing in particular.
pub open spec fn no_stream_options() -> StreamOptionsView {
    StreamOptionsView {
        session_id: None,
        api_key: None,
        headers: Seq::empty(),
        thinking_level: None,
        max_tokens: None,
        temperature: None,
    }
}

impl Default for StreamOptions {
    fn default() -> (r: Self)
        ensures
            r@ == no_stream_options(),
    {
        let r = StreamOptions {
            session_id: None,
            api_key: None,
            headers: Vec::new(),
            thinking_level: None,
            max_tokens: None,
            temperature: None,
        };
        assert(r@.headers =~= Seq::empty());
        r
    }
}

/// Configuration of an agent.
#[derive(Debug, PartialEq, Eq)]
pub struct AgentConfig {
    pub system_prompt: Option<String>,
    pub max_tool_iterations: usize,
    pub stream_options: StreamOptions,
    pub block_images: bool,
    pub fail_closed_hooks: bool,
}

/// The mathematical value of [`AgentConfig`].
#[verifier::ext_equal]
pub struct AgentConfigView {
    pub system_prompt: Option<Seq<char>>,
    pub max_tool_iterations: usize,
    pub stream_options: StreamOptionsView,
    pub block_images: bool,
    pub fail_closed_hooks: bool,
}

impl View for AgentConfig {
    type V = AgentConfigView;

    open spec fn view(&self) -> AgentConfigView {
        AgentConfigView {
            system_prompt: opt_text(self.system_prompt),
            max_tool_iterations: self.max_tool_iterations,
            stream_options: self.stream_options@,
            block_images: self.block_images,
            fail_closed_hooks: self.fail_closed_hooks,
        }
    }
}

impl DeepView for AgentConfig {
    type V = AgentConfigView;

    open spec fn deep_view(&self) -> AgentConfigView {
        self@
    }
}

impl Clone for AgentConfig {
    fn clone(&self) -> (r: Self)
        ensures
            r@ == self@,
    {
        AgentConfig {
            system_prompt: clone_opt_text(&self.system_prompt),
            max_tool_iterations: self.max_tool_iterations,
            stream_options: self.stream_options.clone(),
            block_images: self.block_images,
            fail_closed_hooks: self.fail_closed_hooks,
        }
    }
}

impl AgentConfig {
    /// The default configuration under the textual setting for the cap on tool rounds.
    pub fn with_iteration_setting(raw_override: Option<&str>) -> (r: Self)
        ensures
            r@ == (AgentConfigView {
                system_prompt: None,
                max_tool_iterations: iteration_cap(positive_setting(setting_text(raw_override))),
                stream_options: no_stream_options(),
                block_images: false,
                fail_closed_hooks: false,
            }),
    {
        AgentConfig {
            system_prompt: None,
            max_tool_iterations: resolve_max_tool_iterations(raw_override),
            stream_options: StreamOptions::default(),
            block_images: false,
            fail_closed_hooks: false,
        }
    }
}

/// Who answers completion requests.
#[derive(Debug, PartialEq, Eq)]
pub struct ProviderIdentity {
    pub api: String,
    pub name: String,
    pub model_id: String,
}

/// The mathematical value of [`ProviderIdentity`].
#[verifier::ext_equal]
pub struct ProviderIdentityView {
    pub api: Seq<char>,
    pub name: Seq<char>,
    pub model_id: Seq<char>,
}

impl View for ProviderIdentity {
    type V = ProviderIdentityView;

    open spec fn view(&self) -> ProviderIdentityView {
        ProviderIdentityView {
            api: self.api@,
            name: self.name@,
            model_id: self.model_id@,
        }
    }
}

impl DeepView for ProviderIdentity {
    type V = ProviderIdentityView;

    open spec fn deep_view(&self) -> ProviderIdentityView {
        self@
    }
}

impl Clone for ProviderIdentity {
    fn clone(&self) -> (r: Self)
        ensures
            r@ == self@,
    {
        ProviderIdentity {
            api: self.api.clone(),
            name: self.name.clone(),
            model_id: self.model_id.clone(),
        }
    }
}

/// What is known of a registered tool.
#[derive(Debug, PartialEq, Eq)]
pub struct ToolInfo {
    pub name: String,
    pub description: String,
    pub parameters: Json,
    pub effects: ToolEffects,
}

/// The mathematical value of [`ToolInfo`].
#[verifier::ext_equal]
pub struct ToolInfoView {
    pub name: Seq<char>,
    pub description: Seq<char>,
    pub parameters: JsonView,
    pub effects: ToolEffects,
}

impl View for ToolInfo {
    type V = ToolInfoView;

    open spec fn view(&self) -> ToolInfoView {
        ToolInfoView {
            name: self.name@,
            description: self.description@,
            parameters: self.parameters@,
            effects: self.effects,
        }
    }
}

impl DeepView for ToolInfo {
    type V = ToolInfoView;

    open spec fn deep_view(&self) -> ToolInfoView {
        self@
    }
}

impl Clone for ToolInfo {
    fn clone(&self) -> (r: Self)
        ensures
            r@ == self@,
    {
        ToolInfo {
            name: self.name.clone(),
            description: self.description.clone(),
            parameters: self.parameters.clone(),
            effects: self.effects,
        }
    }
}

/// How a tool is described to the model.
#[derive(Debug, PartialEq, Eq)]
pub struct ToolDef {
    pub name: String,
    pub description: String,
    pub parameters: Json,
}

/// The mathematical value of [`ToolDef`].
#[verifier::ext_equal]
pub struct ToolDefView {
    pub name: Seq<char>,
    pub description: Seq<char>,
    pub parameters: JsonView,
}

impl View for ToolDef {
    type V = ToolDefView;

    open spec fn view(&self) -> ToolDefView {
        ToolDefView {
            name: self.name@,
            description: self.description@,
            parameters: self.parameters@,
        }
    }
}

impl DeepView for ToolDef {
    type V = ToolDefView;

    open spec fn deep_view(&self) -> ToolDefView {
        self@
    }
}

impl Clone for ToolDef {
    fn clone(&self) -> (r: Self)
        ensures
            r@ == self@,
    {
        ToolDef {
            name: self.name.clone(),
            description: self.description.clone(),
            parameters: self.parameters.clone(),
        }
    }
}

/// Copies a list of tool descriptions.
pub fn clone_tool_defs(v: &Vec<ToolDef>) -> (r: Vec<ToolDef>)
    ensures
        r.deep_view() == v.deep_view(),
{
    let mut r: Vec<ToolDef> = Vec::new();
    let mut i: usize = 0;
    while i < v.len()
        invariant
            i <= v@.len(),
            r@.len() == i,
            forall|j: int| 0 <= j < i ==> (#[trigger] r@[j])@ == v@[j]@,
        decreases v@.len() - i,
    {
        r.push(v[i].clone());
        i += 1;
    }
    assert(r.deep_view() =~= v.deep_view());
    r
}

/// How the tools are described to the model.
pub open spec fn tool_defs(tools: Seq<ToolInfoView>) -> Seq<ToolDefView> {
    tools.map_values(
        |t: ToolInfoView|
            ToolDefView { name: t.name, description: t.description, parameters: t.parameters },
    )
}

/// The effects of the first tool called `name`; an unknown tool counts as one that writes.
pub open spec fn effects_of(tools: Seq<ToolInfoView>, name: Seq<char>) -> ToolEffects
    decreases tools.len(),
{
    if tools.len() == 0 {
        ToolEffects { reads: false, writes: true, appends: false, network: false, process: false }
    } else if tools[0].name == name {
        tools[0].effects
    } else {
        effects_of(tools.drop_first(), name)
    }
}

/// What a completion request sends to the provider.
#[derive(Debug, PartialEq, Eq)]
pub struct Context {
    pub system_prompt: Option<String>,
    pub messages: Vec<Message>,
    pub tools: Vec<ToolDef>,
}

/// The mathematical value of [`Context`].
#[verifier::ext_equal]
pub struct ContextView {
    pub system_prompt: Option<Seq<char>>,
    pub messages: Seq<MessageView>,
    pub tools: Seq<ToolDefView>,
}

impl View for Context {
    type V = ContextView;

    open spec fn view(&self) -> ContextView {
        ContextView {
            system_prompt: opt_text(self.system_prompt),
            messages: self.messages.deep_view(),
            tools: self.tools.deep_view(),
        }
    }
}

impl DeepView for Context {
    type V = ContextView;

    open spec fn deep_view(&self) -> ContextView {
        self@
    }
}

impl Clone for Context {
    fn clone(&self) -> (r: Self)
        ensures
            r@ == self@,
    {
        Context {
            system_prompt: clone_opt_text(&self.system_prompt),
            messages: clone_messages(&self.messages),
            tools: clone_tool_defs(&self.tools),
        }
    }
}

/// The agent. `cached_tool_defs` holds the descriptions of the tools, or nothing after the tools
/// changed.
#[derive(Debug)]
pub struct Agent {
    pub provider: ProviderIdentity,
    pub tools: Vec<ToolInfo>,
    pub config: AgentConfig,
    pub messages: Vec<Message>,
    pub message_queue: MessageQueue,
    pub cached_tool_defs: Option<Vec<ToolDef>>,
}

/// The mathematical value of an [`Agent`].
#[verifier::ext_equal]
pub struct AgentView {
    pub provider: ProviderIdentityView,
    pub tools: Seq<ToolInfoView>,
    pub config: AgentConfigView,
    pub messages: Seq<MessageView>,
    pub queue: MessageQueueView,
}

impl View for Agent {
    type V = AgentView;

    open spec fn view(&self) -> AgentView {
        AgentView {
            provider: self.provider@,
            tools: self.tools.deep_view(),
            config: self.config@,
            messages: self.messages.deep_view(),
            queue: self.message_queue@,
        }
    }
}

impl AgentView {
    /// The context of the next completion request: the history without hidden messages, without
    /// images if they are blocked, and all tools.
    pub open spec fn context(self) -> ContextView {
        let shown = visible(self.messages);
        ContextView {
            system_prompt: self.config.system_prompt,
            messages: if self.config.block_images {
                shown.map_values(|m: MessageView| message_without_images(m))
            } else {
                shown
            },
            tools: tool_defs(self.tools),
        }
    }
}

/// What an aborted response leaves in the history: the partial response, if there is one, marked as
/// aborted.
pub open spec fn abort_message(
    provider: ProviderIdentityView,
    partial: Option<AssistantMessageView>,
    now: i64,
) -> AssistantMessageView {
    AssistantMessageView {
        stop_reason: StopReason::Aborted,
        error_message: Some("Aborted"@),
        timestamp: now,
        ..match partial {
            Some(p) => p,
            None => empty_response(provider),
        }
    }
}

/// What a failed response leaves in the history: the partial response, if there is one, marked as
/// failed.
pub open spec fn error_message(
    provider: ProviderIdentityView,
    partial: Option<AssistantMessageView>,
    text: Seq<char>,
    now: i64,
) -> AssistantMessageView {
    AssistantMessageView {
        stop_reason: StopReason::Error,
        error_message: Some(text),
        timestamp: now,
        ..match partial {
            Some(p) => p,
            None => empty_response(provider),
        }
    }
}

/// A response of a provider that says nothing.
pub open spec fn empty_response(provider: ProviderIdentityView) -> AssistantMessageView {
    AssistantMessageView {
        content: Seq::empty(),
        api: provider.api,
        provider: provider.name,
        model: provider.model_id,
        usage: no_usage(),
        stop_reason: StopReason::Stop,
        error_message: None,
        timestamp: 0,
    }
}

/// What counts of an optional response.
pub open spec fn opt_response(partial: Option<&AssistantMessage>) -> Option<AssistantMessageView> {
    match partial {
        Some(p) => Some(p@),
        None => None,
    }
}

impl Agent {
    /// The internal queues respect their bounds, and remembered tool descriptions are those of the
    /// tools.
    pub open spec fn wf(&self) -> bool {
        &&& self@.queue.wf()
        &&& match self.cached_tool_defs {
            Some(defs) => defs.deep_view() == tool_defs(self@.tools),
            None => true,
        }
    }

    /// A new agent with an empty history.
    pub fn new(provider: ProviderIdentity, tools: Vec<ToolInfo>, config: AgentConfig) -> (r: Self)
        ensures
            r@ == (AgentView {
                provider: provider@,
                tools: tools.deep_view(),
                config: config@,
                messages: Seq::empty(),
                queue: MessageQueueView {
                    steering: Seq::empty(),
                    follow_up: Seq::empty(),
                    steering_mode: QueueMode::OneAtATime,
                    follow_up_mode: QueueMode::OneAtATime,
                    next_seq: 0,
                },
            }),
            r.wf(),
    {
        let r = Agent {
            provider,
            tools,
            config,
            messages: Vec::new(),
            message_queue: MessageQueue::new(QueueMode::OneAtATime, QueueMode::OneAtATime),
            cached_tool_defs: None,
        };
        assert(r@.messages =~= Seq::empty());
        r
    }

    /// The history.
    pub fn messages(&self) -> (r: &Vec<Message>)
        ensures
            r.deep_view() == self@.messages,
    {
        &self.messages
    }

    /// Forgets the history.
    pub fn clear_messages(&mut self)
        ensures
            final(self)@ == (AgentView { messages: Seq::empty(), ..old(self)@ }),
            old(self).wf() ==> final(self).wf(),
    {
        self.messages = Vec::new();
        assert(self@.messages =~= Seq::empty());
    }

    /// Adds a message to the history, which forgets its oldest message when it is full.
    pub fn add_message(&mut self, message: Message)
        ensures
            final(self)@ == (AgentView {
                messages: bounded_push(old(self)@.messages, message@, MAX_AGENT_MESSAGES as nat),
                ..old(self)@
            }),
            old(self).wf() ==> final(self).wf(),
    {
        let ghost before = self@;
        if self.messages.len() >= MAX_AGENT_MESSAGES {
            let _ = self.messages.remove(0);
            assert(self.messages.deep_view() =~= before.messages.drop_first());
        }
        push_message(&mut self.messages, message);
    }

    /// Replaces the history.
    pub fn replace_messages(&mut self, messages: Vec<Message>)
        ensures
            final(self)@ == (AgentView { messages: messages.deep_view(), ..old(self)@ }),
            old(self).wf() ==> final(self).wf(),
    {
        self.messages = messages;
    }

    /// Switches to another provider.
    pub fn set_provider(&mut self, provider: ProviderIdentity)
        ensures
            final(self)@ == (AgentView { provider: provider@, ..old(self)@ }),
            old(self).wf() ==> final(self).wf(),
    {
        self.provider = provider;
    }

    /// Registers more tools.
    pub fn extend_tools(&mut self, tools: Vec<ToolInfo>)
        ensures
            final(self)@ == (AgentView {
                tools: old(self)@.tools + tools.deep_view(),
                ..old(self)@
            }),
            old(self).wf() ==> final(self).wf(),
    {
        let ghost before = self@;
        let ghost added = tools.deep_view();
        let mut tools = tools;
        self.tools.append(&mut tools);
        self.cached_tool_defs = None;
        assert(self.tools.deep_view() =~= before.tools + added);
    }

    /// Queues a message for the next delivery point of a run.
    pub fn queue_steering(&mut self, message: Message) -> (seq: u64)
        ensures
            seq == old(self)@.queue.next_seq,
            final(self)@ == (AgentView {
                queue: old(self)@.queue.pushed(QueueKind::Steering, message@),
                ..old(self)@
            }),
            old(self).wf() ==> final(self).wf(),
    {
        self.message_queue.push_steering(message)
    }

    /// Queues a message for when the run becomes idle.
    pub fn queue_follow_up(&mut self, message: Message) -> (seq: u64)
        ensures
            seq == old(self)@.queue.next_seq,
            final(self)@ == (AgentView {
                queue: old(self)@.queue.pushed(QueueKind::FollowUp, message@),
                ..old(self)@
            }),
            old(self).wf() ==> final(self).wf(),
    {
        self.message_queue.push_follow_up(message)
    }

    /// Changes how many messages one delivery takes.
    pub fn set_queue_modes(&mut self, steering: QueueMode, follow_up: QueueMode)
        ensures
            final(self)@ == (AgentView {
                queue: MessageQueueView {
                    steering_mode: steering,
                    follow_up_mode: follow_up,
                    ..old(self)@.queue
                },
                ..old(self)@
            }),
            old(self).wf() ==> final(self).wf(),
    {
        self.message_queue.set_modes(steering, follow_up);
    }

    /// How many messages one delivery takes.
    pub fn queue_modes(&self) -> (r: (QueueMode, QueueMode))
        ensures
            r == (self@.queue.steering_mode, self@.queue.follow_up_mode),
    {
        (self.message_queue.steering_mode, self.message_queue.follow_up_mode)
    }

    /// How many messages wait.
    pub fn queued_message_count(&self) -> (r: usize)
        requires
            self.wf(),
        ensures
            r == self@.queue.steering.len() + self@.queue.follow_up.len(),
    {
        self.message_queue.pending_count()
    }

    /// Who answers completion requests.
    pub fn provider(&self) -> (r: ProviderIdentity)
        ensures
            r@ == self@.provider,
    {
        self.provider.clone()
    }

    /// The options of completion requests.
    pub fn stream_options(&self) -> (r: &StreamOptions)
        ensures
            r@ == self@.config.stream_options,
    {
        &self.config.stream_options
    }

    /// The options of completion requests, to be changed in place.
    pub fn stream_options_mut(&mut self) -> (r: &mut StreamOptions)
        ensures
            *r == old(self).config.stream_options,
            final(self)@ == (AgentView {
                config: AgentConfigView {
                    stream_options: final(r)@,
                    ..old(self)@.config
                },
                ..old(self)@
            }),
            old(self).wf() ==> final(self).wf(),
    {
        &mut self.config.stream_options
    }

    /// Changes the options of completion requests.
    pub fn set_stream_options(&mut self, options: StreamOptions)
        ensures
            final(self)@ == (AgentView {
                config: AgentConfigView { stream_options: options@, ..old(self)@.config },
                ..old(self)@
            }),
            old(self).wf() ==> final(self).wf(),
    {
        self.config.stream_options = options;
    }

    /// The system prompt.
    pub fn system_prompt(&self) -> (r: Option<&str>)
        ensures
            setting_text(r) == self@.config.system_prompt,
    {
        match &self.config.system_prompt {
            Some(s) => Some(s.as_str()),
            None => None,
        }
    }

    /// Replaces the system prompt.
    pub fn set_system_prompt(&mut self, system_prompt: Option<String>)
        ensures
            final(self)@ == (AgentView {
                config: AgentConfigView {
                    system_prompt: opt_text(system_prompt),
                    ..old(self)@.config
                },
                ..old(self)@
            }),
            old(self).wf() ==> final(self).wf(),
    {
        self.config.system_prompt = system_prompt;
    }

    fn describe_tools(&self) -> (r: Vec<ToolDef>)
        ensures
            r.deep_view() == tool_defs(self@.tools),
    {
        let mut r: Vec<ToolDef> = Vec::new();
        let mut i: usize = 0;
        while i < self.tools.len()
            invariant
                i <= self.tools@.len(),
                r@.len() == i,
                forall|j: int| 0 <= j < i ==> (#[trigger] r@[j])@ == tool_defs(self@.tools)[j],
            decreases self.tools@.len() - i,
        {
            let tool = &self.tools[i];
            let def = ToolDef {
                name: tool.name.clone(),
                description: tool.description.clone(),
                parameters: tool.parameters.clone(),
            };
            assert(def@ == tool_defs(self@.tools)[i as int]);
            r.push(def);
            i += 1;
        }
        assert(r.deep_view() =~= tool_defs(self@.tools));
        r
    }

    /// The context of the next completion request. Tool descriptions are made once and remembered.
    pub fn build_context(&mut self) -> (r: Context)
        requires
            old(self).wf(),
        ensures
            r@ == old(self)@.context(),
            final(self)@ == old(self)@,
            final(self).cached_tool_defs is Some,
            final(self).wf(),
    {
        let mut messages = visible_messages(&self.messages);
        if self.config.block_images {
            let _ = filter_images_for_provider(&mut messages);
        }
        let tools = match &self.cached_tool_defs {
            Some(defs) => clone_tool_defs(defs),
            None => {
                let defs = self.describe_tools();
                let tools = clone_tool_defs(&defs);
                self.cached_tool_defs = Some(defs);
                tools
            },
        };
        Context { system_prompt: clone_opt_text(&self.config.system_prompt), messages, tools }
    }

    /// What a tool may touch; an unknown tool counts as one that writes.
    pub fn tool_effects(&self, name: &String) -> (r: ToolEffects)
        ensures
            r == effects_of(self@.tools, name@),
    {
        let ghost all = self@.tools;
        assert(all.skip(0) =~= all);
        let mut i: usize = 0;
        while i < self.tools.len()
            invariant
                i <= self.tools@.len(),
                all == self@.tools,
                effects_of(all.skip(i as int), name@) == effects_of(all, name@),
            decreases self.tools@.len() - i,
        {
            let ghost rest = all.skip(i as int);
            assert(rest[0] == self.tools@[i as int]@);
            assert(rest.drop_first() =~= all.skip(i + 1));
            if self.tools[i].name == *name {
                return self.tools[i].effects;
            }
            i += 1;
        }
        ToolEffects::write()
    }

    /// A response that says nothing, made at `now`.
    pub fn empty_response_at(&self, now: i64) -> (r: AssistantMessage)
        ensures
            r@ == (AssistantMessageView { timestamp: now, ..empty_response(self@.provider) }),
    {
        let r = AssistantMessage {
            content: Vec::new(),
            api: self.provider.api.clone(),
            provider: self.provider.name.clone(),
            model: self.provider.model_id.clone(),
            usage: Usage::default(),
            stop_reason: StopReason::Stop,
            error_message: None,
            timestamp: now,
        };
        assert(r@.content =~= Seq::<ContentBlockView>::empty());
        r
    }

    /// What an aborted response leaves in the history.
    pub fn build_abort_message_at(
        &self,
        partial: Option<&AssistantMessage>,
        now: i64,
    ) -> (r: AssistantMessage)
        ensures
            r@ == abort_message(self@.provider, opt_response(partial), now),
    {
        let mut message = match partial {
            Some(p) => p.clone(),
            None => self.empty_response_at(now),
        };
        message.stop_reason = StopReason::Aborted;
        message.error_message = Some(owned("Aborted"));
        message.timestamp = now;
        message
    }

    /// What an aborted response leaves in the history, at the present time.
    pub fn build_abort_message(&self, partial: Option<&AssistantMessage>) -> (r: AssistantMessage)
        ensures
            r@ == abort_message(self@.provider, opt_response(partial), r@.timestamp),
    {
        self.build_abort_message_at(partial, now_millis())
    }

    /// What a failed response leaves in the history.
    pub fn build_error_message_at(
        &self,
        partial: Option<&AssistantMessage>,
        error_text: String,
        now: i64,
    ) -> (r: AssistantMessage)
        ensures
            r@ == error_message(self@.provider, opt_response(partial), error_text@, now),
    {
        let mut message = match partial {
            Some(p) => p.clone(),
            None => self.empty_response_at(now),
        };
        message.stop_reason = StopReason::Error;
        message.error_message = Some(error_text);
        message.timestamp = now;
        message
    }

    /// What a failed response leaves in the history, at the present time.
    pub fn build_error_message(
        &self,
        partial: Option<&AssistantMessage>,
        error_text: String,
    ) -> (r: AssistantMessage)
        ensures
            r@ == error_message(
                self@.provider,
                opt_response(partial),
                error_text@,
                r@.timestamp,
            ),
    {
        self.build_error_message_at(partial, error_text, now_millis())
    }

    /// Takes in what fetchers brought and takes the next steering delivery.
    pub fn drain_steering_messages(&mut self, fetched: Vec<Message>) -> (r: Vec<Message>)
        ensures
            r.deep_view() == old(self)@.drained(QueueKind::Steering, fetched.deep_view()),
            final(self)@ == old(self)@.after_drain(QueueKind::Steering, fetched.deep_view()),
            old(self).wf() ==> final(self).wf(),
            final(self).tools == old(self).tools,
    {
        self.message_queue.push_all(QueueKind::Steering, fetched);
        self.message_queue.pop_steering()
    }

    /// Takes in what fetchers brought and takes the next follow-up delivery.
    pub fn drain_follow_up_messages(&mut self, fetched: Vec<Message>) -> (r: Vec<Message>)
        ensures
            r.deep_view() == old(self)@.drained(QueueKind::FollowUp, fetched.deep_view()),
            final(self)@ == old(self)@.after_drain(QueueKind::FollowUp, fetched.deep_view()),
            old(self).wf() ==> final(self).wf(),
            final(self).tools == old(self).tools,
    {
        self.message_queue.push_all(QueueKind::FollowUp, fetched);
        self.message_queue.pop_follow_up()
    }
}

impl AgentView {
    /// The delivery that is due once `fetched` has been queued.
    pub open spec fn drained(self, kind: QueueKind, fetched: Seq<MessageView>) -> Seq<MessageView> {
        self.queue.pushed_all(kind, fetched).next_delivery(kind)
    }

    /// The agent once `fetched` has been queued and the delivery was taken.
    pub open spec fn after_drain(self, kind: QueueKind, fetched: Seq<MessageView>) -> Self {
        AgentView { queue: self.queue.pushed_all(kind, fetched).after_delivery(kind), ..self }
    }
}

/// The history never grows past its bound by adding messages, and the newest message is kept.
pub proof fn history_stays_bounded(history: Seq<MessageView>, message: MessageView)
    requires
        history.len() <= MAX_AGENT_MESSAGES,
    ensures
        bounded_push(history, message, MAX_AGENT_MESSAGES as nat).len() <= MAX_AGENT_MESSAGES,
        bounded_push(history, message, MAX_AGENT_MESSAGES as nat).last() == message,
{
}

/// The provider sees no hidden message, and no image if images are blocked.
pub proof fn context_is_filtered(agent: AgentView, i: int)
    requires
        0 <= i < agent.context().messages.len(),
    ensures
        is_visible(agent.context().messages[i]),
        agent.config.block_images ==> image_count(
            blocks_of(agent.context().messages[i]),
        ) == 0,
{
    let shown = visible(agent.messages);
    let keep = |m: MessageView| is_visible(m);
    agent.messages.lemma_filter_pred(keep, i);
    assert(keep(shown[i]));
    match shown[i] {
        MessageView::User(u) => match u.content {
            UserContentView::Blocks(b) => no_image_is_left(b),
            UserContentView::Text(_) => {},
        },
        MessageView::Assistant(a) => no_image_is_left(a.content),
        MessageView::ToolResult(t) => no_image_is_left(t.content),
        MessageView::Custom(_) => {},
    }
}

/// Taking the images out of a message twice is the same as taking them out once.
pub proof fn images_are_taken_out_once(m: MessageView)
    ensures
        message_without_images(message_without_images(m)) == message_without_images(m),
{
    match m {
        MessageView::User(u) => match u.content {
            UserContentView::Blocks(b) => {
                crate::content::taking_images_out_is_idempotent(b);
            },
            UserContentView::Text(_) => {},
        },
        MessageView::Assistant(a) => crate::content::taking_images_out_is_idempotent(a.content),
        MessageView::ToolResult(t) => crate::content::taking_images_out_is_idempotent(t.content),
        MessageView::Custom(_) => {},
    }
}

} // verus!
