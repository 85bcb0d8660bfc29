//! A session: what it keeps between turns, and what of a run it writes down.
use vstd::prelude::*;

use crate::agent::{Agent, AgentView};
use crate::extensions::{repair_mode, runtime_repair_mode, ExtensionLink, RepairMode, RepairPolicyMode};
use crate::host::{ExtensionInjectedQueueView, ExtensionQueueModeState, HostState, HostStateView};
use crate::input::InputSource;
use crate::json::{Json, JsonView};
use crate::model::{Message, MessageView, StopReason};
use crate::queue::{MessageQueueView, QueueMode};
use crate::selection::{normalize_api_key, normalized, refreshed, ExtensionAiCompletionHostState};
use crate::semantic::{SemanticContextBundleInjection, SemanticContextBundleInjectionView};
use crate::text::opt_text;

verus! {

/// How a session compacts its history.
#[derive(Debug, Clone, Copy, PartialEq, Eq, Structural)]
pub struct CompactionSettings {
    pub enabled: bool,
    pub context_window_tokens: u32,
}

/// A session, apart from what it shares with its extensions.
#[derive(Debug)]
pub struct AgentSession {
    pub agent: Agent,
    pub save_enabled: bool,
    pub input_source: InputSource,
    pub link: ExtensionLink,
    pub completion: ExtensionAiCompletionHostState,
    pub compaction: CompactionSettings,
    pub api_key_override: Option<String>,
    pub semantic_context_bundle: Option<SemanticContextBundleInjection>,
}

/// The value of an optional injection.
pub open spec fn opt_injection(i: Option<SemanticContextBundleInjection>) -> Option<
    SemanticContextBundleInjectionView,
> {
    match i {
        Some(v) => Some(v@),
        None => None,
    }
}

/// The value of an optional reference to an injection.
pub open spec fn opt_injection_ref(i: Option<&SemanticContextBundleInjection>) -> Option<
    SemanticContextBundleInjectionView,
> {
    match i {
        Some(v) => Some(v@),
        None => None,
    }
}

impl AgentSession {
    /// The engine's repair mode for a setting.
    pub fn runtime_repair_mode_from_policy_mode(mode: RepairPolicyMode) -> (r: RepairMode)
        ensures
            r == repair_mode(mode),
    {
        runtime_repair_mode(mode)
    }

    /// A new session around an agent.
    pub fn new(agent: Agent, save_enabled: bool, compaction: CompactionSettings) -> (r: Self)
        ensures
            r.agent@ == agent@,
            agent.wf() ==> r.agent.wf(),
            r.save_enabled == save_enabled,
            r.input_source == InputSource::Interactive,
            r.link == (ExtensionLink { enabled: false, modes: None }),
            r.completion@.provider == agent@.provider,
            r.completion@.stream_options == agent@.config.stream_options,
            r.completion@.models == Seq::<JsonView>::empty(),
            r.compaction == compaction,
            r.api_key_override is None,
            r.semantic_context_bundle is None,
    {
        let completion = ExtensionAiCompletionHostState::new(&agent);
        AgentSession {
            agent,
            save_enabled,
            input_source: InputSource::Interactive,
            link: ExtensionLink { enabled: false, modes: None },
            completion,
            compaction,
            api_key_override: None,
            semantic_context_bundle: None,
        }
    }

    /// Says where input comes from.
    pub fn set_input_source(&mut self, source: InputSource)
        ensures
            *final(self) == (AgentSession { input_source: source, ..*old(self) }),
    {
        self.input_source = source;
    }

    /// Replaces the key that was given for the session.
    pub fn set_api_key_override(&mut self, api_key: Option<String>)
        ensures
            opt_text(final(self).api_key_override) == normalized(opt_text(api_key)),
            *final(self) == (AgentSession {
                api_key_override: final(self).api_key_override,
                ..*old(self)
            }),
    {
        self.api_key_override = normalize_api_key(&api_key);
    }

    /// The session with a key that is given for it.
    pub fn with_api_key_override(self, api_key: Option<String>) -> (r: Self)
        ensures
            opt_text(r.api_key_override) == normalized(opt_text(api_key)),
            r == (AgentSession { api_key_override: r.api_key_override, ..self }),
    {
        let mut session = self;
        session.set_api_key_override(api_key);
        session
    }

    /// Brings what completions for extensions go by up to date.
    pub fn refresh_extension_completion_host_state(&mut self)
        ensures
            final(self).completion@ == refreshed(old(self).completion@, old(self).agent@),
            *final(self) == (AgentSession { completion: final(self).completion, ..*old(self) }),
    {
        self.completion.refresh(&self.agent);
    }

    /// Replaces the catalogue of models that extensions see.
    pub fn set_extension_ai_models(&mut self, models: Vec<Json>)
        ensures
            final(self).completion@.models == models.deep_view(),
            final(self).completion@.provider == old(self).completion@.provider,
            final(self).completion@.stream_options == old(self).completion@.stream_options,
            *final(self) == (AgentSession { completion: final(self).completion, ..*old(self) }),
    {
        self.completion.set_models(models);
    }

    /// Replaces the bundle that is attached to turns.
    pub fn set_semantic_context_bundle(&mut self, injection: Option<SemanticContextBundleInjection>)
        ensures
            *final(self) == (AgentSession { semantic_context_bundle: injection, ..*old(self) }),
    {
        self.semantic_context_bundle = injection;
    }

    /// The bundle that is attached to turns.
    pub fn semantic_context_bundle(&self) -> (r: Option<&SemanticContextBundleInjection>)
        ensures
            opt_injection_ref(r) == opt_injection(self.semantic_context_bundle),
    {
        match &self.semantic_context_bundle {
            Some(i) => Some(i),
            None => None,
        }
    }

    /// Changes how many messages one delivery takes: in the agent and, once extensions are connected,
    /// in what they see and in their queue.
    pub fn set_queue_modes(
        &mut self,
        host: &mut HostState,
        steering_mode: QueueMode,
        follow_up_mode: QueueMode,
    )
        ensures
            final(self).agent@ == (AgentView {
                queue: MessageQueueView {
                    steering_mode,
                    follow_up_mode,
                    ..old(self).agent@.queue
                },
                ..old(self).agent@
            }),
            old(self).agent.wf() ==> final(self).agent.wf(),
            final(self).link == (ExtensionLink {
                modes: if old(self).link.modes is Some {
                    Some(ExtensionQueueModeState { steering_mode, follow_up_mode })
                } else {
                    None
                },
                ..old(self).link
            }),
            final(host)@ == (HostStateView {
                injected: if old(self).link.modes is Some {
                    ExtensionInjectedQueueView {
                        steering_mode,
                        follow_up_mode,
                        ..old(host)@.injected
                    }
                } else {
                    old(host)@.injected
                },
                ..old(host)@
            }),
            *final(self) == (AgentSession {
                agent: final(self).agent,
                link: final(self).link,
                ..*old(self)
            }),
    {
        self.agent.set_queue_modes(steering_mode, follow_up_mode);
        if self.link.modes.is_some() {
            self.link.modes = Some(ExtensionQueueModeState::new(steering_mode, follow_up_mode));
            host.injected.set_modes(steering_mode, follow_up_mode);
        }
    }

    /// Changes the size of the model's context window.
    pub fn set_compaction_context_window(&mut self, context_window_tokens: u32)
        ensures
            *final(self) == (AgentSession {
                compaction: CompactionSettings {
                    context_window_tokens,
                    ..old(self).compaction
                },
                ..*old(self)
            }),
    {
        self.compaction.context_window_tokens = context_window_tokens;
    }

    /// Takes over the history after the session dropped its last message of the user; `reverted` is
    /// that history, if there was such a message. Says whether there was.
    pub fn revert_last_user_message(&mut self, reverted: Option<Vec<Message>>) -> (r: bool)
        ensures
            r == (reverted is Some),
            final(self).agent@ == (match reverted {
                Some(history) => AgentView {
                    messages: history.deep_view(),
                    ..old(self).agent@
                },
                None => old(self).agent@,
            }),
            old(self).agent.wf() ==> final(self).agent.wf(),
            *final(self) == (AgentSession { agent: final(self).agent, ..*old(self) }),
    {
        match reverted {
            Some(history) => {
                self.agent.replace_messages(history);
                true
            },
            None => false,
        }
    }

    /// Whether the session is saved.
    pub fn save_enabled(&self) -> (r: bool)
        ensures
            r == self.save_enabled,
    {
        self.save_enabled
    }
}

/// Whether a message only says that there was no response.
pub open spec fn is_synthetic_error(m: MessageView) -> bool {
    match m {
        MessageView::Assistant(a) => a.content.len() == 0 && a.stop_reason == StopReason::Error
            && a.error_message is Some,
        _ => false,
    }
}

/// Whether a message only says that there was no response.
pub fn is_synthetic_empty_error_assistant(message: &Message) -> (r: bool)
    ensures
        r == is_synthetic_error(message@),
{
    match message {
        Message::Assistant(a) => a.content.len() == 0 && (match a.stop_reason {
            StopReason::Error => true,
            _ => false,
        }) && a.error_message.is_some(),
        _ => false,
    }
}

/// Whether a new message is written to the session: everything, but for messages that only say that
/// there was no response to a run that failed.
pub open spec fn is_kept(run_failed: bool, m: MessageView) -> bool {
    !(run_failed && is_synthetic_error(m))
}

/// The messages from number `from` on that are written to the session.
pub open spec fn kept_messages(messages: Seq<MessageView>, from: nat, run_failed: bool) -> Seq<
    MessageView,
> {
    if from <= messages.len() {
        messages.skip(from as int).filter(|m: MessageView| is_kept(run_failed, m))
    } else {
        Seq::empty()
    }
}

/// The messages from number `from` on that are written to the session.
pub fn messages_to_persist(messages: &Vec<Message>, from: usize, run_failed: bool) -> (r: Vec<
    Message,
>)
    ensures
        r.deep_view() == kept_messages(messages.deep_view(), from as nat, run_failed),
{
    let ghost all = messages.deep_view();
    let ghost keep = |m: MessageView| is_kept(run_failed, m);
    let mut r: Vec<Message> = Vec::new();
    if from > messages.len() {
        assert(r.deep_view() =~= Seq::empty());
        return r;
    }
    let ghost rest = all.skip(from as int);
    let mut i: usize = from;
    assert(r.deep_view() =~= rest.take(0).filter(keep)) by {
        reveal(Seq::filter);
    }
    while i < messages.len()
        invariant
            from <= i <= messages@.len(),
            all == messages.deep_view(),
            rest == all.skip(from as int),
            keep == (|m: MessageView| is_kept(run_failed, m)),
            r.deep_view() == rest.take(i - from).filter(keep),
        decreases messages@.len() - i,
    {
        let ghost before = r.deep_view();
        proof {
            reveal(Seq::filter);
            let next = rest.take(i - from + 1);
            assert(next.drop_last() =~= rest.take(i - from));
            assert(next.last() == messages@[i as int]@);
        }
        if !(run_failed && is_synthetic_empty_error_assistant(&messages[i])) {
            r.push(messages[i].clone());
            assert(r.deep_view() =~= before.push(messages@[i as int]@));
        }
        i += 1;
    }
    assert(rest.take(i - from) =~= rest);
    r
}

/// A run that failed leaves no message that only says so, and a run that did not leaves everything that
/// it added.
pub proof fn persisted_messages_are_the_new_ones(
    messages: Seq<MessageView>,
    from: nat,
    run_failed: bool,
    m: MessageView,
)
    requires
        from <= messages.len(),
    ensures
        kept_messages(messages, from, run_failed).contains(m) <==> messages.skip(
            from as int,
        ).contains(m) && is_kept(run_failed, m),
        !run_failed ==> kept_messages(messages, from, run_failed) == messages.skip(from as int),
{
    let rest = messages.skip(from as int);
    let keep = |m: MessageView| is_kept(run_failed, m);
    lemma_filter_members(rest, keep, m);
    if !run_failed {
        lemma_filter_keeps_all(rest, keep);
    }
}

/// A session that held `history`, wrote the message of the turn and then what is kept of the run holds what
/// the agent holds after the run: all of it if the run did not fail, and otherwise all but the messages
/// that only say that there was no response.
pub proof fn session_holds_what_the_agent_holds(
    history: Seq<MessageView>,
    prompt: MessageView,
    rest: Seq<MessageView>,
    run_failed: bool,
)
    ensures
        ({
            let agent = history.push(prompt) + rest;
            let stored = history.push(prompt) + kept_messages(
                agent,
                (history.len() + 1) as nat,
                run_failed,
            );
            &&& !run_failed ==> stored == agent
            &&& stored == history.push(prompt) + rest.filter(
                |m: MessageView| is_kept(run_failed, m),
            )
        }),
{
    let agent = history.push(prompt) + rest;
    let from = (history.len() + 1) as nat;
    assert(agent.skip(from as int) =~= rest);
    persisted_messages_are_the_new_ones(agent, from, run_failed, prompt);
}

proof fn lemma_filter_members(
    s: Seq<MessageView>,
    keep: spec_fn(MessageView) -> bool,
    m: MessageView,
)
    ensures
        s.filter(keep).contains(m) <==> s.contains(m) && keep(m),
    decreases s.len(),
{
    reveal(Seq::filter);
    if s.len() > 0 {
        let front = s.drop_last();
        lemma_filter_members(front, keep, m);
        assert(s =~= front.push(s.last()));
        lemma_push_members(front, s.last(), m);
        lemma_push_members(front.filter(keep), s.last(), m);
    }
}

proof fn lemma_push_members(s: Seq<MessageView>, last: MessageView, m: MessageView)
    ensures
        s.push(last).contains(m) <==> s.contains(m) || m == last,
{
    let t = s.push(last);
    if s.contains(m) {
        let i = choose|i: int| 0 <= i < s.len() && s[i] == m;
        assert(t[i] == m);
    }
    if m == last {
        assert(t[s.len() as int] == m);
    }
}

proof fn lemma_filter_keeps_all(s: Seq<MessageView>, keep: spec_fn(MessageView) -> bool)
    requires
        forall|m: MessageView| #[trigger] keep(m),
    ensures
        s.filter(keep) == s,
    decreases s.len(),
{
    reveal(Seq::filter);
    if s.len() > 0 {
        lemma_filter_keeps_all(s.drop_last(), keep);
        assert(keep(s.last()));
        assert(s.drop_last().push(s.last()) =~= s);
    }
}

} // verus!
