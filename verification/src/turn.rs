//! A turn of a session: what happens from the input to the messages that are written down.
use vstd::prelude::*;

use crate::agent::{Agent, AgentConfigView, AgentView, ProviderIdentityView};
use crate::clock::now_millis;
use crate::error::{Error, ErrorView};
use crate::host::{HostState, HostStateView};
use crate::input::{
    build_content_blocks_for_input, input_blocks, input_images, input_text,
    split_content_blocks_for_input,
};
use crate::model::{
    clone_blocks, clone_messages, push_message, AssistantMessage, AssistantMessageView,
    ContentBlock, ContentBlockView, CustomMessage, ImageContent, ImageContentView, Message,
    MessageView, UserContent, UserContentView, UserMessage, UserMessageView,
};
use crate::semantic::{
    context_message, identity_bytes, opt_prepared, prepare_semantic_context_prompt,
    prepared_prompt, semantic_context_prompt_message, semantic_context_system_prompt_for_turn, sha256,
    turn_system_prompt, PreparedSemanticContextPrompt, PreparedSemanticContextPromptView,
    SemanticContextBundleInjection, SemanticContextBundleInjectionView,
};
use crate::session::{
    kept_messages, messages_to_persist, opt_injection, opt_injection_ref, AgentSession,
};
use crate::text::{clone_opt_text, lower_hex, opt_text, owned};

verus! {

/// What a turn starts from.
#[derive(Debug, PartialEq, Eq)]
pub enum TurnBody {
    /// A text of the user.
    Text(String),
    /// Text and images of the user.
    Blocks(Vec<ContentBlock>),
    /// A message of an extension.
    Message(Message),
}

/// The mathematical value of [`TurnBody`].
#[verifier::ext_equal]
pub enum TurnBodyView {
    Text(Seq<char>),
    Blocks(Seq<ContentBlockView>),
    Message(MessageView),
}

impl View for TurnBody {
    type V = TurnBodyView;

    open spec fn view(&self) -> TurnBodyView {
        match *self {
            TurnBody::Text(t) => TurnBodyView::Text(t@),
            TurnBody::Blocks(b) => TurnBodyView::Blocks(b.deep_view()),
            TurnBody::Message(m) => TurnBodyView::Message(m@),
        }
    }
}

impl TurnBodyView {
    /// The message that a turn starts with.
    pub open spec fn message(self, now: i64) -> MessageView {
        match self {
            TurnBodyView::Text(t) => MessageView::User(
                UserMessageView { content: UserContentView::Text(t), timestamp: now },
            ),
            TurnBodyView::Blocks(b) => MessageView::User(
                UserMessageView { content: UserContentView::Blocks(b), timestamp: now },
            ),
            TurnBodyView::Message(m) => m,
        }
    }

    /// The prompts of a turn: its message first; the context bundle stands before the messages of
    /// extensions, except behind a message of an extension, where it comes last.
    pub open spec fn prompts(
        self,
        now: i64,
        context: Seq<MessageView>,
        custom: Seq<MessageView>,
    ) -> Seq<MessageView> {
        match self {
            TurnBodyView::Message(_) => seq![self.message(now)] + custom + context,
            _ => seq![self.message(now)] + context + custom,
        }
    }
}

/// What a turn of a session waits for.
#[derive(Debug, Clone, Copy, PartialEq, Eq, Structural)]
pub enum TurnPhase {
    /// What extensions say of the input; `blocks` says that the turn started from blocks.
    Input { blocks: bool },
    /// What extensions say before the agent starts.
    BeforeStart,
    /// That the agent is in line with the session.
    Sync,
    /// That the history was compacted as far as needed.
    Compact,
    /// The history.
    History,
    /// That the message of the turn was written.
    Append,
    /// The run of the agent.
    Run,
    /// That new messages were written.
    Persist,
    /// Nothing more.
    Done,
}

/// A turn of a session.
#[derive(Debug)]
pub struct SessionTurn {
    pub body: TurnBody,
    /// Whether there are extensions to ask.
    pub hooked: bool,
    /// The system prompt before the turn.
    pub base_prompt: Option<String>,
    /// The system prompt of the turn, without a context bundle.
    pub turn_prompt: Option<String>,
    /// The messages that extensions add to the turn.
    pub custom: Vec<Message>,
    pub prepared: Option<PreparedSemanticContextPrompt>,
    pub prompts: Vec<Message>,
    /// How long the history was.
    pub start_len: usize,
    pub result: Option<Result<AssistantMessage, Error>>,
    pub phase: TurnPhase,
}

/// What a run came to.
#[verifier::ext_equal]
pub enum OutcomeView {
    Response(AssistantMessageView),
    Failure(ErrorView),
}

/// The value of an outcome.
pub open spec fn outcome(r: Result<AssistantMessage, Error>) -> OutcomeView {
    match r {
        Ok(m) => OutcomeView::Response(m@),
        Err(e) => OutcomeView::Failure(e@),
    }
}

/// The value of an optional outcome.
pub open spec fn opt_outcome(r: Option<Result<AssistantMessage, Error>>) -> Option<OutcomeView> {
    match r {
        Some(o) => Some(outcome(o)),
        None => None,
    }
}

/// The mathematical value of [`SessionTurn`].
#[verifier::ext_equal]
pub struct SessionTurnView {
    pub body: TurnBodyView,
    pub hooked: bool,
    pub base_prompt: Option<Seq<char>>,
    pub turn_prompt: Option<Seq<char>>,
    pub custom: Seq<MessageView>,
    pub prepared: Option<PreparedSemanticContextPromptView>,
    pub prompts: Seq<MessageView>,
    pub start_len: nat,
    pub result: Option<OutcomeView>,
    pub phase: TurnPhase,
}

impl View for SessionTurn {
    type V = SessionTurnView;

    open spec fn view(&self) -> SessionTurnView {
        SessionTurnView {
            body: self.body@,
            hooked: self.hooked,
            base_prompt: opt_text(self.base_prompt),
            turn_prompt: opt_text(self.turn_prompt),
            custom: self.custom.deep_view(),
            prepared: opt_prepared(self.prepared),
            prompts: self.prompts.deep_view(),
            start_len: self.start_len as nat,
            result: opt_outcome(self.result),
            phase: self.phase,
        }
    }
}

/// What extensions say of input.
#[derive(Debug, PartialEq, Eq)]
pub enum InputOutcome {
    /// The input goes on, perhaps changed.
    Continue { text: String, images: Vec<ImageContent> },
    /// The input is blocked.
    Block { reason: Option<String> },
}

/// What extensions add to a turn.
#[derive(Debug, PartialEq, Eq)]
pub struct BeforeAgentStart {
    pub messages: Vec<CustomMessage>,
    pub system_prompt: Option<String>,
}

/// What a turn answers to.
#[derive(Debug, PartialEq, Eq)]
pub enum TurnInput {
    /// What extensions say of the input.
    Input(Result<InputOutcome, Error>),
    /// What extensions add before the agent starts. Where they fail, nothing is added.
    BeforeStart(Result<BeforeAgentStart, Error>),
    /// Whether a step outside went well: syncing, compacting, or writing.
    Done(Result<(), Error>),
    /// The history, and the context bundle as JSON if it could be serialised.
    History { messages: Result<Vec<Message>, Error>, serialized: Option<Vec<u8>> },
    /// What the run came to.
    Run(Result<AssistantMessage, Error>),
}

/// What a turn asks for next.
#[derive(Debug, PartialEq, Eq)]
pub enum TurnAction {
    /// Ask extensions about the input.
    DispatchInput { text: String, images: Vec<ImageContent> },
    /// Tell extensions that the agent is about to start.
    DispatchBeforeStart { text: String, images: Vec<ImageContent>, system_prompt: String },
    /// Bring the agent in line with the session.
    Sync,
    /// Compact the history as far as needed.
    Compact,
    /// Read the history.
    LoadHistory,
    /// Write the message of the turn to the session.
    Append(Message),
    /// Run the agent.
    Run(Vec<Message>),
    /// Write new messages to the session.
    Persist(Vec<Message>),
    /// The turn is over.
    Finish(Result<AssistantMessage, Error>),
}

/// The mathematical value of [`TurnAction`].
#[verifier::ext_equal]
pub enum TurnActionView {
    DispatchInput { text: Seq<char>, images: Seq<ImageContentView> },
    DispatchBeforeStart {
        text: Seq<char>,
        images: Seq<ImageContentView>,
        system_prompt: Seq<char>,
    },
    Sync,
    Compact,
    LoadHistory,
    Append(MessageView),
    Run(Seq<MessageView>),
    Persist(Seq<MessageView>),
    Finish(OutcomeView),
}

impl View for TurnAction {
    type V = TurnActionView;

    open spec fn view(&self) -> TurnActionView {
        match *self {
            TurnAction::DispatchInput { text, images } => TurnActionView::DispatchInput {
                text: text@,
                images: images.deep_view(),
            },
            TurnAction::DispatchBeforeStart { text, images, system_prompt } => {
                TurnActionView::DispatchBeforeStart {
                    text: text@,
                    images: images.deep_view(),
                    system_prompt: system_prompt@,
                }
            },
            TurnAction::Sync => TurnActionView::Sync,
            TurnAction::Compact => TurnActionView::Compact,
            TurnAction::LoadHistory => TurnActionView::LoadHistory,
            TurnAction::Append(m) => TurnActionView::Append(m@),
            TurnAction::Run(ms) => TurnActionView::Run(ms.deep_view()),
            TurnAction::Persist(ms) => TurnActionView::Persist(ms.deep_view()),
            TurnAction::Finish(r) => TurnActionView::Finish(outcome(r)),
        }
    }
}

/// A turn together with what it changes: the agent, and what the session shares with its extensions.
#[verifier::ext_equal]
pub struct TurnWorld {
    pub turn: SessionTurnView,
    pub agent: AgentView,
    pub host: HostStateView,
}

/// An agent with another system prompt.
pub open spec fn prompted(agent: AgentView, system_prompt: Option<Seq<char>>) -> AgentView {
    AgentView { config: AgentConfigView { system_prompt, ..agent.config }, ..agent }
}

/// The messages of extensions, as the history holds them.
pub open spec fn custom_views(ms: Seq<CustomMessage>) -> Seq<MessageView> {
    ms.map_values(|m: CustomMessage| MessageView::Custom(m@))
}

/// A text, or an empty one.
pub open spec fn text_or_empty(s: Option<Seq<char>>) -> Seq<char> {
    match s {
        Some(t) => t,
        None => Seq::empty(),
    }
}

/// The context bundle as prepared for a turn.
pub open spec fn prepared_for(
    provider: ProviderIdentityView,
    injection: Option<SemanticContextBundleInjectionView>,
    serialized: Option<Vec<u8>>,
) -> Option<PreparedSemanticContextPromptView> {
    match injection {
        Some(i) => prepared_prompt(
            provider,
            i,
            lower_hex(
                sha256(
                    identity_bytes(
                        i.bundle,
                        match serialized {
                            Some(bytes) => Some(bytes@),
                            None => None,
                        },
                    ),
                ),
            ),
        ),
        None => None,
    }
}

/// The message that attaches a prepared bundle, if there is one.
pub open spec fn context_messages(
    prepared: Option<PreparedSemanticContextPromptView>,
    now: i64,
) -> Seq<MessageView> {
    match prepared {
        Some(p) => seq![context_message(p, now)],
        None => Seq::empty(),
    }
}

impl SessionTurnView {
    /// How the turn ends, once its messages were written or could not be written.
    pub open spec fn outcome_after(self, done: Result<(), Error>) -> OutcomeView {
        match (self.result, done) {
            (Some(OutcomeView::Failure(e)), _) => OutcomeView::Failure(e),
            (Some(OutcomeView::Response(_)), Err(e)) => OutcomeView::Failure(e@),
            (Some(OutcomeView::Response(m)), Ok(_)) => OutcomeView::Response(m),
            (None, _) => OutcomeView::Failure(ErrorView::Session("Turn out of step"@)),
        }
    }
}

impl TurnWorld {
    /// This world in another phase.
    pub open spec fn in_phase(self, phase: TurnPhase) -> TurnWorld {
        TurnWorld { turn: SessionTurnView { phase, ..self.turn }, ..self }
    }

    /// This world with the turn active or not.
    pub open spec fn active_is(self, active: bool) -> TurnWorld {
        TurnWorld { host: HostStateView { is_turn_active: active, ..self.host }, ..self }
    }

    /// This world with a response on its way or not.
    pub open spec fn streaming_is(self, streaming: bool) -> TurnWorld {
        TurnWorld { host: HostStateView { is_streaming: streaming, ..self.host }, ..self }
    }

    /// This world after the turn: the system prompt is what it was before.
    pub open spec fn ended(self, r: OutcomeView) -> (TurnWorld, TurnActionView) {
        (
            TurnWorld {
                agent: prompted(self.agent, self.turn.base_prompt),
                ..self
            }.active_is(false).in_phase(TurnPhase::Done),
            TurnActionView::Finish(r),
        )
    }

    /// This world after input that did not get through: the agent is untouched.
    pub open spec fn refused(self, e: ErrorView) -> (TurnWorld, TurnActionView) {
        (
            self.active_is(false).in_phase(TurnPhase::Done),
            TurnActionView::Finish(OutcomeView::Failure(e)),
        )
    }

    /// This world once extensions have added to the turn.
    pub open spec fn started(
        self,
        custom: Seq<MessageView>,
        system_prompt: Option<Seq<char>>,
    ) -> (TurnWorld, TurnActionView) {
        (
            TurnWorld {
                turn: SessionTurnView { custom, phase: TurnPhase::Sync, ..self.turn },
                agent: prompted(
                    self.agent,
                    match system_prompt {
                        Some(p) => Some(p),
                        None => self.turn.base_prompt,
                    },
                ),
                ..self
            },
            TurnActionView::Sync,
        )
    }

    /// This world once the input is settled. Without extensions there is nobody to ask.
    pub open spec fn before_start(
        self,
        body: TurnBodyView,
        text: Seq<char>,
        images: Seq<ImageContentView>,
    ) -> (TurnWorld, TurnActionView) {
        let base_prompt = self.agent.config.system_prompt;
        let next = TurnWorld {
            turn: SessionTurnView {
                body,
                base_prompt,
                phase: TurnPhase::BeforeStart,
                ..self.turn
            },
            ..self
        };
        if self.turn.hooked {
            (
                next,
                TurnActionView::DispatchBeforeStart {
                    text,
                    images,
                    system_prompt: text_or_empty(base_prompt),
                },
            )
        } else {
            next.started(Seq::empty(), None)
        }
    }

    /// This world once extensions let input through. Blocks stay blocks; a text with images becomes
    /// blocks.
    pub open spec fn accepted(
        self,
        blocks: bool,
        text: Seq<char>,
        images: Seq<ImageContentView>,
    ) -> (TurnWorld, TurnActionView) {
        self.before_start(
            if blocks || images.len() > 0 {
                TurnBodyView::Blocks(input_blocks(text, images))
            } else {
                TurnBodyView::Text(text)
            },
            text,
            images,
        )
    }

    /// This world with the history read.
    pub open spec fn with_history(
        self,
        history: Seq<MessageView>,
        prepared: Option<PreparedSemanticContextPromptView>,
        now: i64,
    ) -> (TurnWorld, TurnActionView) {
        (
            TurnWorld {
                turn: SessionTurnView {
                    prepared,
                    start_len: history.len(),
                    prompts: self.turn.body.prompts(
                        now,
                        context_messages(prepared, now),
                        self.turn.custom,
                    ),
                    phase: TurnPhase::Append,
                    ..self.turn
                },
                agent: AgentView { messages: history, ..self.agent },
                ..self
            },
            TurnActionView::Append(self.turn.body.message(now)),
        )
    }

    /// This world with the agent running.
    pub open spec fn running(self) -> (TurnWorld, TurnActionView) {
        let own = self.agent.config.system_prompt;
        (
            TurnWorld {
                turn: SessionTurnView { turn_prompt: own, phase: TurnPhase::Run, ..self.turn },
                agent: prompted(self.agent, turn_system_prompt(own, self.turn.prepared)),
                ..self
            }.streaming_is(true),
            TurnActionView::Run(self.turn.prompts),
        )
    }

    /// This world after the run.
    pub open spec fn ran(self, r: OutcomeView) -> (TurnWorld, TurnActionView) {
        (
            TurnWorld {
                turn: SessionTurnView {
                    result: Some(r),
                    phase: TurnPhase::Persist,
                    ..self.turn
                },
                agent: prompted(self.agent, self.turn.turn_prompt),
                ..self
            }.streaming_is(false),
            TurnActionView::Persist(
                kept_messages(self.agent.messages, self.turn.start_len + 1, r is Failure),
            ),
        )
    }

    /// This world after an input that the phase does not wait for: the turn ends, and what it had
    /// changed is put back.
    pub open spec fn out_of_step(self) -> (TurnWorld, TurnActionView) {
        let e = ErrorView::Session("Turn out of step"@);
        match self.turn.phase {
            TurnPhase::Input { .. } => self.refused(e),
            TurnPhase::Done => self.refused(e),
            TurnPhase::Run => self.streaming_is(false).ended(OutcomeView::Failure(e)),
            _ => self.ended(OutcomeView::Failure(e)),
        }
    }

    /// What an input does, at the time `now`. A run that failed says why, whether or not its messages
    /// were written; a run that did not fails with the writing.
    pub open spec fn step(
        self,
        input: TurnInput,
        injection: Option<SemanticContextBundleInjectionView>,
        now: i64,
    ) -> (TurnWorld, TurnActionView) {
        match (self.turn.phase, input) {
            (TurnPhase::Input { blocks }, TurnInput::Input(said)) => self.heard(blocks, said),
            (TurnPhase::BeforeStart, TurnInput::BeforeStart(said)) => self.prompted(said),
            (TurnPhase::Sync, TurnInput::Done(done)) => match done {
                Err(e) => self.ended(OutcomeView::Failure(e@)),
                Ok(_) => (self.in_phase(TurnPhase::Compact), TurnActionView::Compact),
            },
            (TurnPhase::Compact, TurnInput::Done(done)) => match done {
                Err(e) => self.ended(OutcomeView::Failure(e@)),
                Ok(_) => (self.in_phase(TurnPhase::History), TurnActionView::LoadHistory),
            },
            (TurnPhase::History, TurnInput::History { messages, serialized }) => self.loaded(
                messages,
                serialized,
                injection,
                now,
            ),
            (TurnPhase::Append, TurnInput::Done(done)) => match done {
                Err(e) => self.ended(OutcomeView::Failure(e@)),
                Ok(_) => self.running(),
            },
            (TurnPhase::Run, TurnInput::Run(r)) => self.ran(outcome(r)),
            (TurnPhase::Persist, TurnInput::Done(done)) => self.ended(
                self.turn.outcome_after(done),
            ),
            _ => self.out_of_step(),
        }
    }

    /// This world after extensions had their say on the input.
    pub open spec fn heard(
        self,
        blocks: bool,
        said: Result<InputOutcome, Error>,
    ) -> (TurnWorld, TurnActionView) {
        match said {
            Err(e) => self.refused(e@),
            Ok(InputOutcome::Block { reason: Some(r) }) => self.refused(ErrorView::Extension(r@)),
            Ok(InputOutcome::Block { reason: None }) => self.refused(
                ErrorView::Extension("Input blocked"@),
            ),
            Ok(InputOutcome::Continue { text, images }) => self.accepted(
                blocks,
                text@,
                images.deep_view(),
            ),
        }
    }

    /// This world after extensions had their say on the start; a failure of theirs adds nothing.
    pub open spec fn prompted(
        self,
        said: Result<BeforeAgentStart, Error>,
    ) -> (TurnWorld, TurnActionView) {
        match said {
            Ok(added) => self.started(custom_views(added.messages@), opt_text(added.system_prompt)),
            Err(_) => self.started(Seq::empty(), None),
        }
    }

    /// This world after the session was asked for its history.
    pub open spec fn loaded(
        self,
        messages: Result<Vec<Message>, Error>,
        serialized: Option<Vec<u8>>,
        injection: Option<SemanticContextBundleInjectionView>,
        now: i64,
    ) -> (TurnWorld, TurnActionView) {
        match messages {
            Err(e) => self.ended(OutcomeView::Failure(e@)),
            Ok(history) => self.with_history(
                history.deep_view(),
                prepared_for(self.agent.provider, injection, serialized),
                now,
            ),
        }
    }
}

/// The world that the parts of it make up.
pub open spec fn turn_world(turn: SessionTurn, agent: Agent, host: HostState) -> TurnWorld {
    TurnWorld { turn: turn@, agent: agent@, host: host@ }
}

/// A turn of which nothing has happened.
pub open spec fn new_turn(body: TurnBodyView, hooked: bool, phase: TurnPhase) -> SessionTurnView {
    SessionTurnView {
        body,
        hooked,
        base_prompt: None,
        turn_prompt: None,
        custom: Seq::empty(),
        prepared: None,
        prompts: Seq::empty(),
        start_len: 0,
        result: None,
        phase,
    }
}

fn wrap_custom(messages: Vec<CustomMessage>) -> (r: Vec<Message>)
    ensures
        r.deep_view() == custom_views(messages@),
{
    let mut r: Vec<Message> = Vec::new();
    let mut i: usize = 0;
    while i < messages.len()
        invariant
            i <= messages@.len(),
            r@.len() == i,
            forall|j: int|
                0 <= j < i ==> (#[trigger] r@[j])@ == MessageView::Custom(messages@[j]@),
        decreases messages@.len() - i,
    {
        r.push(Message::Custom(messages[i].clone()));
        i += 1;
    }
    assert(r.deep_view() =~= custom_views(messages@));
    r
}

fn append_all(into: &mut Vec<Message>, more: &Vec<Message>)
    ensures
        final(into).deep_view() == old(into).deep_view() + more.deep_view(),
{
    let ghost start = into.deep_view();
    let ghost all = more.deep_view();
    let mut i: usize = 0;
    assert(start + all.take(0) =~= start);
    while i < more.len()
        invariant
            i <= more@.len(),
            all == more.deep_view(),
            into.deep_view() == start + all.take(i as int),
        decreases more@.len() - i,
    {
        push_message(into, more[i].clone());
        assert(start + all.take(i + 1) =~= (start + all.take(i as int)).push(all[i as int]));
        i += 1;
    }
    assert(all.take(i as int) =~= all);
}

fn no_images() -> (r: Vec<ImageContent>)
    ensures
        r.deep_view() == Seq::<ImageContentView>::empty(),
{
    let r: Vec<ImageContent> = Vec::new();
    assert(r.deep_view() =~= Seq::<ImageContentView>::empty());
    r
}

fn no_messages() -> (r: Vec<Message>)
    ensures
        r.deep_view() == Seq::<MessageView>::empty(),
{
    let r: Vec<Message> = Vec::new();
    assert(r.deep_view() =~= Seq::<MessageView>::empty());
    r
}

impl SessionTurn {
    fn fresh(body: TurnBody, hooked: bool, phase: TurnPhase) -> (r: Self)
        ensures
            r@ == new_turn(body@, hooked, phase),
    {
        SessionTurn {
            body,
            hooked,
            base_prompt: None,
            turn_prompt: None,
            custom: no_messages(),
            prepared: None,
            prompts: no_messages(),
            start_len: 0,
            result: None,
            phase,
        }
    }

    /// Starts a turn with a text of the user. `hooked` says whether there are extensions to ask.
    pub fn start_text(input: String, hooked: bool, agent: &mut Agent, host: &mut HostState) -> (r: (
        Self,
        TurnAction,
    ))
        ensures
            ({
                let w = TurnWorld {
                    turn: new_turn(
                        TurnBodyView::Text(input@),
                        hooked,
                        TurnPhase::Input { blocks: false },
                    ),
                    agent: old(agent)@,
                    host: old(host)@,
                }.active_is(true);
                (turn_world(r.0, *final(agent), *final(host)), r.1@) == if hooked {
                    (w, TurnActionView::DispatchInput { text: input@, images: Seq::empty() })
                } else {
                    w.accepted(false, input@, Seq::empty())
                }
            }),
            old(agent).wf() ==> final(agent).wf(),
    {
        host.is_turn_active = true;
        let mut turn = SessionTurn::fresh(
            TurnBody::Text(input.clone()),
            hooked,
            TurnPhase::Input { blocks: false },
        );
        let action = if hooked {
            TurnAction::DispatchInput { text: input, images: no_images() }
        } else {
            turn.accept(agent, host, false, input, no_images())
        };
        (turn, action)
    }

    /// Starts a turn with text and images of the user.
    pub fn start_content(
        content: Vec<ContentBlock>,
        hooked: bool,
        agent: &mut Agent,
        host: &mut HostState,
    ) -> (r: (Self, TurnAction))
        ensures
            ({
                let text = input_text(content.deep_view());
                let images = input_images(content.deep_view());
                let w = TurnWorld {
                    turn: new_turn(
                        TurnBodyView::Blocks(content.deep_view()),
                        hooked,
                        TurnPhase::Input { blocks: true },
                    ),
                    agent: old(agent)@,
                    host: old(host)@,
                }.active_is(true);
                (turn_world(r.0, *final(agent), *final(host)), r.1@) == if hooked {
                    (w, TurnActionView::DispatchInput { text, images })
                } else {
                    w.accepted(true, text, images)
                }
            }),
            old(agent).wf() ==> final(agent).wf(),
    {
        host.is_turn_active = true;
        let (text, images) = split_content_blocks_for_input(&content);
        let mut turn = SessionTurn::fresh(
            TurnBody::Blocks(content),
            hooked,
            TurnPhase::Input { blocks: true },
        );
        let action = if hooked {
            TurnAction::DispatchInput { text, images }
        } else {
            turn.accept(agent, host, true, text, images)
        };
        (turn, action)
    }

    /// Starts a turn with a message of an extension. Extensions are not asked about it as input.
    pub fn start_message(
        message: Message,
        hooked: bool,
        agent: &mut Agent,
        host: &mut HostState,
    ) -> (r: (Self, TurnAction))
        ensures
            ({
                let body = TurnBodyView::Message(message@);
                let w = TurnWorld {
                    turn: new_turn(body, hooked, TurnPhase::Input { blocks: false }),
                    agent: old(agent)@,
                    host: old(host)@,
                }.active_is(true);
                (turn_world(r.0, *final(agent), *final(host)), r.1@) == w.before_start(
                    body,
                    Seq::empty(),
                    Seq::empty(),
                )
            }),
            old(agent).wf() ==> final(agent).wf(),
    {
        host.is_turn_active = true;
        let mut turn = SessionTurn::fresh(
            TurnBody::Message(message.clone()),
            hooked,
            TurnPhase::Input { blocks: false },
        );
        let text = String::new();
        assert(text@ =~= Seq::empty());
        let action = turn.go_before_start(
            agent,
            host,
            TurnBody::Message(message),
            text,
            no_images(),
        );
        (turn, action)
    }

    fn go_on(
        &mut self,
        agent: &mut Agent,
        host: &HostState,
        custom: Vec<Message>,
        system_prompt: Option<String>,
    ) -> (action: TurnAction)
        ensures
            (turn_world(*final(self), *final(agent), *host), action@) == turn_world(
                *old(self),
                *old(agent),
                *host,
            ).started(custom.deep_view(), opt_text(system_prompt)),
            old(agent).wf() ==> final(agent).wf(),
    {
        let prompt = match system_prompt {
            Some(p) => Some(p),
            None => clone_opt_text(&self.base_prompt),
        };
        agent.set_system_prompt(prompt);
        self.custom = custom;
        self.phase = TurnPhase::Sync;
        TurnAction::Sync
    }

    fn go_before_start(
        &mut self,
        agent: &mut Agent,
        host: &HostState,
        body: TurnBody,
        text: String,
        images: Vec<ImageContent>,
    ) -> (action: TurnAction)
        ensures
            (turn_world(*final(self), *final(agent), *host), action@) == turn_world(
                *old(self),
                *old(agent),
                *host,
            ).before_start(body@, text@, images.deep_view()),
            old(agent).wf() ==> final(agent).wf(),
    {
        self.body = body;
        self.base_prompt = clone_opt_text(&agent.config.system_prompt);
        self.phase = TurnPhase::BeforeStart;
        if self.hooked {
            let system_prompt = match &agent.config.system_prompt {
                Some(p) => p.clone(),
                None => {
                    let empty = String::new();
                    assert(empty@ =~= Seq::empty());
                    empty
                },
            };
            TurnAction::DispatchBeforeStart { text, images, system_prompt }
        } else {
            self.go_on(agent, host, no_messages(), None)
        }
    }

    fn accept(
        &mut self,
        agent: &mut Agent,
        host: &HostState,
        blocks: bool,
        text: String,
        images: Vec<ImageContent>,
    ) -> (action: TurnAction)
        ensures
            (turn_world(*final(self), *final(agent), *host), action@) == turn_world(
                *old(self),
                *old(agent),
                *host,
            ).accepted(blocks, text@, images.deep_view()),
            old(agent).wf() ==> final(agent).wf(),
    {
        assert(images.deep_view().len() == images@.len());
        let body = if blocks || images.len() > 0 {
            TurnBody::Blocks(build_content_blocks_for_input(text.as_str(), &images))
        } else {
            TurnBody::Text(text.clone())
        };
        self.go_before_start(agent, host, body, text, images)
    }

    fn end(
        &mut self,
        agent: &mut Agent,
        host: &mut HostState,
        r: Result<AssistantMessage, Error>,
    ) -> (action: TurnAction)
        ensures
            (turn_world(*final(self), *final(agent), *final(host)), action@) == turn_world(
                *old(self),
                *old(agent),
                *old(host),
            ).ended(outcome(r)),
            old(agent).wf() ==> final(agent).wf(),
    {
        agent.set_system_prompt(clone_opt_text(&self.base_prompt));
        host.is_turn_active = false;
        self.phase = TurnPhase::Done;
        TurnAction::Finish(r)
    }

    fn refuse(&mut self, agent: &Agent, host: &mut HostState, e: Error) -> (action: TurnAction)
        ensures
            (turn_world(*final(self), *agent, *final(host)), action@) == turn_world(
                *old(self),
                *agent,
                *old(host),
            ).refused(e@),
    {
        host.is_turn_active = false;
        self.phase = TurnPhase::Done;
        TurnAction::Finish(Err(e))
    }

    fn stray(&mut self, agent: &mut Agent, host: &mut HostState) -> (action: TurnAction)
        ensures
            (turn_world(*final(self), *final(agent), *final(host)), action@) == turn_world(
                *old(self),
                *old(agent),
                *old(host),
            ).out_of_step(),
            old(agent).wf() ==> final(agent).wf(),
    {
        let e = Error::Session(owned("Turn out of step"));
        match self.phase {
            TurnPhase::Input { .. } => self.refuse(agent, host, e),
            TurnPhase::Done => self.refuse(agent, host, e),
            TurnPhase::Run => {
                host.is_streaming = false;
                self.end(agent, host, Err(e))
            },
            _ => self.end(agent, host, Err(e)),
        }
    }

    fn message_at(&self, now: i64) -> (r: Message)
        ensures
            r@ == self@.body.message(now),
    {
        match &self.body {
            TurnBody::Text(t) => Message::User(
                UserMessage { content: UserContent::Text(t.clone()), timestamp: now },
            ),
            TurnBody::Blocks(b) => Message::User(
                UserMessage { content: UserContent::Blocks(clone_blocks(b)), timestamp: now },
            ),
            TurnBody::Message(m) => m.clone(),
        }
    }

    fn take_history(
        &mut self,
        agent: &mut Agent,
        host: &HostState,
        history: Vec<Message>,
        prepared: Option<PreparedSemanticContextPrompt>,
        now: i64,
    ) -> (action: TurnAction)
        ensures
            (turn_world(*final(self), *final(agent), *host), action@) == turn_world(
                *old(self),
                *old(agent),
                *host,
            ).with_history(history.deep_view(), opt_prepared(prepared), now),
            old(agent).wf() ==> final(agent).wf(),
    {
        let ghost start = self@;
        self.start_len = history.len();
        agent.replace_messages(history);
        let message = self.message_at(now);
        let mut context = no_messages();
        if let Some(p) = &prepared {
            push_message(&mut context, semantic_context_prompt_message(p, now));
        }
        assert(context.deep_view() =~= context_messages(opt_prepared(prepared), now));
        let mut prompts = no_messages();
        push_message(&mut prompts, message.clone());
        assert(prompts.deep_view() =~= seq![message@]);
        let from_extension = match &self.body {
            TurnBody::Message(_) => true,
            _ => false,
        };
        if from_extension {
            append_all(&mut prompts, &self.custom);
            append_all(&mut prompts, &context);
        } else {
            append_all(&mut prompts, &context);
            append_all(&mut prompts, &self.custom);
        }
        self.prompts = prompts;
        self.prepared = prepared;
        self.phase = TurnPhase::Append;
        assert(self@.prompts =~= start.body.prompts(
            now,
            context_messages(opt_prepared(self.prepared), now),
            start.custom,
        ));
        TurnAction::Append(message)
    }

    fn run_agent(&mut self, agent: &mut Agent, host: &mut HostState) -> (action: TurnAction)
        ensures
            (turn_world(*final(self), *final(agent), *final(host)), action@) == turn_world(
                *old(self),
                *old(agent),
                *old(host),
            ).running(),
            old(agent).wf() ==> final(agent).wf(),
    {
        host.is_streaming = true;
        self.turn_prompt = clone_opt_text(&agent.config.system_prompt);
        let prepared = match &self.prepared {
            Some(p) => Some(p),
            None => None,
        };
        let prompt = semantic_context_system_prompt_for_turn(&self.turn_prompt, prepared);
        agent.set_system_prompt(prompt);
        self.phase = TurnPhase::Run;
        TurnAction::Run(clone_messages(&self.prompts))
    }

    fn take_run(
        &mut self,
        agent: &mut Agent,
        host: &mut HostState,
        r: Result<AssistantMessage, Error>,
    ) -> (action: TurnAction)
        ensures
            (turn_world(*final(self), *final(agent), *final(host)), action@) == turn_world(
                *old(self),
                *old(agent),
                *old(host),
            ).ran(outcome(r)),
            old(agent).wf() ==> final(agent).wf(),
    {
        host.is_streaming = false;
        agent.set_system_prompt(clone_opt_text(&self.turn_prompt));
        let failed = r.is_err();
        let kept = if self.start_len < agent.messages.len() {
            messages_to_persist(&agent.messages, self.start_len + 1, failed)
        } else {
            no_messages()
        };
        assert(agent.messages.deep_view().len() == agent.messages@.len());
        self.result = Some(r);
        self.phase = TurnPhase::Persist;
        TurnAction::Persist(kept)
    }

    fn copy_result(&self, done: Result<(), Error>) -> (r: Result<AssistantMessage, Error>)
        ensures
            outcome(r) == self@.outcome_after(done),
    {
        match &self.result {
            Some(Ok(m)) => match done {
                Ok(_) => Ok(m.clone()),
                Err(e) => Err(e),
            },
            Some(Err(e)) => Err(e.clone()),
            None => Err(Error::Session(owned("Turn out of step"))),
        }
    }

    fn take_input(
        &mut self,
        agent: &mut Agent,
        host: &mut HostState,
        blocks: bool,
        said: Result<InputOutcome, Error>,
    ) -> (action: TurnAction)
        ensures
            (turn_world(*final(self), *final(agent), *final(host)), action@) == turn_world(
                *old(self),
                *old(agent),
                *old(host),
            ).heard(blocks, said),
            old(agent).wf() ==> final(agent).wf(),
    {
        match said {
            Err(e) => self.refuse(agent, host, e),
            Ok(InputOutcome::Block { reason }) => {
                let text = match reason {
                    Some(r) => r,
                    None => owned("Input blocked"),
                };
                self.refuse(agent, host, Error::Extension(text))
            },
            Ok(InputOutcome::Continue { text, images }) => {
                self.accept(agent, host, blocks, text, images)
            },
        }
    }

    fn take_before_start(
        &mut self,
        agent: &mut Agent,
        host: &HostState,
        said: Result<BeforeAgentStart, Error>,
    ) -> (action: TurnAction)
        ensures
            (turn_world(*final(self), *final(agent), *host), action@) == turn_world(
                *old(self),
                *old(agent),
                *host,
            ).prompted(said),
            old(agent).wf() ==> final(agent).wf(),
    {
        match said {
            Ok(added) => {
                self.go_on(agent, host, wrap_custom(added.messages), added.system_prompt)
            },
            Err(_) => self.go_on(agent, host, no_messages(), None),
        }
    }

    fn load(
        &mut self,
        agent: &mut Agent,
        host: &mut HostState,
        messages: Result<Vec<Message>, Error>,
        serialized: Option<Vec<u8>>,
        injection: Option<&SemanticContextBundleInjection>,
        now: i64,
    ) -> (action: TurnAction)
        ensures
            (turn_world(*final(self), *final(agent), *final(host)), action@) == turn_world(
                *old(self),
                *old(agent),
                *old(host),
            ).loaded(messages, serialized, opt_injection_ref(injection), now),
            old(agent).wf() ==> final(agent).wf(),
    {
        match messages {
            Err(e) => self.end(agent, host, Err(e)),
            Ok(history) => {
                let prepared = match &serialized {
                    Some(bytes) => prepare_semantic_context_prompt(
                        &agent.provider,
                        injection,
                        Some(bytes.as_slice()),
                    ),
                    None => prepare_semantic_context_prompt(&agent.provider, injection, None),
                };
                self.take_history(agent, host, history, prepared, now)
            },
        }
    }

    /// Takes one step of the turn, at the time `now`. `injection` is the bundle that the session
    /// attaches to turns.
    #[verifier::spinoff_prover]
    pub fn step_at(
        &mut self,
        agent: &mut Agent,
        host: &mut HostState,
        input: TurnInput,
        injection: Option<&SemanticContextBundleInjection>,
        now: i64,
    ) -> (action: TurnAction)
        ensures
            (turn_world(*final(self), *final(agent), *final(host)), action@) == turn_world(
                *old(self),
                *old(agent),
                *old(host),
            ).step(input, opt_injection_ref(injection), now),
            old(agent).wf() ==> final(agent).wf(),
    {
        match (self.phase, input) {
            (TurnPhase::Input { blocks }, TurnInput::Input(said)) => {
                self.take_input(agent, host, blocks, said)
            },
            (TurnPhase::BeforeStart, TurnInput::BeforeStart(said)) => {
                self.take_before_start(agent, host, said)
            },
            (TurnPhase::Sync, TurnInput::Done(done)) => match done {
                Err(e) => self.end(agent, host, Err(e)),
                Ok(_) => {
                    self.phase = TurnPhase::Compact;
                    TurnAction::Compact
                },
            },
            (TurnPhase::Compact, TurnInput::Done(done)) => match done {
                Err(e) => self.end(agent, host, Err(e)),
                Ok(_) => {
                    self.phase = TurnPhase::History;
                    TurnAction::LoadHistory
                },
            },
            (TurnPhase::History, TurnInput::History { messages, serialized }) => {
                self.load(agent, host, messages, serialized, injection, now)
            },
            (TurnPhase::Append, TurnInput::Done(done)) => match done {
                Err(e) => self.end(agent, host, Err(e)),
                Ok(_) => self.run_agent(agent, host),
            },
            (TurnPhase::Run, TurnInput::Run(r)) => self.take_run(agent, host, r),
            (TurnPhase::Persist, TurnInput::Done(done)) => {
                let r = self.copy_result(done);
                self.end(agent, host, r)
            },
            _ => self.stray(agent, host),
        }
    }
}

impl AgentSession {
    /// Starts a turn with a text of the user.
    pub fn run_text(&mut self, input: String, host: &mut HostState) -> (r: (SessionTurn, TurnAction))
        ensures
            ({
                let w = TurnWorld {
                    turn: new_turn(
                        TurnBodyView::Text(input@),
                        old(self).link.enabled,
                        TurnPhase::Input { blocks: false },
                    ),
                    agent: old(self).agent@,
                    host: old(host)@,
                }.active_is(true);
                (turn_world(r.0, final(self).agent, *final(host)), r.1@)
                    == if old(self).link.enabled {
                    (w, TurnActionView::DispatchInput { text: input@, images: Seq::empty() })
                } else {
                    w.accepted(false, input@, Seq::empty())
                }
            }),
            old(self).agent.wf() ==> final(self).agent.wf(),
            *final(self) == (AgentSession { agent: final(self).agent, ..*old(self) }),
    {
        SessionTurn::start_text(input, self.link.enabled, &mut self.agent, host)
    }

    /// Starts a turn with text and images of the user.
    pub fn run_with_content(&mut self, content: Vec<ContentBlock>, host: &mut HostState) -> (r: (
        SessionTurn,
        TurnAction,
    ))
        ensures
            ({
                let text = input_text(content.deep_view());
                let images = input_images(content.deep_view());
                let w = TurnWorld {
                    turn: new_turn(
                        TurnBodyView::Blocks(content.deep_view()),
                        old(self).link.enabled,
                        TurnPhase::Input { blocks: true },
                    ),
                    agent: old(self).agent@,
                    host: old(host)@,
                }.active_is(true);
                (turn_world(r.0, final(self).agent, *final(host)), r.1@)
                    == if old(self).link.enabled {
                    (w, TurnActionView::DispatchInput { text, images })
                } else {
                    w.accepted(true, text, images)
                }
            }),
            old(self).agent.wf() ==> final(self).agent.wf(),
            *final(self) == (AgentSession { agent: final(self).agent, ..*old(self) }),
    {
        SessionTurn::start_content(content, self.link.enabled, &mut self.agent, host)
    }

    /// Starts a turn with a message of an extension.
    pub fn run_custom_message(&mut self, message: Message, host: &mut HostState) -> (r: (
        SessionTurn,
        TurnAction,
    ))
        ensures
            ({
                let body = TurnBodyView::Message(message@);
                let w = TurnWorld {
                    turn: new_turn(
                        body,
                        old(self).link.enabled,
                        TurnPhase::Input { blocks: false },
                    ),
                    agent: old(self).agent@,
                    host: old(host)@,
                }.active_is(true);
                (turn_world(r.0, final(self).agent, *final(host)), r.1@) == w.before_start(
                    body,
                    Seq::empty(),
                    Seq::empty(),
                )
            }),
            old(self).agent.wf() ==> final(self).agent.wf(),
            *final(self) == (AgentSession { agent: final(self).agent, ..*old(self) }),
    {
        SessionTurn::start_message(message, self.link.enabled, &mut self.agent, host)
    }

    /// Takes one step of a turn, at the time `now`, with the bundle that the session attaches to turns.
    pub fn turn_step_at(
        &mut self,
        turn: &mut SessionTurn,
        host: &mut HostState,
        input: TurnInput,
        now: i64,
    ) -> (action: TurnAction)
        ensures
            (turn_world(*final(turn), final(self).agent, *final(host)), action@) == turn_world(
                *old(turn),
                old(self).agent,
                *old(host),
            ).step(input, opt_injection(old(self).semantic_context_bundle), now),
            old(self).agent.wf() ==> final(self).agent.wf(),
            *final(self) == (AgentSession { agent: final(self).agent, ..*old(self) }),
    {
        let injection = match &self.semantic_context_bundle {
            Some(i) => Some(i),
            None => None,
        };
        turn.step_at(&mut self.agent, host, input, injection, now)
    }

    /// Takes one step of a turn, at the present time.
    pub fn turn_step(&mut self, turn: &mut SessionTurn, host: &mut HostState, input: TurnInput) -> (
        action: TurnAction)
        ensures
            exists|now: i64|
                (turn_world(*final(turn), final(self).agent, *final(host)), action@)
                    == #[trigger] turn_world(*old(turn), old(self).agent, *old(host)).step(
                    input,
                    opt_injection(old(self).semantic_context_bundle),
                    now,
                ),
            old(self).agent.wf() ==> final(self).agent.wf(),
            *final(self) == (AgentSession { agent: final(self).agent, ..*old(self) }),
    {
        let now: i64 = now_millis();
        self.turn_step_at(turn, host, input, now)
    }
}

/// What holds of a turn that began with the system prompt `base`: it is marked active until it is over,
/// a response is on its way just while the agent runs, and the prompt to go back to is known.
pub open spec fn turn_in_order(w: TurnWorld, base: Option<Seq<char>>) -> bool {
    &&& w.host.is_turn_active == !(w.turn.phase is Done)
    &&& w.host.is_streaming == (w.turn.phase is Run)
    &&& match w.turn.phase {
        TurnPhase::Input { .. } => w.agent.config.system_prompt == base,
        TurnPhase::Done => w.agent.config.system_prompt == base,
        _ => w.turn.base_prompt == base,
    }
}

/// However a turn goes, it ends with the system prompt that it began with, no longer active and with no
/// response on its way.
pub proof fn turn_ends_as_it_began(
    w: TurnWorld,
    base: Option<Seq<char>>,
    input: TurnInput,
    injection: Option<SemanticContextBundleInjectionView>,
    now: i64,
)
    requires
        turn_in_order(w, base),
    ensures
        turn_in_order(w.step(input, injection, now).0, base),
        w.step(input, injection, now).1 is Finish ==> {
            let end = w.step(input, injection, now).0;
            &&& end.agent.config.system_prompt == base
            &&& !end.host.is_turn_active
            &&& !end.host.is_streaming
        },
{
}

/// The message of a turn is written to the session before the agent runs, it is the first prompt of
/// the run, and what is written afterwards begins behind it.
pub proof fn prompt_is_written_before_the_run(
    w: TurnWorld,
    history: Seq<MessageView>,
    prepared: Option<PreparedSemanticContextPromptView>,
    now: i64,
)
    ensures
        ({
            let (appending, append) = w.with_history(history, prepared, now);
            let (running, run) = appending.running();
            &&& append == TurnActionView::Append(w.turn.body.message(now))
            &&& run is Run
            &&& run->Run_0.len() > 0
            &&& run->Run_0[0] == w.turn.body.message(now)
            &&& running.agent.messages == history
            &&& running.turn.start_len == history.len()
        }),
{
}

/// A turn fails with the run's own failure if there is one, and otherwise with a failure to write.
pub proof fn failure_of_the_run_comes_first(
    w: TurnWorld,
    done: Result<(), Error>,
    injection: Option<SemanticContextBundleInjectionView>,
    now: i64,
    r: OutcomeView,
)
    requires
        w.turn.phase is Persist,
        w.turn.result == Some(r),
    ensures
        w.step(TurnInput::Done(done), injection, now).1 == TurnActionView::Finish(
            if r is Failure || done is Ok {
                r
            } else {
                OutcomeView::Failure(done->Err_0@)
            },
        ),
{
}

} // verus!
