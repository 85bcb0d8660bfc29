//! What a turn of a session does at each of its points, and what a command of an extension does.
use vstd::prelude::*;

use crate::agent::{AgentConfigView, AgentView, ProviderIdentityView};
use crate::command::{
    CommandActionView, CommandInput, CommandOutcomeView, CommandPhase, ExtensionCommandView,
    IdleActionView, IdleWorld,
};
use crate::error::{Error, ErrorView};
use crate::host::HostStateView;
use crate::input::{
    before_start_event, context_reply, input_blocks, input_event, input_images, input_text,
    ContextReplyView, InputSource,
};
use crate::json::{Json, JsonView};
use crate::model::{
    ContentBlockView, ImageContentView, Message, MessageView, StopReason, UserContentView,
    UserMessageView,
};
use crate::semantic::{
    context_message, identity_bytes, prepared_prompt, sha256, turn_system_prompt,
    SemanticContextBundleInjectionView,
};
use crate::session::kept_messages;
use crate::text::{lower_hex, trimmed};
use crate::turn::{
    new_turn, prepared_for, BeforeAgentStart, InputOutcome, OutcomeView, SessionTurnView,
    TurnActionView, TurnBodyView, TurnInput, TurnPhase, TurnWorld,
};

verus! {

/// Whether a turn is over, with the system prompt `prompt` in place and nothing of the history touched.
pub open spec fn turn_is_over(w: TurnWorld, next: TurnWorld, prompt: Option<Seq<char>>) -> bool {
    &&& next.turn.phase == TurnPhase::Done
    &&& !next.host.is_turn_active
    &&& next.agent.messages == w.agent.messages
    &&& next.agent.queue == w.agent.queue
    &&& next.agent.tools == w.agent.tools
    &&& next.agent.config.system_prompt == prompt
    &&& next.host.idle == w.host.idle
    &&& next.host.injected == w.host.injected
}

/// A turn starts from its body, marks the session as active, and knows nothing else yet.
pub proof fn a_turn_starts_from_its_body(
    w: TurnWorld,
    body: TurnBodyView,
    hooked: bool,
    phase: TurnPhase,
)
    ensures
        ({
            let turn = new_turn(body, hooked, phase);
            &&& turn.body == body
            &&& turn.hooked == hooked
            &&& turn.phase == phase
            &&& turn.base_prompt is None
            &&& turn.turn_prompt is None
            &&& turn.custom.len() == 0
            &&& turn.prepared is None
            &&& turn.prompts.len() == 0
            &&& turn.start_len == 0
            &&& turn.result is None
        }),
        w.active_is(true).host.is_turn_active,
        w.active_is(true).turn == w.turn,
        w.active_is(true).agent == w.agent,
        w.active_is(true).host.idle == w.host.idle,
        w.active_is(true).host.injected == w.host.injected,
        w.active_is(true).host.earlier == w.host.earlier,
        w.active_is(true).host.is_streaming == w.host.is_streaming,
        w.active_is(true).host.is_compacting == w.host.is_compacting,
{
}

/// Where there are no extensions, or nothing that they are asked about, a turn goes on from its input at
/// once; a message of an extension is not asked about as input.
pub proof fn input_goes_on_at_once(
    w: TurnWorld,
    blocks: bool,
    text: Seq<char>,
    images: Seq<ImageContentView>,
    message: MessageView,
)
    ensures
        ({
            let (next, action) = w.accepted(blocks, text, images);
            &&& next.turn.body == if blocks || images.len() > 0 {
                TurnBodyView::Blocks(input_blocks(text, images))
            } else {
                TurnBodyView::Text(text)
            }
            &&& next.turn.base_prompt == w.agent.config.system_prompt
            &&& next.agent == w.agent
            &&& next.host == w.host
            &&& !w.turn.hooked ==> next.turn.phase == TurnPhase::Sync && action
                == TurnActionView::Sync
            &&& w.turn.hooked ==> next.turn.phase == TurnPhase::BeforeStart && action == (
            TurnActionView::DispatchBeforeStart {
                text,
                images,
                system_prompt: match w.agent.config.system_prompt {
                    Some(p) => p,
                    None => Seq::empty(),
                },
            })
        }),
        ({
            let body = TurnBodyView::Message(message);
            let (next, action) = w.before_start(body, Seq::empty(), Seq::empty());
            &&& next.turn.body == body
            &&& next.turn.base_prompt == w.agent.config.system_prompt
            &&& next.agent == w.agent
            &&& next.host == w.host
            &&& !w.turn.hooked ==> next.turn.phase == TurnPhase::Sync && action
                == TurnActionView::Sync
            &&& w.turn.hooked ==> next.turn.phase == TurnPhase::BeforeStart && action
                is DispatchBeforeStart
        }),
{
}

/// Input that extensions let pass reaches the model as they left it: as a text if it came as one and has
/// no images, and otherwise as blocks. Before that they are asked about the start, if there are any.
pub proof fn accepted_input_is_the_body(
    w: TurnWorld,
    blocks: bool,
    said: InputOutcome,
    injection: Option<SemanticContextBundleInjectionView>,
    now: i64,
)
    requires
        w.turn.phase == (TurnPhase::Input { blocks }),
        said is Continue,
    ensures
        ({
            let text = said->text@;
            let images = said->images.deep_view();
            let input = TurnInput::Input(Ok(said));
            let (next, action) = w.step(input, injection, now);
            &&& next.turn.body == if blocks || images.len() > 0 {
                TurnBodyView::Blocks(input_blocks(text, images))
            } else {
                TurnBodyView::Text(text)
            }
            &&& next.turn.base_prompt == w.agent.config.system_prompt
            &&& next.agent == w.agent
            &&& next.host == w.host
            &&& w.turn.hooked ==> {
                &&& next.turn.phase == TurnPhase::BeforeStart
                &&& action == (TurnActionView::DispatchBeforeStart {
                    text,
                    images,
                    system_prompt: match w.agent.config.system_prompt {
                        Some(p) => p,
                        None => Seq::empty(),
                    },
                })
            }
            &&& !w.turn.hooked ==> {
                &&& next.turn.phase == TurnPhase::Sync
                &&& next.turn.custom.len() == 0
                &&& action == TurnActionView::Sync
            }
        }),
{
}

/// Input that extensions block goes nowhere: the turn ends with their reason.
pub proof fn blocked_input_ends_the_turn(
    w: TurnWorld,
    said: Result<InputOutcome, Error>,
    injection: Option<SemanticContextBundleInjectionView>,
    now: i64,
)
    requires
        w.turn.phase is Input,
        said matches Ok(o) ==> o is Block,
    ensures
        ({
            let (next, action) = w.step(TurnInput::Input(said), injection, now);
            &&& turn_is_over(w, next, w.agent.config.system_prompt)
            &&& action == TurnActionView::Finish(
                OutcomeView::Failure(
                    match said {
                        Err(e) => e@,
                        Ok(o) => ErrorView::Extension(
                            match o->reason {
                                Some(r) => r@,
                                None => "Input blocked"@,
                            },
                        ),
                    },
                ),
            )
        }),
{
}

/// What extensions add to a turn is kept for it, in order, and their system prompt holds for it. A failure
/// of theirs adds nothing and does not stop the turn.
pub proof fn extensions_add_to_the_turn(
    w: TurnWorld,
    said: Result<BeforeAgentStart, Error>,
    injection: Option<SemanticContextBundleInjectionView>,
    now: i64,
)
    requires
        w.turn.phase is BeforeStart,
    ensures
        ({
            let (next, action) = w.step(TurnInput::BeforeStart(said), injection, now);
            &&& action == TurnActionView::Sync
            &&& next.turn.phase == TurnPhase::Sync
            &&& next.turn == (SessionTurnView {
                custom: next.turn.custom,
                phase: TurnPhase::Sync,
                ..w.turn
            })
            &&& next.agent.config == (AgentConfigView {
                system_prompt: next.agent.config.system_prompt,
                ..w.agent.config
            })
            &&& next.agent == (AgentView { config: next.agent.config, ..w.agent })
            &&& next.host == w.host
            &&& said matches Err(_) ==> {
                &&& next.turn.custom.len() == 0
                &&& next.agent.config.system_prompt == w.turn.base_prompt
            }
            &&& said matches Ok(added) ==> {
                &&& next.turn.custom.len() == added.messages@.len()
                &&& forall|i: int|
                    0 <= i < added.messages@.len() ==> #[trigger] next.turn.custom[i]
                        == MessageView::Custom(added.messages@[i]@)
                &&& added.system_prompt matches Some(p) ==> next.agent.config.system_prompt == Some(
                    p@,
                )
                &&& added.system_prompt is None ==> next.agent.config.system_prompt
                    == w.turn.base_prompt
            }
        }),
{
}

/// A turn brings the session up to date, compacts it and loads its history, in this order; a failure of
/// any of these ends it.
pub proof fn a_turn_prepares_in_order(
    w: TurnWorld,
    done: Result<(), Error>,
    injection: Option<SemanticContextBundleInjectionView>,
    now: i64,
)
    requires
        w.turn.phase is Sync || w.turn.phase is Compact,
    ensures
        ({
            let (next, action) = w.step(TurnInput::Done(done), injection, now);
            &&& done matches Err(e) ==> {
                &&& turn_is_over(w, next, w.turn.base_prompt)
                &&& action == TurnActionView::Finish(OutcomeView::Failure(e@))
            }
            &&& done is Ok && w.turn.phase is Sync ==> {
                &&& next == (TurnWorld {
                    turn: SessionTurnView { phase: TurnPhase::Compact, ..w.turn },
                    ..w
                })
                &&& action == TurnActionView::Compact
            }
            &&& done is Ok && w.turn.phase is Compact ==> {
                &&& next == (TurnWorld {
                    turn: SessionTurnView { phase: TurnPhase::History, ..w.turn },
                    ..w
                })
                &&& action == TurnActionView::LoadHistory
            }
        }),
{
}

/// The agent gets the history of the session and the prompts of the turn: its message, what is attached
/// to it, and what extensions added; behind a message of an extension, what they added comes first. The
/// message is written to the session.
pub proof fn history_and_prompts_are_set(
    w: TurnWorld,
    messages: Vec<Message>,
    serialized: Option<Vec<u8>>,
    injection: Option<SemanticContextBundleInjectionView>,
    now: i64,
)
    requires
        w.turn.phase is History,
    ensures
        ({
            let input = TurnInput::History { messages: Ok(messages), serialized };
            let (next, action) = w.step(input, injection, now);
            let prepared = prepared_for(w.agent.provider, injection, serialized);
            let attached = match prepared {
                Some(p) => seq![context_message(p, now)],
                None => Seq::empty(),
            };
            let message = match w.turn.body {
                TurnBodyView::Text(t) => MessageView::User(
                    UserMessageView { content: UserContentView::Text(t), timestamp: now },
                ),
                TurnBodyView::Blocks(b) => MessageView::User(
                    UserMessageView { content: UserContentView::Blocks(b), timestamp: now },
                ),
                TurnBodyView::Message(m) => m,
            };
            &&& injection is None ==> prepared is None
            &&& next.turn.prepared == prepared
            &&& next.turn.phase == TurnPhase::Append
            &&& action == TurnActionView::Append(message)
            &&& next.agent.messages == messages.deep_view()
            &&& next.turn.start_len == messages@.len()
            &&& next.turn.prompts == if w.turn.body is Message {
                seq![message] + w.turn.custom + attached
            } else {
                seq![message] + attached + w.turn.custom
            }
            &&& next.agent == (AgentView { messages: messages.deep_view(), ..w.agent })
            &&& next.turn == (SessionTurnView {
                prepared,
                start_len: messages@.len(),
                prompts: next.turn.prompts,
                phase: TurnPhase::Append,
                ..w.turn
            })
            &&& next.host == w.host
        }),
{
}

/// A bundle is attached under the fingerprint of its bytes, as they were written out, and where they were
/// not under that of what it is known by; without a bundle nothing is.
pub proof fn bundles_are_attached_by_fingerprint(
    provider: ProviderIdentityView,
    injection: SemanticContextBundleInjectionView,
    serialized: Vec<u8>,
)
    ensures
        prepared_for(provider, Some(injection), Some(serialized)) == prepared_prompt(
            provider,
            injection,
            lower_hex(sha256(serialized@)),
        ),
        prepared_for(provider, Some(injection), None) == prepared_prompt(
            provider,
            injection,
            lower_hex(sha256(identity_bytes(injection.bundle, None))),
        ),
        prepared_for(provider, None, Some(serialized)) is None,
{
}

/// A history that cannot be loaded ends the turn.
pub proof fn missing_history_ends_the_turn(
    w: TurnWorld,
    e: Error,
    serialized: Option<Vec<u8>>,
    injection: Option<SemanticContextBundleInjectionView>,
    now: i64,
)
    requires
        w.turn.phase is History,
    ensures
        ({
            let input = TurnInput::History { messages: Err(e), serialized };
            let (next, action) = w.step(input, injection, now);
            &&& turn_is_over(w, next, w.turn.base_prompt)
            &&& action == TurnActionView::Finish(OutcomeView::Failure(e@))
        }),
{
}

/// The agent runs, once the message was written, on all prompts of the turn, and with the system prompt
/// that goes with what is attached to it; meanwhile a response is on its way.
pub proof fn the_agent_runs_on_the_prompts(
    w: TurnWorld,
    done: Result<(), Error>,
    injection: Option<SemanticContextBundleInjectionView>,
    now: i64,
)
    requires
        w.turn.phase is Append,
    ensures
        ({
            let (next, action) = w.step(TurnInput::Done(done), injection, now);
            &&& done matches Err(e) ==> {
                &&& turn_is_over(w, next, w.turn.base_prompt)
                &&& action == TurnActionView::Finish(OutcomeView::Failure(e@))
            }
            &&& done is Ok ==> {
                &&& action == TurnActionView::Run(w.turn.prompts)
                &&& next.turn == (SessionTurnView {
                    turn_prompt: w.agent.config.system_prompt,
                    phase: TurnPhase::Run,
                    ..w.turn
                })
                &&& next.host == (HostStateView { is_streaming: true, ..w.host })
                &&& next.agent.config == (AgentConfigView {
                    system_prompt: turn_system_prompt(
                        w.agent.config.system_prompt,
                        w.turn.prepared,
                    ),
                    ..w.agent.config
                })
                &&& next.agent == (AgentView { config: next.agent.config, ..w.agent })
            }
        }),
{
}

/// An input that a turn does not wait for ends it as a failure, with the system prompt that it began with.
pub proof fn stray_inputs_end_the_turn(
    w: TurnWorld,
    input: TurnInput,
    injection: Option<SemanticContextBundleInjectionView>,
    now: i64,
)
    requires
        match w.turn.phase {
            TurnPhase::Input { .. } => !(input is Input),
            TurnPhase::BeforeStart => !(input is BeforeStart),
            TurnPhase::History => !(input is History),
            TurnPhase::Run => !(input is Run),
            TurnPhase::Done => true,
            _ => !(input is Done),
        },
    ensures
        ({
            let (next, action) = w.step(input, injection, now);
            &&& action == TurnActionView::Finish(
                OutcomeView::Failure(ErrorView::Session("Turn out of step"@)),
            )
            &&& turn_is_over(
                w,
                next,
                if w.turn.phase is Input || w.turn.phase is Done {
                    w.agent.config.system_prompt
                } else {
                    w.turn.base_prompt
                },
            )
            &&& w.turn.phase is Run ==> !next.host.is_streaming
        }),
{
}

/// What the run came to is kept until its messages are written: every message behind that of the turn, up
/// to those that only say that the run failed. The system prompt that held before the run holds again.
pub proof fn the_run_is_written_down(
    w: TurnWorld,
    r: Result<crate::model::AssistantMessage, Error>,
    injection: Option<SemanticContextBundleInjectionView>,
    now: i64,
)
    requires
        w.turn.phase is Run,
    ensures
        ({
            let (next, action) = w.step(TurnInput::Run(r), injection, now);
            let from = (w.turn.start_len + 1) as nat;
            &&& next.turn.phase == TurnPhase::Persist
            &&& action == TurnActionView::Persist(kept_messages(w.agent.messages, from, r is Err))
            &&& r matches Ok(m) ==> next.turn.result == Some(OutcomeView::Response(m@))
            &&& r matches Err(e) ==> next.turn.result == Some(OutcomeView::Failure(e@))
            &&& next.turn == (SessionTurnView {
                result: next.turn.result,
                phase: TurnPhase::Persist,
                ..w.turn
            })
            &&& next.host == (HostStateView { is_streaming: false, ..w.host })
            &&& next.agent.config == (AgentConfigView {
                system_prompt: w.turn.turn_prompt,
                ..w.agent.config
            })
            &&& next.agent == (AgentView { config: next.agent.config, ..w.agent })
        }),
{
}

/// Once its messages are written, a turn is over, with the system prompt that it began with. It answers
/// with what the run came to, unless that was a response and the messages could not be written.
pub proof fn a_turn_answers_with_its_outcome(
    w: TurnWorld,
    done: Result<(), Error>,
    injection: Option<SemanticContextBundleInjectionView>,
    now: i64,
)
    requires
        w.turn.phase is Persist,
    ensures
        ({
            let (next, action) = w.step(TurnInput::Done(done), injection, now);
            &&& turn_is_over(w, next, w.turn.base_prompt)
            &&& action == TurnActionView::Finish(
                match w.turn.result {
                    None => OutcomeView::Failure(ErrorView::Session("Turn out of step"@)),
                    Some(r) => if r is Failure || done is Ok {
                        r
                    } else {
                        OutcomeView::Failure(done->Err_0@)
                    },
                },
            )
        }),
{
}

/// A message is kept, behind those kept so far, unless the run failed and it is a response that holds
/// nothing but its error.
pub proof fn messages_are_kept_one_by_one(
    messages: Seq<MessageView>,
    from: nat,
    run_failed: bool,
    m: MessageView,
)
    requires
        from <= messages.len(),
    ensures
        ({
            let empty_error = m matches MessageView::Assistant(a) && a.content.len() == 0
                && a.stop_reason == StopReason::Error && a.error_message is Some;
            let before = kept_messages(messages, from, run_failed);
            kept_messages(messages.push(m), from, run_failed) == if run_failed && empty_error {
                before
            } else {
                before.push(m)
            }
        }),
        kept_messages(messages, messages.len(), run_failed).len() == 0,
{
    let more = messages.push(m).skip(from as int);
    assert(more.drop_last() =~= messages.skip(from as int));
    assert(more.last() == m);
    reveal(Seq::filter);
}

/// The text of input is that of its blocks that are not blank, line by line, and its images are those of
/// its blocks.
pub proof fn input_is_read_block_by_block(blocks: Seq<ContentBlockView>, block: ContentBlockView)
    ensures
        ({
            let text = input_text(blocks);
            let images = input_images(blocks);
            &&& block matches ContentBlockView::Text(t) ==> {
                &&& input_images(blocks.push(block)) == images
                &&& trimmed(t.text).len() == 0 ==> input_text(blocks.push(block)) == text
                &&& trimmed(t.text).len() > 0 && text.len() == 0 ==> input_text(blocks.push(block))
                    == t.text
                &&& trimmed(t.text).len() > 0 && text.len() > 0 ==> input_text(blocks.push(block))
                    == text.push('\n') + t.text
            }
            &&& block matches ContentBlockView::Image(i) ==> {
                &&& input_images(blocks.push(block)) == images.push(i)
                &&& input_text(blocks.push(block)) == text
            }
            &&& !(block is Text) && !(block is Image) ==> {
                &&& input_images(blocks.push(block)) == images
                &&& input_text(blocks.push(block)) == text
            }
        }),
        input_text(Seq::empty()).len() == 0,
        input_images(Seq::empty()).len() == 0,
{
    assert(blocks.push(block).drop_last() =~= blocks);
}

/// Text and images make one block for the text, unless it is blank, and one for each image, in order.
pub proof fn input_blocks_hold_text_and_images(text: Seq<char>, images: Seq<ImageContentView>)
    ensures
        ({
            let blocks = input_blocks(text, images);
            let first: int = if trimmed(text).len() == 0 {
                0
            } else {
                1
            };
            &&& blocks.len() == first + images.len()
            &&& first == 1 ==> blocks[0] is Text && blocks[0]->Text_0.text == text
            &&& forall|i: int|
                0 <= i < images.len() ==> #[trigger] blocks[first + i] == ContentBlockView::Image(
                    images[i],
                )
        }),
{
}

/// What extensions are told of input and of the start of a run, each under its name.
pub proof fn extensions_are_told_of_input(
    text: Seq<char>,
    images: JsonView,
    source: InputSource,
    system_prompt: Seq<char>,
)
    ensures
        ({
            let told = input_event(text, images, source)->Object_0;
            &&& input_event(text, images, source) is Object
            &&& told.len() == 5
            &&& told[0] == ("text"@, JsonView::Text(text))
            &&& told[1] == ("content"@, JsonView::Text(text))
            &&& told[2] == ("images"@, images)
            &&& told[3] == ("attachments"@, images)
            &&& told[4] == (
                "source"@,
                JsonView::Text(
                    match source {
                        InputSource::Interactive => "interactive"@,
                        InputSource::Rpc => "rpc"@,
                        InputSource::Extension => "extension"@,
                    },
                ),
            )
        }),
        ({
            let told = before_start_event(text, images, system_prompt)->Object_0;
            &&& before_start_event(text, images, system_prompt) is Object
            &&& told.len() == 3
            &&& told[0] == ("prompt"@, JsonView::Text(text))
            &&& told[1] == ("images"@, images)
            &&& told[2] == ("systemPrompt"@, JsonView::Text(system_prompt))
        }),
{
}

/// Extensions change what the model sees only with a list of messages, by itself or under its name, where
/// a null empties it. Any other answer leaves it alone.
pub proof fn only_messages_change_the_context(answer: Option<JsonView>)
    ensures
        ({
            let reply = context_reply(answer);
            &&& answer matches Some(JsonView::Array(_)) ==> reply == ContextReplyView::Decode(
                answer->Some_0,
            )
            &&& answer matches Some(JsonView::Object(_)) ==> match answer->Some_0.field(
                "messages"@,
            ) {
                Some(JsonView::Null) => reply == ContextReplyView::Clear,
                Some(v) => reply == ContextReplyView::Decode(v),
                None => reply == ContextReplyView::Keep,
            }
            &&& match answer {
                Some(JsonView::Array(_)) | Some(JsonView::Object(_)) => true,
                _ => reply == ContextReplyView::Keep,
            }
        }),
{
}

/// Runs that extensions asked for come one after the other. One that fails ends them all, with its
/// failure; with none left they are over.
pub proof fn idle_runs_come_one_by_one(w: IdleWorld, e: ErrorView)
    ensures
        w.step(Some(e)).1 == IdleActionView::Failed(e),
        w.step(Some(e)).0.runs.left.len() == 0,
        w.runs.left.len() > 0 ==> {
            &&& w.step(None).1 == IdleActionView::Run(w.runs.left[0])
            &&& w.step(None).0.runs.left == w.runs.left.skip(1)
        },
        w.runs.left.len() == 0 ==> w.step(None).1 == IdleActionView::Finished,
{
}

/// A command runs once what waited before it was done, and its answer is given once what it asked for was
/// done; a failure before it keeps it from running.
pub proof fn commands_run_between_idle_runs(
    c: ExtensionCommandView,
    replay: Result<(), Error>,
    answer: Result<Json, Error>,
)
    ensures
        c.phase == CommandPhase::Before ==> {
            let (next, action) = c.step(CommandInput::Replayed(replay));
            &&& replay matches Ok(_) ==> {
                &&& action == CommandActionView::Execute
                &&& next.phase == CommandPhase::Command
                &&& next.result == c.result
            }
            &&& replay matches Err(e) ==> {
                &&& action == CommandActionView::Finish(CommandOutcomeView::Failure(e@))
                &&& next.phase == CommandPhase::Done
            }
        },
        c.phase == CommandPhase::Command ==> {
            let (next, action) = c.step(CommandInput::Answered(answer));
            &&& action == CommandActionView::ReplayIdle
            &&& next.phase == CommandPhase::After
            &&& answer matches Ok(v) ==> next.result == Some(CommandOutcomeView::Value(v@))
            &&& answer matches Err(e) ==> next.result == Some(CommandOutcomeView::Failure(e@))
        },
        c.phase == CommandPhase::After && c.result is Some ==> {
            let (next, action) = c.step(CommandInput::Replayed(replay));
            &&& next.phase == CommandPhase::Done
            &&& action == CommandActionView::Finish(
                if replay is Ok || c.result->Some_0 is Failure {
                    c.result->Some_0
                } else {
                    CommandOutcomeView::Failure(replay->Err_0@)
                },
            )
        },
{
}

} // verus!
