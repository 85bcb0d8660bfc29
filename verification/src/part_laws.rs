//! What contracts speak of through short names: the parts of a value, and values that may not be there.
use std::sync::Arc;
use vstd::prelude::*;

use crate::agent::{
    effects_of, header_fields, no_stream_options, opt_response, Agent, ProviderIdentity,
    ThinkingLevel, ToolInfoView,
};
use crate::command::{command_outcome, failure_of, idle_world, CommandOutcomeView, IdleRuns};
use crate::compact::{compaction_world, SessionCompaction};
use crate::error::{Error, ErrorView};
use crate::event::AgentEvent;
use crate::extensions::{
    comes_before, counts_patterns, enable_world, repairs_of, Enabling, ExtensionLink, PatternCount,
    RepairEvent,
};
use crate::host::{message_views, opt_message, HostState};
use crate::input::InputSource;
use crate::json::{field_views, opt_json, Json};
use crate::limits::setting_text;
use crate::model::{
    no_usage, text_content, AssistantMessage, Cost, Message, ToolCallView, ToolOutput,
    ToolResultMessage, Usage, UserContentView,
};
use crate::pi_ai::{
    as_validation, collected, context_view, failure, opt_json_ref, reading_view, CompletionContext,
};
use crate::run::{run_world, user_message, Run};
use crate::selection::{
    creation_view, opt_names, opt_target, plan_view, selection_view, session_keys, ModelSelection,
    ModelTarget,
};
use crate::semantic::{
    draft_of, opt_prepared, opt_prepared_ref, texts, PreparedSemanticContextPrompt,
    SemanticContextBundleInjection, SemanticContextPromptStats,
};
use crate::session::{opt_injection, opt_injection_ref, AgentSession};
use crate::text::opt_text;
use crate::tool_exec::opt_output;
use crate::tool_run::{call_effects, opt_messages, result_views, tool_world, ToolRun};
use crate::turn::{opt_outcome, outcome, turn_world, OutcomeView, SessionTurn};
use crate::view_laws::{shows, shows_if_there, shows_pairs};

verus! {

/// A world is made of its parts, as they are.
pub proof fn worlds_are_made_of_their_parts(
    agent: Agent,
    host: HostState,
    out: Vec<AgentEvent>,
    new_messages: Vec<Message>,
    run: Run,
    calls: ToolRun,
    turn: SessionTurn,
    compaction: SessionCompaction,
    compacting: bool,
)
    ensures
        run_world(run, agent, out).run == run@,
        run_world(run, agent, out).agent == agent@,
        shows(run_world(run, agent, out).events, out@),
        tool_world(calls, agent, new_messages, out).run == calls@,
        tool_world(calls, agent, new_messages, out).agent == agent@,
        shows(tool_world(calls, agent, new_messages, out).new_messages, new_messages@),
        shows(tool_world(calls, agent, new_messages, out).events, out@),
        turn_world(turn, agent, host).turn == turn@,
        turn_world(turn, agent, host).agent == agent@,
        turn_world(turn, agent, host).host == host@,
        compaction_world(compaction, compacting, out).forced == compaction.forced,
        compaction_world(compaction, compacting, out).phase == compaction.phase@,
        compaction_world(compaction, compacting, out).compacting == compacting,
        shows(compaction_world(compaction, compacting, out).events, out@),
{
}

/// A world of enabling, and one of runs at rest, is made of its parts, as they are.
pub proof fn other_worlds_are_made_of_their_parts(
    enabling: Enabling,
    agent: Agent,
    host: HostState,
    link: ExtensionLink,
    runs: IdleRuns,
    source: InputSource,
)
    ensures
        enable_world(enabling, agent, host, link).run == enabling@,
        enable_world(enabling, agent, host, link).agent == agent@,
        enable_world(enabling, agent, host, link).host == host@,
        enable_world(enabling, agent, host, link).link == link,
        idle_world(runs, source).runs == runs@,
        idle_world(runs, source).source == source,
{
}

/// Values that may not be there are seen exactly if they are.
pub proof fn optional_values_are_seen(
    text: Option<String>,
    json: Option<Json>,
    message: Option<Message>,
    output: Option<ToolOutput>,
    prepared: Option<PreparedSemanticContextPrompt>,
    injection: Option<SemanticContextBundleInjection>,
    messages: Option<Vec<Message>>,
)
    ensures
        shows_if_there(opt_text(text), text),
        shows_if_there(opt_json(json), json),
        shows_if_there(opt_message(message), message),
        shows_if_there(opt_output(output), output),
        shows_if_there(opt_prepared(prepared), prepared),
        shows_if_there(opt_injection(injection), injection),
        messages is None ==> opt_messages(messages) is None,
        messages matches Some(ms) ==> opt_messages(messages) is Some && shows(
            opt_messages(messages)->Some_0,
            ms@,
        ),
{
}

/// So are values that are only looked at.
pub proof fn optional_references_are_seen(
    text: Option<&str>,
    json: Option<&Json>,
    response: Option<&AssistantMessage>,
    target: Option<&ModelTarget>,
    prepared: Option<&PreparedSemanticContextPrompt>,
    injection: Option<&SemanticContextBundleInjection>,
)
    ensures
        text matches Some(t) ==> setting_text(text) == Some(t@),
        text is None ==> setting_text(text) is None,
        json matches Some(j) ==> opt_json_ref(json) == Some(j@),
        json is None ==> opt_json_ref(json) is None,
        response matches Some(r) ==> opt_response(response) == Some(r@),
        response is None ==> opt_response(response) is None,
        target matches Some(t) ==> opt_target(target) == Some(t@),
        target is None ==> opt_target(target) is None,
        prepared matches Some(p) ==> opt_prepared_ref(prepared) == Some(p@),
        prepared is None ==> opt_prepared_ref(prepared) is None,
        injection matches Some(i) ==> opt_injection_ref(injection) == Some(i@),
        injection is None ==> opt_injection_ref(injection) is None,
{
}

/// Sequences are seen value by value.
pub proof fn sequences_are_seen_value_by_value(
    headers: Seq<(String, String)>,
    messages: Seq<Message>,
    strings: Seq<String>,
    results: Seq<Arc<ToolResultMessage>>,
    fields: Seq<(String, Json)>,
    i: int,
)
    ensures
        shows_pairs(header_fields(headers), headers),
        shows(message_views(messages), messages),
        shows(texts(strings), strings),
        shows(result_views(results), results),
        field_views(fields).len() == fields.len(),
        0 <= i < fields.len() ==> field_views(fields)[i] == (fields[i].0@, fields[i].1@),
{
}

/// Outcomes are seen as what they are: what came of it, or why nothing did.
pub proof fn outcomes_are_seen(
    r: Result<AssistantMessage, Error>,
    v: Result<Json, Error>,
    done: Result<(), Error>,
    reading: Result<u32, String>,
    why: Option<Seq<char>>,
    context: Result<CompletionContext, Error>,
)
    ensures
        r matches Ok(m) ==> outcome(r) == OutcomeView::Response(m@),
        r matches Err(e) ==> outcome(r) == OutcomeView::Failure(e@),
        opt_outcome(Some(r)) == Some(outcome(r)),
        opt_outcome(None) is None,
        v matches Ok(j) ==> command_outcome(v) == CommandOutcomeView::Value(j@),
        v matches Err(e) ==> command_outcome(v) == CommandOutcomeView::Failure(e@),
        done matches Err(e) ==> failure_of(done) == Some(e@) && failure(done) == Some(e@),
        done is Ok ==> failure_of(done) is None && failure(done) is None,
        reading matches Ok(bits) ==> reading_view(reading) is Ok && reading_view(reading)->Ok_0
            == bits,
        reading matches Err(t) ==> reading_view(reading) is Err && reading_view(reading)->Err_0
            == t@,
        why matches Some(t) ==> as_validation(why) == Some(ErrorView::Validation(t)),
        why is None ==> as_validation(why) is None,
        context matches Ok(c) ==> {
            &&& context_view(context) is Ok
            &&& shows_if_there(context_view(context)->Ok_0.0, c.system_prompt)
            &&& shows(context_view(context)->Ok_0.1, c.messages@)
        },
        context matches Err(e) ==> context_view(context) is Err && context_view(context)->Err_0
            == e@,
{
}

/// So are choices of models.
pub proof fn choices_are_seen(
    s: Result<ModelSelection, Error>,
    p: Result<(ModelSelection, ThinkingLevel), Error>,
    c: Result<ProviderIdentity, String>,
    names: Option<(String, String)>,
    session: AgentSession,
    stored: Option<String>,
)
    ensures
        s matches Ok(x) ==> selection_view(s) is Ok && selection_view(s)->Ok_0 == x@,
        s matches Err(e) ==> selection_view(s) is Err && selection_view(s)->Err_0 == e@,
        p matches Ok(x) ==> {
            &&& plan_view(p) is Ok
            &&& plan_view(p)->Ok_0.0 == x.0@
            &&& plan_view(p)->Ok_0.1 == x.1
        },
        p matches Err(e) ==> plan_view(p) is Err && plan_view(p)->Err_0 == e@,
        c matches Ok(x) ==> creation_view(c) is Ok && creation_view(c)->Ok_0 == x@,
        c matches Err(t) ==> creation_view(c) is Err && creation_view(c)->Err_0 == t@,
        names matches Some(n) ==> opt_names(names) == Some((n.0@, n.1@)),
        names is None ==> opt_names(names) is None,
        shows_if_there(session_keys(session, stored).given, session.api_key_override),
        shows_if_there(session_keys(session, stored).stored, stored),
{
}

/// What is collected of a request, and what was drafted of a prompt, is seen as it is.
pub proof fn collections_are_seen(
    prompts: Vec<String>,
    messages: Vec<Message>,
    r: Result<(), Error>,
    prompt: String,
    stats: SemanticContextPromptStats,
)
    ensures
        shows(collected(prompts, messages, r).prompts, prompts@),
        shows(collected(prompts, messages, r).messages, messages@),
        r matches Err(e) ==> collected(prompts, messages, r).error == Some(e@),
        r is Ok ==> collected(prompts, messages, r).error is None,
        draft_of(prompt, stats).prompt == prompt@,
        draft_of(prompt, stats).stats == stats,
{
}

/// Values that say nothing: no options, no usage, and a text without a signature.
pub proof fn plain_values_say_nothing_more(text: Seq<char>)
    ensures
        no_stream_options().session_id is None,
        no_stream_options().api_key is None,
        no_stream_options().headers.len() == 0,
        no_stream_options().thinking_level is None,
        no_stream_options().max_tokens is None,
        no_stream_options().temperature is None,
        no_usage() == (Usage {
            input: 0,
            output: 0,
            cache_read: 0,
            cache_write: 0,
            total_tokens: 0,
            cost: (Cost { input: 0, output: 0, cache_read: 0, cache_write: 0, total: 0 }),
        }),
        text_content(text).text == text,
        text_content(text).text_signature is None,
{
}

/// What a user says becomes a message of the user, at its time.
pub proof fn users_are_heard(content: UserContentView, now: i64)
    ensures
        user_message(content, now) is User,
        user_message(content, now)->User_0.content == content,
        user_message(content, now)->User_0.timestamp == now,
{
}

/// Each call has the effects of the tool that it names.
pub proof fn calls_have_the_effects_of_their_tools(
    tools: Seq<ToolInfoView>,
    calls: Seq<ToolCallView>,
    i: int,
)
    requires
        0 <= i < calls.len(),
    ensures
        call_effects(tools, calls).len() == calls.len(),
        call_effects(tools, calls)[i] == effects_of(tools, calls[i].name),
{
}

/// Repairs are summed up by pattern, in the order of the patterns: every repair is counted, and nothing
/// else is.
pub proof fn repairs_are_summed_up(
    counts: Seq<PatternCount>,
    events: Seq<RepairEvent>,
    i: int,
    j: int,
    k: int,
)
    requires
        counts_patterns(counts, events),
    ensures
        0 <= i < j < counts.len() ==> comes_before(counts[i].pattern@, counts[j].pattern@),
        0 <= i < counts.len() ==> counts[i].count == repairs_of(events, counts[i].pattern@),
        0 <= i < counts.len() ==> counts[i].count > 0,
        0 <= k < events.len() ==> exists|l: int|
            0 <= l < counts.len() && (#[trigger] counts[l]).pattern@ == events[k].pattern@,
{
    if 0 <= k < events.len() {
        assert(events[k].pattern@ == events[k].pattern@);
    }
}

} // verus!
