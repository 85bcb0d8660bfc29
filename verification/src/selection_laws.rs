//! Which model and which key a session uses, and what changes with them.
use vstd::prelude::*;

use crate::agent::{AgentView, ProviderIdentityView, ThinkingLevel};
use crate::error::ErrorView;
use crate::selection::{
    normalized, refreshed, resolved_key, selection, switch_plan, switched, sync_outcome, synced,
    ExtensionAiCompletionHostStateView, ModelSelectionView, ModelTargetView, SessionKeysView,
    SessionSelection, ThinkingClamp,
};
use crate::text::trimmed;

verus! {

/// A key counts without the white space around it, and a blank one does not count.
pub proof fn keys_count_trimmed(key: Seq<char>)
    ensures
        normalized(None) is None,
        trimmed(key).len() == 0 ==> normalized(Some(key)) is None,
        trimmed(key).len() > 0 ==> normalized(Some(key)) == Some(trimmed(key)),
{
}

/// A key that was given for the session comes before a stored one, and that before the model's own.
pub proof fn keys_come_in_order(keys: SessionKeysView, target: ModelTargetView)
    ensures
        normalized(keys.given) is Some ==> resolved_key(keys, target) == normalized(keys.given),
        normalized(keys.given) is None && normalized(keys.stored) is Some ==> resolved_key(
            keys,
            target,
        ) == normalized(keys.stored),
        normalized(keys.given) is None && normalized(keys.stored) is None ==> resolved_key(
            keys,
            target,
        ) == normalized(target.api_key),
{
}

/// A model that is in use is kept. Another one must be known, and must have a key where it needs one; the
/// key goes with it.
pub proof fn models_are_chosen_by_name(
    agent: AgentView,
    provider_id: Seq<char>,
    model_id: Seq<char>,
    target: Option<ModelTargetView>,
    keys: SessionKeysView,
)
    ensures
        ({
            let r = selection(agent, provider_id, model_id, target, keys);
            let in_use = agent.provider.name == provider_id && agent.provider.model_id == model_id;
            let path = provider_id + "/"@ + model_id;
            &&& in_use ==> r == Ok::<ModelSelectionView, ErrorView>(ModelSelectionView::Keep)
            &&& !in_use && target is None ==> r == Err::<ModelSelectionView, ErrorView>(
                ErrorView::Validation("Unable to switch provider/model to "@ + path),
            )
            &&& !in_use ==> (target matches Some(t) ==> {
                let key = resolved_key(keys, t);
                &&& t.requires_credential && key is None ==> r == Err::<
                    ModelSelectionView,
                    ErrorView,
                >(ErrorView::Auth("Missing credentials for "@ + path))
                &&& !t.requires_credential || key is Some ==> r == Ok::<
                    ModelSelectionView,
                    ErrorView,
                >(ModelSelectionView::Create(key))
            })
        }),
{
}

/// Whether an agent kept everything but its model and how it is asked.
pub open spec fn keeps_its_work(before: AgentView, after: AgentView) -> bool {
    &&& after.messages == before.messages
    &&& after.queue == before.queue
    &&& after.tools == before.tools
    &&& after.config.system_prompt == before.config.system_prompt
    &&& after.config.max_tool_iterations == before.config.max_tool_iterations
    &&& after.config.block_images == before.config.block_images
    &&& after.config.stream_options.session_id == before.config.stream_options.session_id
}

/// The level of thinking that an agent is asked for.
pub open spec fn asked_level(agent: AgentView) -> ThinkingLevel {
    match agent.config.stream_options.thinking_level {
        Some(level) => level,
        None => ThinkingLevel::Off,
    }
}

/// The level that a model offers in the place of one.
pub open spec fn offered(target: Option<ModelTargetView>, level: ThinkingLevel) -> ThinkingLevel {
    match target {
        None => level,
        Some(t) => match level {
            ThinkingLevel::Off => t.thinking.off,
            ThinkingLevel::Minimal => t.thinking.minimal,
            ThinkingLevel::Low => t.thinking.low,
            ThinkingLevel::Medium => t.thinking.medium,
            ThinkingLevel::High => t.thinking.high,
            ThinkingLevel::XHigh => t.thinking.xhigh,
        },
    }
}

/// A switch that goes well leaves the agent with the new provider, its key and its headers, and with the
/// level of thinking that the model offers; the work of the agent stays. One that goes wrong says why and
/// changes nothing.
pub proof fn switching_changes_the_model_only(
    agent: AgentView,
    provider_id: Seq<char>,
    model_id: Seq<char>,
    target: Option<ModelTargetView>,
    keys: SessionKeysView,
    created: Result<ProviderIdentityView, Seq<char>>,
)
    ensures
        ({
            let r = switched(agent, provider_id, model_id, target, keys, created);
            let s = selection(agent, provider_id, model_id, target, keys);
            let level = offered(target, asked_level(agent));
            let path = provider_id + "/"@ + model_id;
            &&& s matches Err(e) ==> r == Err::<(AgentView, ThinkingLevel), ErrorView>(e)
            &&& r matches Ok((next, told)) ==> {
                &&& s is Ok
                &&& told == level
                &&& keeps_its_work(agent, next)
                &&& next.config.stream_options.thinking_level == Some(level)
            }
            &&& s == Ok::<ModelSelectionView, ErrorView>(ModelSelectionView::Keep) ==> {
                &&& r is Ok
                &&& r->Ok_0.0.provider == agent.provider
                &&& r->Ok_0.0.config.stream_options.api_key == agent.config.stream_options.api_key
                &&& r->Ok_0.0.config.stream_options.headers == agent.config.stream_options.headers
            }
            &&& s matches Ok(ModelSelectionView::Create(key)) ==> match created {
                Ok(p) => {
                    &&& r is Ok
                    &&& r->Ok_0.0.provider == p
                    &&& r->Ok_0.0.config.stream_options.api_key == key
                    &&& target matches Some(t)
                        ==> r->Ok_0.0.config.stream_options.headers == t.headers
                },
                Err(why) => r == Err::<(AgentView, ThinkingLevel), ErrorView>(
                    ErrorView::Validation(
                        "Unable to switch provider/model to "@ + path + ": "@ + why,
                    ),
                ),
            }
        }),
{
}

/// The plan of a switch is the choice of the model together with the level of thinking that it offers.
pub proof fn a_switch_is_planned_with_its_level(
    agent: AgentView,
    provider_id: Seq<char>,
    model_id: Seq<char>,
    target: Option<ModelTargetView>,
    keys: SessionKeysView,
)
    ensures
        match selection(agent, provider_id, model_id, target, keys) {
            Ok(s) => switch_plan(agent, provider_id, model_id, target, keys) == Ok::<
                (ModelSelectionView, ThinkingLevel),
                ErrorView,
            >((s, offered(target, asked_level(agent)))),
            Err(e) => switch_plan(agent, provider_id, model_id, target, keys) == Err::<
                (ModelSelectionView, ThinkingLevel),
                ErrorView,
            >(e),
        },
{
}

/// An agent is brought in line with its session: it gets the model that the session names, if any, and the
/// level that the session states, as the model offers it. Whoever keeps the session learns whether that
/// is to be written down.
pub proof fn syncing_follows_the_session(
    agent: AgentView,
    session: SessionSelection,
    target: Option<ModelTargetView>,
    keys: SessionKeysView,
    created: Result<ProviderIdentityView, Seq<char>>,
)
    ensures
        ({
            let r = synced(agent, session, target, keys, created);
            let stated = match session.thinking {
                Some(level) => level,
                None => asked_level(agent),
            };
            let level = offered(
                if session.model is Some {
                    target
                } else {
                    None
                },
                stated,
            );
            &&& r matches Ok((next, outcome)) ==> {
                &&& outcome.level == level
                &&& next.config.stream_options.thinking_level == Some(level)
                &&& keeps_its_work(agent, next)
                &&& outcome.persist <==> if session.thinking_stated {
                    session.thinking != Some(level)
                } else {
                    level != asked_level(agent)
                }
                &&& outcome.record <==> outcome.persist && level != asked_level(agent)
                    && session.header_thinking != Some(level)
            }
            &&& session.model is None ==> {
                &&& r is Ok
                &&& r->Ok_0.0.provider == agent.provider
                &&& r->Ok_0.0.config.stream_options.api_key == agent.config.stream_options.api_key
                &&& r->Ok_0.0.config.stream_options.headers == agent.config.stream_options.headers
            }
            &&& session.model matches Some(names) ==> match selection(
                agent,
                names.0@,
                names.1@,
                target,
                keys,
            ) {
                Err(e) => r is Err && r->Err_0 == e,
                Ok(ModelSelectionView::Keep) => {
                    &&& r is Ok
                    &&& r->Ok_0.0.provider == agent.provider
                },
                Ok(ModelSelectionView::Create(key)) => match created {
                    Ok(p) => {
                        &&& r is Ok
                        &&& r->Ok_0.0.provider == p
                        &&& r->Ok_0.0.config.stream_options.api_key == key
                        &&& target matches Some(t)
                            ==> r->Ok_0.0.config.stream_options.headers == t.headers
                    },
                    Err(why) => r is Err && r->Err_0 == ErrorView::Validation(
                        "Unable to switch provider/model to "@ + (names.0@ + "/"@ + names.1@)
                            + ": "@ + why,
                    ),
                },
            }
        }),
{
}

/// When the level of thinking of a session is written down, and when it is recorded as a change.
pub proof fn levels_are_written_when_they_differ(
    current: ThinkingLevel,
    stated: bool,
    session: Option<ThinkingLevel>,
    header: Option<ThinkingLevel>,
    target: Option<ModelTargetView>,
)
    ensures
        ({
            let r = sync_outcome(current, stated, session, header, target);
            &&& r.level == offered(
                target,
                match session {
                    Some(level) => level,
                    None => current,
                },
            )
            &&& stated ==> (r.persist <==> session != Some(r.level))
            &&& !stated ==> (r.persist <==> r.level != current)
            &&& r.record <==> r.persist && r.level != current && header != Some(r.level)
        }),
{
}

/// Extensions ask the model that the agent uses, in the way in which the agent asks it.
pub proof fn extensions_use_the_agents_model(
    host: ExtensionAiCompletionHostStateView,
    agent: AgentView,
)
    ensures
        refreshed(host, agent).provider == agent.provider,
        refreshed(host, agent).stream_options == agent.config.stream_options,
        refreshed(host, agent).models == host.models,
{
}

/// Each level of thinking has a name and is offered as the model says.
pub proof fn levels_are_named(clamp: ThinkingClamp)
    ensures
        ThinkingLevel::Off.name() == "off"@,
        ThinkingLevel::Minimal.name() == "minimal"@,
        ThinkingLevel::Low.name() == "low"@,
        ThinkingLevel::Medium.name() == "medium"@,
        ThinkingLevel::High.name() == "high"@,
        ThinkingLevel::XHigh.name() == "xhigh"@,
        clamp.offers(ThinkingLevel::Off) == clamp.off,
        clamp.offers(ThinkingLevel::Minimal) == clamp.minimal,
        clamp.offers(ThinkingLevel::Low) == clamp.low,
        clamp.offers(ThinkingLevel::Medium) == clamp.medium,
        clamp.offers(ThinkingLevel::High) == clamp.high,
        clamp.offers(ThinkingLevel::XHigh) == clamp.xhigh,
{
}

} // verus!
