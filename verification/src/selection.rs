//! Switching the provider, the model and how much the model reasons.
use vstd::prelude::*;

use crate::agent::{
    clone_headers, header_fields, Agent, AgentConfigView, AgentView, ProviderIdentity,
    ProviderIdentityView, StreamOptions, StreamOptionsView, ThinkingLevel,
};
use crate::error::{Error, ErrorView};
use crate::json::{Json, JsonView};
use crate::session::AgentSession;
use crate::text::{clone_opt_text, opt_text, owned, same_text, trimmed};

verus! {

impl ThinkingLevel {
    /// The name of the level in sessions.
    pub open spec fn name(self) -> Seq<char> {
        match self {
            ThinkingLevel::Off => "off"@,
            ThinkingLevel::Minimal => "minimal"@,
            ThinkingLevel::Low => "low"@,
            ThinkingLevel::Medium => "medium"@,
            ThinkingLevel::High => "high"@,
            ThinkingLevel::XHigh => "xhigh"@,
        }
    }

    /// The name of the level in sessions.
    pub fn as_str(self) -> (r: &'static str)
        ensures
            r@ == self.name(),
    {
        match self {
            ThinkingLevel::Off => "off",
            ThinkingLevel::Minimal => "minimal",
            ThinkingLevel::Low => "low",
            ThinkingLevel::Medium => "medium",
            ThinkingLevel::High => "high",
            ThinkingLevel::XHigh => "xhigh",
        }
    }
}

/// The level that a model offers for each level that may be asked for.
#[derive(Debug, Clone, Copy, PartialEq, Eq, Structural)]
pub struct ThinkingClamp {
    pub off: ThinkingLevel,
    pub minimal: ThinkingLevel,
    pub low: ThinkingLevel,
    pub medium: ThinkingLevel,
    pub high: ThinkingLevel,
    pub xhigh: ThinkingLevel,
}

impl ThinkingClamp {
    /// The level that the model offers for a level.
    pub open spec fn offers(self, level: ThinkingLevel) -> ThinkingLevel {
        match level {
            ThinkingLevel::Off => self.off,
            ThinkingLevel::Minimal => self.minimal,
            ThinkingLevel::Low => self.low,
            ThinkingLevel::Medium => self.medium,
            ThinkingLevel::High => self.high,
            ThinkingLevel::XHigh => self.xhigh,
        }
    }

    /// The level that the model offers for a level.
    pub fn clamp(self, level: ThinkingLevel) -> (r: ThinkingLevel)
        ensures
            r == self.offers(level),
    {
        match level {
            ThinkingLevel::Off => self.off,
            ThinkingLevel::Minimal => self.minimal,
            ThinkingLevel::Low => self.low,
            ThinkingLevel::Medium => self.medium,
            ThinkingLevel::High => self.high,
            ThinkingLevel::XHigh => self.xhigh,
        }
    }
}

/// A model of the registry that a session may switch to.
#[derive(Debug, PartialEq, Eq)]
pub struct ModelTarget {
    pub api_key: Option<String>,
    pub requires_credential: bool,
    pub headers: Vec<(String, String)>,
    pub thinking: ThinkingClamp,
}

/// The mathematical value of [`ModelTarget`].
#[verifier::ext_equal]
pub struct ModelTargetView {
    pub api_key: Option<Seq<char>>,
    pub requires_credential: bool,
    pub headers: Seq<(Seq<char>, Seq<char>)>,
    pub thinking: ThinkingClamp,
}

impl View for ModelTarget {
    type V = ModelTargetView;

    open spec fn view(&self) -> ModelTargetView {
        ModelTargetView {
            api_key: opt_text(self.api_key),
            requires_credential: self.requires_credential,
            headers: header_fields(self.headers@),
            thinking: self.thinking,
        }
    }
}

/// The value of an optional target.
pub open spec fn opt_target(t: Option<&ModelTarget>) -> Option<ModelTargetView> {
    match t {
        Some(v) => Some(v@),
        None => None,
    }
}

/// The keys that do not come from the registry: one that was given for the session, and the stored
/// one for the provider.
#[derive(Debug, PartialEq, Eq)]
pub struct SessionKeys {
    pub given: Option<String>,
    pub stored: Option<String>,
}

/// The mathematical value of [`SessionKeys`].
#[verifier::ext_equal]
pub struct SessionKeysView {
    pub given: Option<Seq<char>>,
    pub stored: Option<Seq<char>>,
}

impl View for SessionKeys {
    type V = SessionKeysView;

    open spec fn view(&self) -> SessionKeysView {
        SessionKeysView { given: opt_text(self.given), stored: opt_text(self.stored) }
    }
}

/// A key without white space around it; a blank key counts as none.
pub open spec fn normalized(key: Option<Seq<char>>) -> Option<Seq<char>> {
    match key {
        Some(k) => if trimmed(k).len() > 0 {
            Some(trimmed(k))
        } else {
            None
        },
        None => None,
    }
}

/// A key without white space around it.
pub fn normalize_api_key(key: &Option<String>) -> (r: Option<String>)
    ensures
        opt_text(r) == normalized(opt_text(*key)),
{
    match key {
        Some(k) => {
            let k = k.as_str().trim();
            if k.is_empty() {
                None
            } else {
                Some(owned(k))
            }
        },
        None => None,
    }
}

/// The key for a model: the one given for the session, else the stored one, else the registry's.
pub open spec fn resolved_key(keys: SessionKeysView, target: ModelTargetView) -> Option<Seq<char>> {
    match normalized(keys.given) {
        Some(k) => Some(k),
        None => match normalized(keys.stored) {
            Some(k) => Some(k),
            None => normalized(target.api_key),
        },
    }
}

/// The key for a model.
pub fn resolve_stream_api_key_for_model(keys: &SessionKeys, target: &ModelTarget) -> (r: Option<
    String,
>)
    ensures
        opt_text(r) == resolved_key(keys@, target@),
{
    match normalize_api_key(&keys.given) {
        Some(k) => Some(k),
        None => match normalize_api_key(&keys.stored) {
            Some(k) => Some(k),
            None => normalize_api_key(&target.api_key),
        },
    }
}

/// Whether an agent already uses a model.
pub open spec fn uses(agent: AgentView, provider_id: Seq<char>, model_id: Seq<char>) -> bool {
    agent.provider.name == provider_id && agent.provider.model_id == model_id
}

fn uses_model(agent: &Agent, provider_id: &str, model_id: &str) -> (r: bool)
    ensures
        r == uses(agent@, provider_id@, model_id@),
{
    same_text(agent.provider.name.as_str(), provider_id) && same_text(
        agent.provider.model_id.as_str(),
        model_id,
    )
}

/// A model by the names of its provider and its own.
pub open spec fn model_path(provider_id: Seq<char>, model_id: Seq<char>) -> Seq<char> {
    provider_id + "/"@ + model_id
}

/// What is said when a model is not known.
pub open spec fn cannot_switch(provider_id: Seq<char>, model_id: Seq<char>) -> Seq<char> {
    "Unable to switch provider/model to "@ + model_path(provider_id, model_id)
}

/// What is said when there is no key for a model.
pub open spec fn missing_credentials(provider_id: Seq<char>, model_id: Seq<char>) -> Seq<char> {
    "Missing credentials for "@ + model_path(provider_id, model_id)
}

fn with_path(prefix: &str, provider_id: &str, model_id: &str) -> (r: String)
    ensures
        r@ == prefix@ + model_path(provider_id@, model_id@),
{
    let mut r = owned(prefix);
    r.push_str(provider_id);
    r.push_str("/");
    r.push_str(model_id);
    assert(r@ =~= prefix@ + model_path(provider_id@, model_id@));
    r
}

/// What a switch asks for.
#[derive(Debug, PartialEq, Eq)]
pub enum ModelSelection {
    /// Nothing: the model is in use.
    Keep,
    /// A provider for the model, which is then used with this key.
    Create(Option<String>),
}

/// The mathematical value of [`ModelSelection`].
#[verifier::ext_equal]
pub enum ModelSelectionView {
    Keep,
    Create(Option<Seq<char>>),
}

impl View for ModelSelection {
    type V = ModelSelectionView;

    open spec fn view(&self) -> ModelSelectionView {
        match *self {
            ModelSelection::Keep => ModelSelectionView::Keep,
            ModelSelection::Create(key) => ModelSelectionView::Create(opt_text(key)),
        }
    }
}

/// What using a model of the session asks for, or why it cannot be used. `target` is the model in
/// the registry, if there is a registry that knows it.
pub open spec fn selection(
    agent: AgentView,
    provider_id: Seq<char>,
    model_id: Seq<char>,
    target: Option<ModelTargetView>,
    keys: SessionKeysView,
) -> Result<ModelSelectionView, ErrorView> {
    if uses(agent, provider_id, model_id) {
        Ok(ModelSelectionView::Keep)
    } else {
        match target {
            None => Err(ErrorView::Validation(cannot_switch(provider_id, model_id))),
            Some(t) => if t.requires_credential && resolved_key(keys, t) is None {
                Err(ErrorView::Auth(missing_credentials(provider_id, model_id)))
            } else {
                Ok(ModelSelectionView::Create(resolved_key(keys, t)))
            },
        }
    }
}

/// The value of a selection that may have failed.
pub open spec fn selection_view(r: Result<ModelSelection, Error>) -> Result<
    ModelSelectionView,
    ErrorView,
> {
    match r {
        Ok(s) => Ok(s@),
        Err(e) => Err(e@),
    }
}

/// What using a model of the session asks for.
pub fn plan_session_model_selection(
    agent: &Agent,
    provider_id: &str,
    model_id: &str,
    target: Option<&ModelTarget>,
    keys: &SessionKeys,
) -> (r: Result<ModelSelection, Error>)
    ensures
        selection_view(r) == selection(
            agent@,
            provider_id@,
            model_id@,
            opt_target(target),
            keys@,
        ),
{
    if uses_model(agent, provider_id, model_id) {
        return Ok(ModelSelection::Keep);
    }
    match target {
        None => Err(
            Error::Validation(
                with_path("Unable to switch provider/model to ", provider_id, model_id),
            ),
        ),
        Some(t) => {
            let key = resolve_stream_api_key_for_model(keys, t);
            if t.requires_credential && key.is_none() {
                Err(Error::Auth(with_path("Missing credentials for ", provider_id, model_id)))
            } else {
                Ok(ModelSelection::Create(key))
            }
        },
    }
}

/// An agent that uses a provider which was just created.
pub open spec fn with_provider(
    agent: AgentView,
    created: ProviderIdentityView,
    key: Option<Seq<char>>,
    headers: Seq<(Seq<char>, Seq<char>)>,
) -> AgentView {
    AgentView {
        provider: created,
        config: AgentConfigView {
            stream_options: StreamOptionsView {
                api_key: key,
                headers,
                ..agent.config.stream_options
            },
            ..agent.config
        },
        ..agent
    }
}

/// What is said when a provider could not be created.
pub open spec fn creation_failed(
    provider_id: Seq<char>,
    model_id: Seq<char>,
    why: Seq<char>,
) -> ErrorView {
    ErrorView::Validation(cannot_switch(provider_id, model_id) + ": "@ + why)
}

fn creation_error(provider_id: &str, model_id: &str, why: &str) -> (r: Error)
    ensures
        r@ == creation_failed(provider_id@, model_id@, why@),
{
    let mut text = with_path("Unable to switch provider/model to ", provider_id, model_id);
    text.push_str(": ");
    text.push_str(why);
    Error::Validation(text)
}

impl Agent {
    /// Uses a provider that was just created.
    pub fn adopt_provider(
        &mut self,
        created: ProviderIdentity,
        key: Option<String>,
        headers: &Vec<(String, String)>,
    )
        ensures
            final(self)@ == with_provider(
                old(self)@,
                created@,
                opt_text(key),
                header_fields(headers@),
            ),
            old(self).wf() ==> final(self).wf(),
    {
        self.provider = created;
        self.config.stream_options.api_key = key;
        self.config.stream_options.headers = clone_headers(headers);
    }

    /// Sets how much the model reasons.
    pub fn set_thinking_level(&mut self, level: ThinkingLevel)
        ensures
            final(self)@ == with_thinking(old(self)@, level),
            old(self).wf() ==> final(self).wf(),
    {
        self.config.stream_options.thinking_level = Some(level);
    }
}

/// An agent whose model reasons as much as given.
pub open spec fn with_thinking(agent: AgentView, level: ThinkingLevel) -> AgentView {
    AgentView {
        config: AgentConfigView {
            stream_options: StreamOptionsView {
                thinking_level: Some(level),
                ..agent.config.stream_options
            },
            ..agent.config
        },
        ..agent
    }
}

/// How much the model of an agent reasons.
pub open spec fn current_thinking(agent: AgentView) -> ThinkingLevel {
    match agent.config.stream_options.thinking_level {
        Some(level) => level,
        None => ThinkingLevel::Off,
    }
}

fn current_thinking_of(agent: &Agent) -> (r: ThinkingLevel)
    ensures
        r == current_thinking(agent@),
{
    match agent.config.stream_options.thinking_level {
        Some(level) => level,
        None => ThinkingLevel::Off,
    }
}

/// A level as the model of the registry offers it; a model that is not known offers every level.
pub open spec fn clamped_level(target: Option<ModelTargetView>, level: ThinkingLevel) -> ThinkingLevel {
    match target {
        Some(t) => t.thinking.offers(level),
        None => level,
    }
}

/// A level as the model of the registry offers it.
pub fn clamp_thinking_level_for_model(target: Option<&ModelTarget>, level: ThinkingLevel) -> (r:
    ThinkingLevel)
    ensures
        r == clamped_level(opt_target(target), level),
{
    match target {
        Some(t) => t.thinking.clamp(level),
        None => level,
    }
}

/// What completions for extensions go by.
#[derive(Debug, PartialEq, Eq)]
pub struct ExtensionAiCompletionHostState {
    pub provider: ProviderIdentity,
    pub stream_options: StreamOptions,
    pub models: Vec<Json>,
}

/// The mathematical value of [`ExtensionAiCompletionHostState`].
#[verifier::ext_equal]
pub struct ExtensionAiCompletionHostStateView {
    pub provider: ProviderIdentityView,
    pub stream_options: StreamOptionsView,
    pub models: Seq<JsonView>,
}

impl View for ExtensionAiCompletionHostState {
    type V = ExtensionAiCompletionHostStateView;

    open spec fn view(&self) -> ExtensionAiCompletionHostStateView {
        ExtensionAiCompletionHostStateView {
            provider: self.provider@,
            stream_options: self.stream_options@,
            models: self.models.deep_view(),
        }
    }
}

/// What completions for extensions go by, brought up to date with the agent.
pub open spec fn refreshed(
    host: ExtensionAiCompletionHostStateView,
    agent: AgentView,
) -> ExtensionAiCompletionHostStateView {
    ExtensionAiCompletionHostStateView {
        provider: agent.provider,
        stream_options: agent.config.stream_options,
        ..host
    }
}

impl ExtensionAiCompletionHostState {
    /// What completions for extensions go by in a new session.
    pub fn new(agent: &Agent) -> (r: Self)
        ensures
            r@ == (ExtensionAiCompletionHostStateView {
                provider: agent@.provider,
                stream_options: agent@.config.stream_options,
                models: Seq::empty(),
            }),
    {
        let r = ExtensionAiCompletionHostState {
            provider: agent.provider.clone(),
            stream_options: agent.config.stream_options.clone(),
            models: Vec::new(),
        };
        assert(r@.models =~= Seq::empty());
        r
    }

    /// Brings the state up to date with the agent.
    pub fn refresh(&mut self, agent: &Agent)
        ensures
            final(self)@ == refreshed(old(self)@, agent@),
    {
        self.provider = agent.provider.clone();
        self.stream_options = agent.config.stream_options.clone();
    }

    /// Replaces the catalogue of models.
    pub fn set_models(&mut self, models: Vec<Json>)
        ensures
            final(self)@ == (ExtensionAiCompletionHostStateView {
                models: models.deep_view(),
                ..old(self)@
            }),
    {
        self.models = models;
    }
}

/// What switching to a model asks for and how much the model will reason, or why it is refused. A
/// model that is in use needs no key, but its level is still made to fit.
pub open spec fn switch_plan(
    agent: AgentView,
    provider_id: Seq<char>,
    model_id: Seq<char>,
    target: Option<ModelTargetView>,
    keys: SessionKeysView,
) -> Result<(ModelSelectionView, ThinkingLevel), ErrorView> {
    match selection(agent, provider_id, model_id, target, keys) {
        Ok(s) => Ok((s, clamped_level(target, current_thinking(agent)))),
        Err(e) => Err(e),
    }
}

/// What a plan that may have failed says.
pub open spec fn plan_view(r: Result<(ModelSelection, ThinkingLevel), Error>) -> Result<
    (ModelSelectionView, ThinkingLevel),
    ErrorView,
> {
    match r {
        Ok(p) => Ok((p.0@, p.1)),
        Err(e) => Err(e@),
    }
}

/// What switching to a model asks for and how much the model will reason.
pub fn plan_model_switch(
    agent: &Agent,
    provider_id: &str,
    model_id: &str,
    target: Option<&ModelTarget>,
    keys: &SessionKeys,
) -> (r: Result<(ModelSelection, ThinkingLevel), Error>)
    ensures
        plan_view(r) == switch_plan(agent@, provider_id@, model_id@, opt_target(target), keys@),
{
    match plan_session_model_selection(agent, provider_id, model_id, target, keys) {
        Ok(s) => Ok((s, clamp_thinking_level_for_model(target, current_thinking_of(agent)))),
        Err(e) => Err(e),
    }
}

/// What creating a provider came to.
pub open spec fn creation_view(r: Result<ProviderIdentity, String>) -> Result<
    ProviderIdentityView,
    Seq<char>,
> {
    match r {
        Ok(p) => Ok(p@),
        Err(why) => Err(why@),
    }
}

/// The agent after a selection was carried out, or why it could not be. `created` is what creating
/// the provider came to; it counts only if the selection asks for one.
pub open spec fn after_selection(
    agent: AgentView,
    provider_id: Seq<char>,
    model_id: Seq<char>,
    s: ModelSelectionView,
    headers: Seq<(Seq<char>, Seq<char>)>,
    created: Result<ProviderIdentityView, Seq<char>>,
) -> Result<AgentView, ErrorView> {
    match s {
        ModelSelectionView::Keep => Ok(agent),
        ModelSelectionView::Create(key) => match created {
            Ok(p) => Ok(with_provider(agent, p, key, headers)),
            Err(why) => Err(creation_failed(provider_id, model_id, why)),
        },
    }
}

/// Carries out a selection.
pub fn apply_session_model_selection(
    agent: &mut Agent,
    provider_id: &str,
    model_id: &str,
    s: ModelSelection,
    headers: &Vec<(String, String)>,
    created: Result<ProviderIdentity, String>,
) -> (r: Result<(), Error>)
    ensures
        match after_selection(
            old(agent)@,
            provider_id@,
            model_id@,
            s@,
            header_fields(headers@),
            creation_view(created),
        ) {
            Ok(next) => r is Ok && final(agent)@ == next,
            Err(e) => r is Err && r->Err_0@ == e && final(agent)@ == old(agent)@,
        },
        old(agent).wf() ==> final(agent).wf(),
{
    match s {
        ModelSelection::Keep => Ok(()),
        ModelSelection::Create(key) => match created {
            Ok(p) => {
                agent.adopt_provider(p, key, headers);
                Ok(())
            },
            Err(why) => Err(creation_error(provider_id, model_id, why.as_str())),
        },
    }
}

/// Carries out a switch that was planned: the provider, then how much the model reasons, then what
/// extensions go by. A provider that could not be created leaves everything as it was.
pub fn apply_model_switch(
    agent: &mut Agent,
    host: &mut ExtensionAiCompletionHostState,
    provider_id: &str,
    model_id: &str,
    plan: (ModelSelection, ThinkingLevel),
    headers: &Vec<(String, String)>,
    created: Result<ProviderIdentity, String>,
) -> (r: Result<(), Error>)
    ensures
        match after_selection(
            old(agent)@,
            provider_id@,
            model_id@,
            plan.0@,
            header_fields(headers@),
            creation_view(created),
        ) {
            Ok(next) => {
                &&& r is Ok
                &&& final(agent)@ == with_thinking(next, plan.1)
                &&& final(host)@ == refreshed(old(host)@, final(agent)@)
            },
            Err(e) => {
                &&& r is Err
                &&& r->Err_0@ == e
                &&& final(agent)@ == old(agent)@
                &&& final(host)@ == old(host)@
            },
        },
        old(agent).wf() ==> final(agent).wf(),
{
    let (s, level) = plan;
    match apply_session_model_selection(agent, provider_id, model_id, s, headers, created) {
        Ok(_) => {},
        Err(e) => {
            return Err(e);
        },
    }
    agent.set_thinking_level(level);
    host.refresh(agent);
    Ok(())
}

/// What a switch records in the session besides its header.
#[derive(Debug, Clone, Copy, PartialEq, Eq, Structural)]
pub struct SelectionRecord {
    /// Whether a change of the model is recorded.
    pub model_change: bool,
    /// Whether a change of how much the model reasons is recorded.
    pub thinking_change: bool,
}

/// The value of an optional pair of names.
pub open spec fn opt_names(n: Option<(String, String)>) -> Option<(Seq<char>, Seq<char>)> {
    match n {
        Some(p) => Some((p.0@, p.1@)),
        None => None,
    }
}

/// What a switch records: what was not so before.
pub fn switch_record(
    previous_model: &Option<(String, String)>,
    previous_thinking: Option<ThinkingLevel>,
    provider_id: &str,
    model_id: &str,
    next_thinking: ThinkingLevel,
) -> (r: SelectionRecord)
    ensures
        r.model_change == (opt_names(*previous_model) != Some((provider_id@, model_id@))),
        r.thinking_change == (previous_thinking != Some(next_thinking)),
{
    let same_model = match previous_model {
        Some(p) => same_text(p.0.as_str(), provider_id) && same_text(p.1.as_str(), model_id),
        None => false,
    };
    let same_thinking = match previous_thinking {
        Some(level) => level == next_thinking,
        None => false,
    };
    SelectionRecord { model_change: !same_model, thinking_change: !same_thinking }
}

/// How much the model of a session reasons: what the session says, or else what it did before, as
/// far as the session's model offers it.
pub open spec fn synced_level(
    current: ThinkingLevel,
    session: Option<ThinkingLevel>,
    target: Option<ModelTargetView>,
) -> ThinkingLevel {
    clamped_level(
        target,
        match session {
            Some(level) => level,
            None => current,
        },
    )
}

/// What bringing an agent up to date with its session came to.
#[derive(Debug, Clone, Copy, PartialEq, Eq, Structural)]
pub struct SyncOutcome {
    /// How much the model reasons now.
    pub level: ThinkingLevel,
    /// Whether the session's header has to say so.
    pub persist: bool,
    /// Whether the session has to record the change.
    pub record: bool,
}

/// What bringing an agent up to date with its session comes to. `stated` says whether the session
/// states a level at all, `session` is that level if it is one, and `header` the level in the
/// session's header.
pub open spec fn sync_outcome(
    current: ThinkingLevel,
    stated: bool,
    session: Option<ThinkingLevel>,
    header: Option<ThinkingLevel>,
    target: Option<ModelTargetView>,
) -> SyncOutcome {
    let level = synced_level(current, session, target);
    let persist = if stated {
        session != Some(level)
    } else {
        level != current
    };
    SyncOutcome {
        level,
        persist,
        record: persist && level != current && header != Some(level),
    }
}

/// Brings how much the model reasons, and what extensions go by, up to date with the session, once
/// the session's model is in use. `target` is that model in the registry, if the session names one
/// that the registry knows.
pub fn sync_thinking(
    agent: &mut Agent,
    host: &mut ExtensionAiCompletionHostState,
    stated: bool,
    session: Option<ThinkingLevel>,
    header: Option<ThinkingLevel>,
    target: Option<&ModelTarget>,
) -> (r: SyncOutcome)
    ensures
        r == sync_outcome(
            current_thinking(old(agent)@),
            stated,
            session,
            header,
            opt_target(target),
        ),
        final(agent)@ == with_thinking(old(agent)@, r.level),
        final(host)@ == refreshed(old(host)@, final(agent)@),
        old(agent).wf() ==> final(agent).wf(),
{
    let current = current_thinking_of(agent);
    let requested = match session {
        Some(level) => level,
        None => current,
    };
    let level = clamp_thinking_level_for_model(target, requested);
    agent.set_thinking_level(level);
    host.refresh(agent);
    let changed = level != current;
    let persist = if stated {
        match session {
            Some(s) => s != level,
            None => true,
        }
    } else {
        changed
    };
    let in_header = match header {
        Some(h) => h == level,
        None => false,
    };
    SyncOutcome { level, persist, record: persist && changed && !in_header }
}

/// Where a session says what its agent should use.
#[derive(Debug, PartialEq, Eq)]
pub struct SessionSelection {
    /// The session's model, by the names of its provider and its own.
    pub model: Option<(String, String)>,
    /// Whether the session states a level.
    pub thinking_stated: bool,
    /// The level that the session states, if it is one.
    pub thinking: Option<ThinkingLevel>,
    /// The level in the session's header.
    pub header_thinking: Option<ThinkingLevel>,
}

/// What bringing an agent in line with its session asks for first, or why it cannot be done.
pub open spec fn sync_plan(
    agent: AgentView,
    model: Option<(Seq<char>, Seq<char>)>,
    target: Option<ModelTargetView>,
    keys: SessionKeysView,
) -> Result<ModelSelectionView, ErrorView> {
    match model {
        Some(names) => selection(agent, names.0, names.1, target, keys),
        None => Ok(ModelSelectionView::Keep),
    }
}

/// What bringing an agent in line with its session asks for first.
pub fn plan_runtime_sync(
    agent: &Agent,
    session: &SessionSelection,
    target: Option<&ModelTarget>,
    keys: &SessionKeys,
) -> (r: Result<ModelSelection, Error>)
    ensures
        selection_view(r) == sync_plan(agent@, opt_names(session.model), opt_target(target), keys@),
{
    match &session.model {
        Some(names) => plan_session_model_selection(
            agent,
            names.0.as_str(),
            names.1.as_str(),
            target,
            keys,
        ),
        None => Ok(ModelSelection::Keep),
    }
}

/// The session's model in the registry: nothing if the session names no model.
pub open spec fn session_target(
    model: Option<(Seq<char>, Seq<char>)>,
    target: Option<ModelTargetView>,
) -> Option<ModelTargetView> {
    match model {
        Some(_) => target,
        None => None,
    }
}

/// An agent in line with its session, and what has to be written, or why it cannot be done: the model
/// first, then how much it reasons. `created` is what creating the provider came to; it counts only if
/// a provider is needed.
pub open spec fn synced(
    agent: AgentView,
    session: SessionSelection,
    target: Option<ModelTargetView>,
    keys: SessionKeysView,
    created: Result<ProviderIdentityView, Seq<char>>,
) -> Result<(AgentView, SyncOutcome), ErrorView> {
    let model = opt_names(session.model);
    match sync_plan(agent, model, target, keys) {
        Err(e) => Err(e),
        Ok(s) => match after_selection(
            agent,
            names_or_empty(model).0,
            names_or_empty(model).1,
            s,
            headers_of(target),
            created,
        ) {
            Err(e) => Err(e),
            Ok(next) => {
                let outcome = sync_outcome(
                    current_thinking(next),
                    session.thinking_stated,
                    session.thinking,
                    session.header_thinking,
                    session_target(model, target),
                );
                Ok((with_thinking(next, outcome.level), outcome))
            },
        },
    }
}

/// The names of a model, or empty ones.
pub open spec fn names_or_empty(model: Option<(Seq<char>, Seq<char>)>) -> (Seq<char>, Seq<char>) {
    match model {
        Some(n) => n,
        None => (Seq::empty(), Seq::empty()),
    }
}

/// The headers for a model of the registry.
pub open spec fn headers_of(target: Option<ModelTargetView>) -> Seq<(Seq<char>, Seq<char>)> {
    match target {
        Some(t) => t.headers,
        None => Seq::empty(),
    }
}

/// Brings an agent, and what extensions go by, in line with its session. A refusal leaves everything as
/// it was.
pub fn sync_runtime_selection(
    agent: &mut Agent,
    host: &mut ExtensionAiCompletionHostState,
    session: &SessionSelection,
    target: Option<&ModelTarget>,
    keys: &SessionKeys,
    created: Result<ProviderIdentity, String>,
) -> (r: Result<SyncOutcome, Error>)
    ensures
        match synced(
            old(agent)@,
            *session,
            opt_target(target),
            keys@,
            creation_view(created),
        ) {
            Ok(next) => {
                &&& r is Ok
                &&& r->Ok_0 == next.1
                &&& final(agent)@ == next.0
                &&& final(host)@ == refreshed(old(host)@, next.0)
            },
            Err(e) => {
                &&& r is Err
                &&& r->Err_0@ == e
                &&& final(agent)@ == old(agent)@
                &&& final(host)@ == old(host)@
            },
        },
        old(agent).wf() ==> final(agent).wf(),
{
    let plan = match plan_runtime_sync(agent, session, target, keys) {
        Ok(plan) => plan,
        Err(e) => {
            return Err(e);
        },
    };
    let model_target = match &session.model {
        Some(names) => {
            if let Some(t) = target {
                match apply_session_model_selection(
                    agent,
                    names.0.as_str(),
                    names.1.as_str(),
                    plan,
                    &t.headers,
                    created,
                ) {
                    Ok(_) => {},
                    Err(e) => {
                        return Err(e);
                    },
                }
            }
            target
        },
        None => None,
    };
    Ok(
        sync_thinking(
            agent,
            host,
            session.thinking_stated,
            session.thinking,
            session.header_thinking,
            model_target,
        ),
    )
}

/// An agent after a switch to a model and how much the model reasons, or why the switch is refused.
/// `created` is what creating the provider came to; it counts only if a provider is needed.
pub open spec fn switched(
    agent: AgentView,
    provider_id: Seq<char>,
    model_id: Seq<char>,
    target: Option<ModelTargetView>,
    keys: SessionKeysView,
    created: Result<ProviderIdentityView, Seq<char>>,
) -> Result<(AgentView, ThinkingLevel), ErrorView> {
    match switch_plan(agent, provider_id, model_id, target, keys) {
        Err(e) => Err(e),
        Ok(plan) => match after_selection(
            agent,
            provider_id,
            model_id,
            plan.0,
            headers_of(target),
            created,
        ) {
            Err(e) => Err(e),
            Ok(next) => Ok((with_thinking(next, plan.1), plan.1)),
        },
    }
}

/// The keys that count for a session.
pub open spec fn session_keys(session: AgentSession, stored: Option<String>) -> SessionKeysView {
    SessionKeysView { given: opt_text(session.api_key_override), stored: opt_text(stored) }
}

impl AgentSession {
    fn keys(&self, stored: Option<String>) -> (r: SessionKeys)
        ensures
            r@ == session_keys(*self, stored),
    {
        SessionKeys { given: clone_opt_text(&self.api_key_override), stored }
    }

    /// Whether switching to a model needs a provider, and with which key, or why the switch is refused.
    /// `target` is the model in the registry, and `stored` the stored key for its provider.
    pub fn plan_provider_model(
        &self,
        provider_id: &str,
        model_id: &str,
        target: Option<&ModelTarget>,
        stored: Option<String>,
    ) -> (r: Result<(ModelSelection, ThinkingLevel), Error>)
        ensures
            plan_view(r) == switch_plan(
                self.agent@,
                provider_id@,
                model_id@,
                opt_target(target),
                session_keys(*self, stored),
            ),
    {
        let keys = self.keys(stored);
        plan_model_switch(&self.agent, provider_id, model_id, target, &keys)
    }

    /// Switches to a model and says how much it reasons. A refusal leaves the session as it was.
    pub fn set_provider_model(
        &mut self,
        provider_id: &str,
        model_id: &str,
        target: Option<&ModelTarget>,
        stored: Option<String>,
        created: Result<ProviderIdentity, String>,
    ) -> (r: Result<ThinkingLevel, Error>)
        ensures
            match switched(
                old(self).agent@,
                provider_id@,
                model_id@,
                opt_target(target),
                session_keys(*old(self), stored),
                creation_view(created),
            ) {
                Ok(next) => {
                    &&& r is Ok
                    &&& r->Ok_0 == next.1
                    &&& final(self).agent@ == next.0
                    &&& final(self).completion@ == refreshed(old(self).completion@, next.0)
                },
                Err(e) => {
                    &&& r is Err
                    &&& r->Err_0@ == e
                    &&& final(self).agent@ == old(self).agent@
                    &&& final(self).completion@ == old(self).completion@
                },
            },
            old(self).agent.wf() ==> final(self).agent.wf(),
            *final(self) == (AgentSession {
                agent: final(self).agent,
                completion: final(self).completion,
                ..*old(self)
            }),
    {
        let plan = match self.plan_provider_model(provider_id, model_id, target, stored) {
            Ok(plan) => plan,
            Err(e) => {
                return Err(e);
            },
        };
        let level = plan.1;
        let headers = match target {
            Some(t) => clone_headers(&t.headers),
            None => {
                let none: Vec<(String, String)> = Vec::new();
                assert(header_fields(none@) =~= Seq::empty());
                none
            },
        };
        match apply_model_switch(
            &mut self.agent,
            &mut self.completion,
            provider_id,
            model_id,
            plan,
            &headers,
            created,
        ) {
            Ok(_) => Ok(level),
            Err(e) => Err(e),
        }
    }

    /// Whether being in line with the stored session needs a provider, and with which key, or why that
    /// cannot be.
    pub fn plan_sync(
        &self,
        session: &SessionSelection,
        target: Option<&ModelTarget>,
        stored: Option<String>,
    ) -> (r: Result<ModelSelection, Error>)
        ensures
            selection_view(r) == sync_plan(
                self.agent@,
                opt_names(session.model),
                opt_target(target),
                session_keys(*self, stored),
            ),
    {
        let keys = self.keys(stored);
        plan_runtime_sync(&self.agent, session, target, &keys)
    }

    /// Brings the agent in line with the stored session and says what has to be written.
    pub fn sync_runtime_selection_from_session_header(
        &mut self,
        session: &SessionSelection,
        target: Option<&ModelTarget>,
        stored: Option<String>,
        created: Result<ProviderIdentity, String>,
    ) -> (r: Result<SyncOutcome, Error>)
        ensures
            match synced(
                old(self).agent@,
                *session,
                opt_target(target),
                session_keys(*old(self), stored),
                creation_view(created),
            ) {
                Ok(next) => {
                    &&& r is Ok
                    &&& r->Ok_0 == next.1
                    &&& final(self).agent@ == next.0
                    &&& final(self).completion@ == refreshed(old(self).completion@, next.0)
                },
                Err(e) => {
                    &&& r is Err
                    &&& r->Err_0@ == e
                    &&& final(self).agent@ == old(self).agent@
                    &&& final(self).completion@ == old(self).completion@
                },
            },
            old(self).agent.wf() ==> final(self).agent.wf(),
            *final(self) == (AgentSession {
                agent: final(self).agent,
                completion: final(self).completion,
                ..*old(self)
            }),
    {
        let keys = self.keys(stored);
        sync_runtime_selection(
            &mut self.agent,
            &mut self.completion,
            session,
            target,
            &keys,
            created,
        )
    }
}

/// Choosing a model does not touch how much it reasons: the session's level is measured against what
/// the agent did before.
pub proof fn selection_keeps_thinking(
    agent: AgentView,
    provider_id: Seq<char>,
    model_id: Seq<char>,
    s: ModelSelectionView,
    headers: Seq<(Seq<char>, Seq<char>)>,
    created: Result<ProviderIdentityView, Seq<char>>,
)
    ensures
        match after_selection(agent, provider_id, model_id, s, headers, created) {
            Ok(next) => current_thinking(next) == current_thinking(agent) && next.messages
                == agent.messages && next.queue == agent.queue,
            Err(_) => true,
        },
{
}

/// A switch is refused exactly if the model is not in use and either not known or without a key that
/// it needs.
pub proof fn switch_is_refused_iff(
    agent: AgentView,
    provider_id: Seq<char>,
    model_id: Seq<char>,
    target: Option<ModelTargetView>,
    keys: SessionKeysView,
)
    ensures
        switch_plan(agent, provider_id, model_id, target, keys) is Err <==> !uses(
            agent,
            provider_id,
            model_id,
        ) && (target is None || (target->Some_0.requires_credential && resolved_key(
            keys,
            target->Some_0,
        ) is None)),
{
}

/// A key that is used is never blank, and one that was given for the session wins.
pub proof fn used_keys_are_not_blank(keys: SessionKeysView, target: ModelTargetView)
    ensures
        resolved_key(keys, target) matches Some(k) ==> k.len() > 0,
        normalized(keys.given) is Some ==> resolved_key(keys, target) == normalized(keys.given),
{
}

/// A session that is in line with its agent needs no writing, and bringing it in line twice is the
/// same as once.
pub proof fn syncing_settles(
    current: ThinkingLevel,
    stated: bool,
    session: Option<ThinkingLevel>,
    header: Option<ThinkingLevel>,
    target: Option<ModelTargetView>,
)
    requires
        target matches Some(t) ==> forall|l: ThinkingLevel|
            #[trigger] t.thinking.offers(t.thinking.offers(l)) == t.thinking.offers(l),
    ensures
        ({
            let first = sync_outcome(current, stated, session, header, target);
            let second = sync_outcome(
                first.level,
                true,
                Some(first.level),
                Some(first.level),
                target,
            );
            second.level == first.level && !second.persist && !second.record
        }),
{
    if let Some(t) = target {
        let asked = match session {
            Some(level) => level,
            None => current,
        };
        assert(t.thinking.offers(t.thinking.offers(asked)) == t.thinking.offers(asked));
    }
}

} // verus!
