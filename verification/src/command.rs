//! Commands of extensions, and the runs that extensions ask for while a session is idle.
use vstd::prelude::*;

use crate::error::{Error, ErrorView};
use crate::host::{HostState, HostStateView, PendingIdleAction, PendingIdleActionView};
use crate::input::InputSource;
use crate::json::{Json, JsonView};
use crate::session::AgentSession;
use crate::text::owned;

verus! {

/// The runs that extensions asked for, one after the other. While they last, input counts as coming
/// from an extension.
#[derive(Debug)]
pub struct IdleRuns {
    pub actions: Vec<PendingIdleAction>,
    /// How many of the actions have been handed out.
    pub taken: usize,
    /// Where input came from before.
    pub previous: InputSource,
}

/// The mathematical value of [`IdleRuns`]: the actions that are left, and where input came from before.
#[verifier::ext_equal]
pub struct IdleRunsView {
    pub left: Seq<PendingIdleActionView>,
    pub previous: InputSource,
}

impl View for IdleRuns {
    type V = IdleRunsView;

    open spec fn view(&self) -> IdleRunsView {
        IdleRunsView {
            left: self.actions.deep_view().skip(self.taken as int),
            previous: self.previous,
        }
    }
}

/// What the runs ask for next.
#[derive(Debug, PartialEq, Eq)]
pub enum IdleAction {
    /// Carry out a run.
    Run(PendingIdleAction),
    /// The runs are over.
    Finish(Result<(), Error>),
}

/// The mathematical value of [`IdleAction`].
#[verifier::ext_equal]
pub enum IdleActionView {
    Run(PendingIdleActionView),
    Finished,
    Failed(ErrorView),
}

impl View for IdleAction {
    type V = IdleActionView;

    open spec fn view(&self) -> IdleActionView {
        match *self {
            IdleAction::Run(a) => IdleActionView::Run(a@),
            IdleAction::Finish(Ok(_)) => IdleActionView::Finished,
            IdleAction::Finish(Err(e)) => IdleActionView::Failed(e@),
        }
    }
}

/// The runs together with where input comes from.
#[verifier::ext_equal]
pub struct IdleWorld {
    pub runs: IdleRunsView,
    pub source: InputSource,
}

impl IdleWorld {
    /// This world with the next run handed out, or over if there is none.
    pub open spec fn advanced(self) -> (IdleWorld, IdleActionView) {
        if self.runs.left.len() > 0 {
            (
                IdleWorld {
                    runs: IdleRunsView { left: self.runs.left.drop_first(), ..self.runs },
                    source: InputSource::Extension,
                },
                IdleActionView::Run(self.runs.left[0]),
            )
        } else {
            (IdleWorld { source: self.runs.previous, ..self }, IdleActionView::Finished)
        }
    }

    /// This world after a run: a failure ends the runs, and what is left of them is dropped.
    pub open spec fn step(self, failure: Option<ErrorView>) -> (IdleWorld, IdleActionView) {
        match failure {
            Some(e) => (
                IdleWorld {
                    runs: IdleRunsView { left: Seq::empty(), ..self.runs },
                    source: self.runs.previous,
                },
                IdleActionView::Failed(e),
            ),
            None => self.advanced(),
        }
    }
}

/// The world that the parts of it make up.
pub open spec fn idle_world(runs: IdleRuns, source: InputSource) -> IdleWorld {
    IdleWorld { runs: runs@, source }
}

/// The failure of a result, if it is one.
pub open spec fn failure_of<T>(r: Result<T, Error>) -> Option<ErrorView> {
    match r {
        Ok(_) => None,
        Err(e) => Some(e@),
    }
}

impl PendingIdleAction {
    fn duplicate(&self) -> (r: Self)
        ensures
            r@ == self@,
    {
        match self {
            PendingIdleAction::CustomMessage(m) => PendingIdleAction::CustomMessage(m.clone()),
            PendingIdleAction::UserText(t) => PendingIdleAction::UserText(t.clone()),
        }
    }
}

impl IdleRuns {
    /// The runs are taken one by one.
    pub open spec fn wf(&self) -> bool {
        self.taken <= self.actions@.len()
    }

    fn advance(&mut self, source: &mut InputSource) -> (action: IdleAction)
        requires
            old(self).wf(),
        ensures
            final(self).wf(),
            (idle_world(*final(self), *final(source)), action@) == idle_world(
                *old(self),
                *old(source),
            ).advanced(),
    {
        let ghost left = self@.left;
        assert(left.len() == self.actions@.len() - self.taken);
        if self.taken < self.actions.len() {
            let action = self.actions[self.taken].duplicate();
            assert(left[0] == action@);
            self.taken = self.taken + 1;
            assert(self@.left =~= left.drop_first());
            *source = InputSource::Extension;
            IdleAction::Run(action)
        } else {
            *source = self.previous;
            IdleAction::Finish(Ok(()))
        }
    }

    /// Takes what extensions asked for and starts with the first of it.
    pub fn start(source: &mut InputSource, host: &mut HostState) -> (r: (Self, IdleAction))
        ensures
            r.0.wf(),
            (idle_world(r.0, *final(source)), r.1@) == (IdleWorld {
                runs: IdleRunsView { left: old(host)@.idle, previous: *old(source) },
                source: *old(source),
            }).advanced(),
            final(host)@ == (HostStateView { idle: Seq::empty(), ..old(host)@ }),
    {
        let actions = host.take_pending_idle_actions();
        let ghost idle = actions.deep_view();
        let mut runs = IdleRuns { actions, taken: 0, previous: *source };
        assert(runs@.left =~= idle);
        let action = runs.advance(source);
        (runs, action)
    }

    /// Goes on after a run.
    pub fn step(&mut self, source: &mut InputSource, done: Result<(), Error>) -> (action: IdleAction)
        requires
            old(self).wf(),
        ensures
            final(self).wf(),
            (idle_world(*final(self), *final(source)), action@) == idle_world(
                *old(self),
                *old(source),
            ).step(failure_of(done)),
    {
        match done {
            Ok(_) => self.advance(source),
            Err(e) => {
                self.taken = self.actions.len();
                assert(self@.left =~= Seq::empty());
                *source = self.previous;
                IdleAction::Finish(Err(e))
            },
        }
    }
}

/// While a run that extensions asked for goes on, input counts as theirs; once the runs are over, input
/// comes from where it came from before.
pub proof fn idle_runs_put_the_source_back(w: IdleWorld, failure: Option<ErrorView>)
    ensures
        w.step(failure).0.runs.previous == w.runs.previous,
        w.step(failure).1 is Run ==> w.step(failure).0.source == InputSource::Extension,
        !(w.step(failure).1 is Run) ==> w.step(failure).0.source == w.runs.previous,
{
}

/// Runs that all go well carry out everything that was asked for, in the order in which it was asked for.
pub open spec fn runs_in_order(w: IdleWorld) -> Seq<PendingIdleActionView>
    decreases w.runs.left.len(),
{
    let (next, action) = w.advanced();
    match action {
        IdleActionView::Run(a) => if next.runs.left.len() < w.runs.left.len() {
            seq![a] + runs_in_order(next)
        } else {
            Seq::empty()
        },
        _ => Seq::empty(),
    }
}

/// Runs that all go well carry out everything that was asked for, in the order in which it was asked for.
pub proof fn idle_runs_keep_their_order(w: IdleWorld)
    ensures
        runs_in_order(w) == w.runs.left,
    decreases w.runs.left.len(),
{
    if w.runs.left.len() > 0 {
        let next = w.advanced().0;
        idle_runs_keep_their_order(next);
        assert(seq![w.runs.left[0]] + w.runs.left.drop_first() =~= w.runs.left);
    } else {
        assert(w.runs.left =~= Seq::empty());
    }
}

/// What a command of an extension waits for.
#[derive(Debug, Clone, Copy, PartialEq, Eq, Structural)]
pub enum CommandPhase {
    /// The runs that were asked for before the command.
    Before,
    /// The command itself.
    Command,
    /// The runs that the command asked for.
    After,
    /// Nothing more.
    Done,
}

/// A command of an extension.
#[derive(Debug)]
pub struct ExtensionCommand {
    pub phase: CommandPhase,
    pub result: Option<Result<Json, Error>>,
}

/// What a command came to.
#[verifier::ext_equal]
pub enum CommandOutcomeView {
    Value(JsonView),
    Failure(ErrorView),
}

/// The value of what a command came to.
pub open spec fn command_outcome(r: Result<Json, Error>) -> CommandOutcomeView {
    match r {
        Ok(v) => CommandOutcomeView::Value(v@),
        Err(e) => CommandOutcomeView::Failure(e@),
    }
}

/// The mathematical value of [`ExtensionCommand`].
#[verifier::ext_equal]
pub struct ExtensionCommandView {
    pub phase: CommandPhase,
    pub result: Option<CommandOutcomeView>,
}

impl View for ExtensionCommand {
    type V = ExtensionCommandView;

    open spec fn view(&self) -> ExtensionCommandView {
        ExtensionCommandView {
            phase: self.phase,
            result: match self.result {
                Some(r) => Some(command_outcome(r)),
                None => None,
            },
        }
    }
}

/// What a command answers to.
#[derive(Debug, PartialEq, Eq)]
pub enum CommandInput {
    /// Whether the runs that were asked for went well.
    Replayed(Result<(), Error>),
    /// What the extension answered.
    Answered(Result<Json, Error>),
}

/// What a command asks for next.
#[derive(Debug, PartialEq, Eq)]
pub enum CommandAction {
    /// Carry out the runs that extensions asked for.
    ReplayIdle,
    /// Hand the command to the extension.
    Execute,
    /// The command is over.
    Finish(Result<Json, Error>),
}

/// The mathematical value of [`CommandAction`].
#[verifier::ext_equal]
pub enum CommandActionView {
    ReplayIdle,
    Execute,
    Finish(CommandOutcomeView),
}

impl View for CommandAction {
    type V = CommandActionView;

    open spec fn view(&self) -> CommandActionView {
        match *self {
            CommandAction::ReplayIdle => CommandActionView::ReplayIdle,
            CommandAction::Execute => CommandActionView::Execute,
            CommandAction::Finish(r) => CommandActionView::Finish(command_outcome(r)),
        }
    }
}

impl ExtensionCommandView {
    /// This command once it is over.
    pub open spec fn finished(self, r: CommandOutcomeView) -> (Self, CommandActionView) {
        (
            ExtensionCommandView { phase: CommandPhase::Done, result: self.result },
            CommandActionView::Finish(r),
        )
    }

    /// What an input does. What was asked for before the command has to go well; what the command
    /// itself asks for is carried out whether or not the command fails, and a failure of the command
    /// counts before a failure of that. An input that the phase does not wait for ends the command.
    pub open spec fn step(self, input: CommandInput) -> (Self, CommandActionView) {
        match (self.phase, input) {
            (CommandPhase::Before, CommandInput::Replayed(Ok(_))) => (
                ExtensionCommandView { phase: CommandPhase::Command, ..self },
                CommandActionView::Execute,
            ),
            (CommandPhase::Before, CommandInput::Replayed(Err(e))) => self.finished(
                CommandOutcomeView::Failure(e@),
            ),
            (CommandPhase::Command, CommandInput::Answered(r)) => (
                ExtensionCommandView {
                    phase: CommandPhase::After,
                    result: Some(command_outcome(r)),
                },
                CommandActionView::ReplayIdle,
            ),
            (CommandPhase::After, CommandInput::Replayed(replay)) => self.finished(
                match (self.result, replay) {
                    (Some(CommandOutcomeView::Failure(e)), _) => CommandOutcomeView::Failure(e),
                    (Some(CommandOutcomeView::Value(_)), Err(e)) => CommandOutcomeView::Failure(e@),
                    (Some(CommandOutcomeView::Value(v)), Ok(_)) => CommandOutcomeView::Value(v),
                    (None, _) => CommandOutcomeView::Failure(
                        ErrorView::Extension("Command out of step"@),
                    ),
                },
            ),
            _ => self.finished(
                CommandOutcomeView::Failure(ErrorView::Extension("Command out of step"@)),
            ),
        }
    }
}

impl ExtensionCommand {
    /// Starts a command; `enabled` says whether there are extensions.
    pub fn start(enabled: bool) -> (r: (Self, CommandAction))
        ensures
            (r.0@, r.1@) == if enabled {
                (
                    ExtensionCommandView { phase: CommandPhase::Before, result: None },
                    CommandActionView::ReplayIdle,
                )
            } else {
                (
                    ExtensionCommandView { phase: CommandPhase::Done, result: None },
                    CommandActionView::Finish(
                        CommandOutcomeView::Failure(
                            ErrorView::Extension("Extensions are disabled"@),
                        ),
                    ),
                )
            },
    {
        if enabled {
            (
                ExtensionCommand { phase: CommandPhase::Before, result: None },
                CommandAction::ReplayIdle,
            )
        } else {
            (
                ExtensionCommand { phase: CommandPhase::Done, result: None },
                CommandAction::Finish(Err(Error::Extension(owned("Extensions are disabled")))),
            )
        }
    }

    /// Takes one step of the command.
    pub fn step(&mut self, input: CommandInput) -> (action: CommandAction)
        ensures
            (final(self)@, action@) == old(self)@.step(input),
    {
        match (self.phase, input) {
            (CommandPhase::Before, CommandInput::Replayed(replay)) => match replay {
                Ok(_) => {
                    self.phase = CommandPhase::Command;
                    CommandAction::Execute
                },
                Err(e) => {
                    self.phase = CommandPhase::Done;
                    CommandAction::Finish(Err(e))
                },
            },
            (CommandPhase::Command, CommandInput::Answered(r)) => {
                self.phase = CommandPhase::After;
                self.result = Some(r);
                CommandAction::ReplayIdle
            },
            (CommandPhase::After, CommandInput::Replayed(replay)) => {
                self.phase = CommandPhase::Done;
                let r = match &self.result {
                    Some(Ok(v)) => match replay {
                        Ok(_) => Ok(v.clone()),
                        Err(e) => Err(e),
                    },
                    Some(Err(e)) => Err(e.clone()),
                    None => Err(Error::Extension(owned("Command out of step"))),
                };
                CommandAction::Finish(r)
            },
            _ => {
                self.phase = CommandPhase::Done;
                CommandAction::Finish(Err(Error::Extension(owned("Command out of step"))))
            },
        }
    }
}

impl AgentSession {
    /// Takes what extensions asked for while the session was idle and starts with the first of it.
    pub fn run_pending_idle_actions(&mut self, host: &mut HostState) -> (r: (IdleRuns, IdleAction))
        ensures
            r.0.wf(),
            (idle_world(r.0, final(self).input_source), r.1@) == (IdleWorld {
                runs: IdleRunsView {
                    left: old(host)@.idle,
                    previous: old(self).input_source,
                },
                source: old(self).input_source,
            }).advanced(),
            final(host)@ == (HostStateView { idle: Seq::empty(), ..old(host)@ }),
            *final(self) == (AgentSession {
                input_source: final(self).input_source,
                ..*old(self)
            }),
    {
        IdleRuns::start(&mut self.input_source, host)
    }

    /// Starts a command of an extension.
    pub fn execute_extension_command(&self) -> (r: (ExtensionCommand, CommandAction))
        ensures
            (r.0@, r.1@) == if self.link.enabled {
                (
                    ExtensionCommandView { phase: CommandPhase::Before, result: None },
                    CommandActionView::ReplayIdle,
                )
            } else {
                (
                    ExtensionCommandView { phase: CommandPhase::Done, result: None },
                    CommandActionView::Finish(
                        CommandOutcomeView::Failure(
                            ErrorView::Extension("Extensions are disabled"@),
                        ),
                    ),
                )
            },
    {
        ExtensionCommand::start(self.link.enabled)
    }
}

/// A command that was handed to its extension gives what the extension answered if that is a failure or
/// if the runs behind it went well; only otherwise their failure.
pub proof fn failure_of_the_command_comes_first(
    c: ExtensionCommandView,
    answer: Result<Json, Error>,
    replay: Result<(), Error>,
)
    requires
        c.phase is Command,
    ensures
        ({
            let (after, action) = c.step(CommandInput::Answered(answer));
            &&& action == CommandActionView::ReplayIdle
            &&& after.step(CommandInput::Replayed(replay)).1 == CommandActionView::Finish(
                if answer is Err || replay is Ok {
                    command_outcome(answer)
                } else {
                    CommandOutcomeView::Failure(replay->Err_0@)
                },
            )
        }),
{
}

} // verus!
