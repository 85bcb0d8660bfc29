//! How extensions are enabled, and what is told of their repairs.
use vstd::prelude::*;

use crate::agent::AgentView;
use crate::error::{Error, ErrorView};
use crate::event::{AgentEventView, LifecycleEvent};
use crate::extensions::{
    comes_before, detail_lines, memory_limit, repair_mode, repair_policy, repairs_of, summary_line,
    wants_details, EnableActionView, EnableInput, EnablePhase, EnableWorld, EnablingView,
    ExtensionLink, PatternCount, RepairEvent, RepairMode, RepairPolicyMode, RuntimeKind,
};
use crate::text::decimal;

verus! {

/// Entries are looked at one by one, in order, and each is put with those of its kind; one that cannot be
/// looked at ends the enabling.
pub proof fn entries_are_sorted_by_kind(w: EnableWorld, kind: RuntimeKind, e: Error)
    requires
        w.run.wf(),
        w.run.phase == EnablePhase::Resolve,
    ensures
        ({
            let (next, action) = w.step(EnableInput::Resolved(Ok(kind)));
            &&& next.run.resolved == w.run.resolved + 1
            &&& next.run.entries == w.run.entries
            &&& next.run.prewarmed == w.run.prewarmed
            &&& kind == RuntimeKind::Js ==> {
                &&& next.run.js == w.run.js.push(w.run.resolved)
                &&& next.run.native == w.run.native
            }
            &&& kind == RuntimeKind::NativeRust ==> {
                &&& next.run.native == w.run.native.push(w.run.resolved)
                &&& next.run.js == w.run.js
            }
            &&& w.run.resolved + 1 < w.run.entries ==> {
                &&& action == EnableActionView::Resolve((w.run.resolved + 1) as usize)
                &&& next.run.phase == EnablePhase::Resolve
            }
            &&& next.agent == w.agent
            &&& next.host == w.host
        }),
        ({
            let (next, action) = w.step(EnableInput::Resolved(Err(e)));
            &&& action == EnableActionView::Failed(e@)
            &&& next.run.phase == EnablePhase::Done
            &&& next.agent == w.agent
            &&& next.link == w.link
        }),
{
}

/// Once all entries are known, the runtime of their kind is set up: the one that was started ahead of time
/// if it is of that kind, and otherwise a new one, in its place if there was one. Entries of both kinds
/// cannot be enabled together, and without any there is nothing to enable.
pub proof fn one_runtime_serves_all_entries(w: EnableWorld)
    requires
        w.run.resolved == w.run.entries,
    ensures
        ({
            let (next, action) = w.resolving();
            let wanted = if w.run.js.len() > 0 {
                RuntimeKind::Js
            } else {
                RuntimeKind::NativeRust
            };
            let both = w.run.js.len() > 0 && w.run.native.len() > 0;
            let neither = w.run.js.len() == 0 && w.run.native.len() == 0;
            &&& both ==> {
                &&& action == EnableActionView::Failed(
                    ErrorView::Validation(
                        "Mixed extension runtimes are not supported in one session yet. Use either JS/TS extensions (QuickJS) or native-rust descriptors (*.native.json), but not both at once."@,
                    ),
                )
                &&& next.run.phase == EnablePhase::Done
                &&& next.link == w.link
            }
            &&& neither ==> {
                &&& action == EnableActionView::Finished
                &&& next.run.phase == EnablePhase::Done
                &&& !next.link.enabled
                &&& next.link.modes is None
            }
            &&& !both && !neither ==> {
                &&& next.run.phase == EnablePhase::Runtime
                &&& next.link == w.link
                &&& action == match w.run.prewarmed {
                    Some(p) => if p.runtime == wanted {
                        EnableActionView::AdoptRuntime(wanted)
                    } else {
                        EnableActionView::StartRuntime(wanted, true)
                    },
                    None => EnableActionView::StartRuntime(wanted, false),
                }
            }
            &&& next.agent == w.agent
            &&& next.host == w.host
        }),
{
}

/// With a runtime the extensions are connected, with the modes of the agent's queues, and their entries
/// are loaded, all of them and in order.
pub proof fn runtime_loads_all_entries(w: EnableWorld, started: Result<(), Error>)
    requires
        w.run.phase == EnablePhase::Runtime,
    ensures
        ({
            let (next, action) = w.step(EnableInput::Runtime(started));
            &&& started matches Err(e) ==> {
                &&& action == EnableActionView::Failed(e@)
                &&& next.run.phase == EnablePhase::Done
                &&& next.host == w.host
                &&& next.link == w.link
            }
            &&& started is Ok ==> {
                &&& w.run.js.len() > 0 ==> action == EnableActionView::LoadJs(w.run.js)
                    && next.run.phase == EnablePhase::LoadJs
                &&& w.run.js.len() == 0 ==> action == EnableActionView::LoadNative(w.run.native)
                    && next.run.phase == EnablePhase::LoadNative
                &&& next.link.modes is Some
                &&& next.link.modes->Some_0.steering_mode == w.agent.queue.steering_mode
                &&& next.link.modes->Some_0.follow_up_mode == w.agent.queue.follow_up_mode
                &&& next.link.enabled == w.link.enabled
                &&& next.host.earlier == w.host.earlier.push(w.host.injected)
                &&& next.host.injected.steering_mode == w.agent.queue.steering_mode
                &&& next.host.injected.follow_up_mode == w.agent.queue.follow_up_mode
            }
            &&& next.agent == w.agent
        }),
{
}

/// After loading, repairs are collected, the path of the session is read, and extensions are told of the
/// start and of the session, in this order. A failure to load or to read ends the enabling.
pub proof fn enabling_goes_step_by_step(w: EnableWorld, done: Result<(), Error>)
    ensures
        w.run.phase == EnablePhase::LoadJs || w.run.phase == EnablePhase::LoadNative ==> {
            let (next, action) = w.step(EnableInput::Loaded(done));
            &&& done is Ok ==> {
                &&& action == EnableActionView::DrainRepairs
                &&& next == (EnableWorld {
                    run: EnablingView { phase: EnablePhase::Repairs, ..w.run },
                    ..w
                })
            }
            &&& done matches Err(e) ==> {
                &&& action == EnableActionView::Failed(e@)
                &&& next.run.phase == EnablePhase::Done
            }
        },
        w.run.phase == EnablePhase::Repairs ==> {
            let (next, action) = w.step(EnableInput::Repairs);
            &&& action == EnableActionView::ReadSessionPath
            &&& next == (EnableWorld {
                run: EnablingView { phase: EnablePhase::SessionPath, ..w.run },
                ..w
            })
        },
        w.run.phase == EnablePhase::SessionPath ==> {
            let (next, action) = w.step(EnableInput::SessionPath(done));
            &&& done is Ok ==> {
                &&& action == EnableActionView::DispatchStartup
                &&& next == (EnableWorld {
                    run: EnablingView { phase: EnablePhase::Startup, ..w.run },
                    ..w
                })
            }
            &&& done matches Err(e) ==> {
                &&& action == EnableActionView::Failed(e@)
                &&& next.run.phase == EnablePhase::Done
            }
        },
        w.run.phase == EnablePhase::Startup ==> {
            let (next, action) = w.step(EnableInput::Told);
            &&& action == EnableActionView::DispatchSessionStart
            &&& next == (EnableWorld {
                run: EnablingView { phase: EnablePhase::SessionStart, ..w.run },
                ..w
            })
        },
        w.run.phase == EnablePhase::SessionStart ==> {
            let (next, action) = w.step(EnableInput::Told);
            &&& action == EnableActionView::CollectTools
            &&& next == (EnableWorld {
                run: EnablingView { phase: EnablePhase::Tools, ..w.run },
                ..w
            })
        },
{
}

/// The tools of extensions join those of the agent, behind them, in order and as they are; only then
/// extensions count as enabled.
pub proof fn extension_tools_join_the_agent(
    w: EnableWorld,
    tools: Vec<crate::agent::ToolInfo>,
    e: Error,
)
    requires
        w.run.phase == EnablePhase::Tools,
    ensures
        ({
            let (next, action) = w.step(EnableInput::Tools(Ok(tools)));
            &&& action == EnableActionView::Finished
            &&& next.run.phase == EnablePhase::Done
            &&& next.link == (ExtensionLink { enabled: true, ..w.link })
            &&& next.host == w.host
            &&& next.agent.tools.len() == w.agent.tools.len() + tools@.len()
            &&& forall|i: int|
                0 <= i < w.agent.tools.len() ==> #[trigger] next.agent.tools[i] == w.agent.tools[i]
            &&& forall|i: int|
                0 <= i < tools@.len() ==> next.agent.tools[w.agent.tools.len() + i] == (
                #[trigger] tools@[i])@
            &&& next.agent == (AgentView { tools: next.agent.tools, ..w.agent })
        }),
        ({
            let (next, action) = w.step(EnableInput::Tools(Err(e)));
            &&& action == EnableActionView::Failed(e@)
            &&& next.run.phase == EnablePhase::Done
            &&& next.agent == w.agent
            &&& next.link == w.link
        }),
{
}

/// A policy that was given comes before a configured one, and without either extensions are repaired
/// where that is safe. Each policy means the mode of its name.
pub proof fn repair_policy_is_settled(
    given: Option<RepairPolicyMode>,
    configured: Option<RepairPolicyMode>,
)
    ensures
        given matches Some(mode) ==> repair_policy(given, configured) == mode,
        given is None ==> (configured matches Some(mode) ==> repair_policy(given, configured)
            == mode),
        given is None && configured is None ==> repair_policy(given, configured)
            == RepairPolicyMode::AutoSafe,
        repair_mode(RepairPolicyMode::Off) == RepairMode::Off,
        repair_mode(RepairPolicyMode::Suggest) == RepairMode::Suggest,
        repair_mode(RepairPolicyMode::AutoSafe) == RepairMode::AutoSafe,
        repair_mode(RepairPolicyMode::AutoStrict) == RepairMode::AutoStrict,
{
}

/// A limit on memory is given in mebibytes; none means none.
pub proof fn memory_is_limited_in_mebibytes(max_memory_mb: u32)
    ensures
        max_memory_mb == 0 ==> memory_limit(max_memory_mb) is None,
        max_memory_mb > 0 ==> memory_limit(max_memory_mb) is Some,
        max_memory_mb > 0 && max_memory_mb * 1024 * 1024 <= usize::MAX ==> memory_limit(
            max_memory_mb,
        ) == Some((max_memory_mb * 1024 * 1024) as usize),
        max_memory_mb * 1024 * 1024 > usize::MAX ==> memory_limit(max_memory_mb) == Some(
            usize::MAX,
        ),
{
}

/// Repairs are counted pattern by pattern.
pub proof fn repairs_are_counted(events: Seq<RepairEvent>, e: RepairEvent, pattern: Seq<char>)
    ensures
        repairs_of(Seq::empty(), pattern) == 0,
        e.pattern@ == pattern ==> repairs_of(events.push(e), pattern) == repairs_of(events, pattern)
            + 1,
        e.pattern@ != pattern ==> repairs_of(events.push(e), pattern) == repairs_of(
            events,
            pattern,
        ),
{
    assert(events.push(e).drop_last() =~= events);
}

/// Texts are in order by the first character in which they differ; a text comes before each longer one
/// that begins with it.
pub proof fn texts_are_in_order(a: Seq<char>, b: Seq<char>, x: char, y: char)
    ensures
        comes_before(seq![x] + a, seq![x] + b) == comes_before(a, b),
        x != y ==> comes_before(seq![x] + a, seq![y] + b) == ((x as u32) < (y as u32)),
        comes_before(Seq::empty(), seq![x] + a),
        !comes_before(a, Seq::empty()),
{
    assert((seq![x] + a).drop_first() =~= a);
    assert((seq![x] + b).drop_first() =~= b);
}

/// A summary names each pattern with its count.
pub proof fn summary_names_each_pattern(counts: Seq<PatternCount>, c: PatternCount)
    ensures
        summary_line(Seq::empty()).len() == 0,
        counts.len() == 0 ==> summary_line(counts.push(c)) == c.pattern@ + ":"@ + decimal(
            c.count as nat,
        ),
        counts.len() > 0 ==> summary_line(counts.push(c)) == summary_line(counts) + ", "@ + (
        c.pattern@ + ":"@ + decimal(c.count as nat)),
{
    assert(counts.push(c).drop_last() =~= counts);
}

/// Details tell how many repairs there were and then of each, in order, what was repaired and how.
pub proof fn details_tell_of_each_repair(events: Seq<RepairEvent>, i: int)
    ensures
        ({
            let lines = detail_lines(events);
            &&& lines.len() == events.len() + 1
            &&& events.len() == 1 ==> lines[0] == "[auto-repair] "@ + decimal(1) + " extension"@
                + ""@ + " auto-repaired:"@
            &&& events.len() != 1 ==> lines[0] == "[auto-repair] "@ + decimal(events.len())
                + " extension"@ + "s"@ + " auto-repaired:"@
            &&& 0 <= i < events.len() ==> lines[i + 1] == "  "@ + events[i].pattern@ + ": "@
                + events[i].extension_id@ + " ("@ + events[i].repair_action@ + ")"@
        }),
{
}

/// Details are asked for with a one, or with the word for it in any case.
pub proof fn details_are_asked_for(value: Seq<char>)
    ensures
        value == "1"@ ==> wants_details(value),
        value == "true"@ ==> wants_details(value),
        wants_details(value) && value != "1"@ ==> value.len() == 4,
{
    reveal_strlit("true");
    let t = "true"@;
    assert(t.len() == 4);
    assert(crate::pi_ai::ascii_lower(t) =~= t);
    assert(crate::pi_ai::ascii_lower(value).len() == value.len());
}

/// Extensions are told of the starts and ends of runs and turns, and of no other event.
pub proof fn extensions_learn_of_runs_and_turns(e: AgentEventView)
    ensures
        e is AgentStart ==> e.lifecycle() == Some(LifecycleEvent::AgentStart),
        e is AgentEnd ==> e.lifecycle() == Some(LifecycleEvent::AgentEnd),
        e is TurnStart ==> e.lifecycle() == Some(LifecycleEvent::TurnStart),
        e is TurnEnd ==> e.lifecycle() == Some(LifecycleEvent::TurnEnd),
        !(e is AgentStart) && !(e is AgentEnd) && !(e is TurnStart) && !(e is TurnEnd)
            ==> e.lifecycle() is None,
{
}

/// Whether an input is one that a phase of enabling waits for.
pub open spec fn expects(phase: EnablePhase, input: EnableInput) -> bool {
    match phase {
        EnablePhase::Resolve => input is Resolved,
        EnablePhase::Runtime => input is Runtime,
        EnablePhase::LoadJs | EnablePhase::LoadNative => input is Loaded,
        EnablePhase::Repairs => input is Repairs,
        EnablePhase::SessionPath => input is SessionPath,
        EnablePhase::Startup | EnablePhase::SessionStart => input is Told,
        EnablePhase::Tools => input is Tools,
        EnablePhase::Done => false,
    }
}

/// An input that enabling does not wait for breaks it off, and changes nothing else.
pub proof fn stray_inputs_break_enabling_off(w: EnableWorld, input: EnableInput)
    requires
        !expects(w.run.phase, input),
    ensures
        w.step(input).1 == EnableActionView::Failed(ErrorView::Extension("Enabling out of step"@)),
        w.step(input).0 == (EnableWorld {
            run: EnablingView { phase: EnablePhase::Done, ..w.run },
            ..w
        }),
{
}

} // verus!
