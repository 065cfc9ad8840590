//! What an installation leaves behind, whatever the system answers.
//!
//! Every law here is stated of a faithful run: one in which the caller has
//! performed each call that the installer asked for, and has handed back
//! what the system answered.

use vstd::prelude::*;
use crate::error::Error;
use crate::install::{
    creation_flags, install_plan, lemma_install_plan, setup_ops, Action, InstallState, Phase,
    Platform, Reply,
};
use crate::pipe::{
    effect_of, law_pipe_plan_yields_flags, lemma_pipe_plan_shape, pipe_plan, PipeFlags, PipeOp,
    PipeState,
};
use crate::process::{faithful, performs, process_after, state_after, Event, Process};
use crate::signal::{targets, Disposition, Signal};

verus! {

/// Whether no call of the run failed.
pub open spec fn unfailing(events: Seq<Event>) -> bool {
    forall|i: int| 0 <= i < events.len() ==> !((#[trigger] events[i]).reply is Failed)
}

/// Whether no call of the plan failed: a call that failed, if any, was made
/// while the installation was undoing its work.
pub open spec fn undisturbed(start: InstallState, events: Seq<Event>) -> bool {
    forall|i: int|
        0 <= i < events.len() && (#[trigger] events[i]).reply is Failed ==> !(state_after(
            start,
            events.take(i),
        ).phase is Advancing)
}

/// Whether every target signal was at its default disposition in `origin`.
pub open spec fn unclaimed(origin: Process, termination: bool) -> bool {
    forall|i: int|
        0 <= i < targets(termination).len() ==> origin.disposition(
            #[trigger] targets(termination)[i],
        ) == Disposition::Default
}

/// The pipe of a successful installation: both ends close-on-exec, the
/// write end non-blocking, the read end blocking.
pub open spec fn armed_pipe() -> PipeState {
    PipeState {
        read: PipeFlags { cloexec: true, nonblock: false },
        write: PipeFlags { cloexec: true, nonblock: true },
    }
}

/// The place of a signal in the order in which signals are armed.
pub open spec fn rank(signal: Signal) -> nat {
    match signal {
        Signal::Interrupt => 0,
        Signal::Terminate => 1,
        Signal::Hangup => 2,
    }
}

/// Whether the exchange at place `i` of the run turned the installation
/// back with `error`: the installation was advancing, and either the call
/// failed with `error`, or it armed a signal that someone else handles while
/// nothing may be overwritten, and `error` is "already exists".
pub open spec fn turned_back(
    start: InstallState,
    events: Seq<Event>,
    i: int,
    error: Error,
) -> bool {
    &&& 0 <= i < events.len()
    &&& state_after(start, events.take(i)).phase is Advancing
    &&& match events[i].reply {
        Reply::Failed(failure) => error == failure,
        Reply::Previous(previous) => start.conflicts(previous) && error == Error::exist_spec(),
        Reply::Done => false,
    }
}

/// Whether one exchange of the run turned the installation back with
/// `error`, and did so for a reason: where the exchange was no failure, some
/// target signal was not at its default disposition.
pub open spec fn has_cause(
    start: InstallState,
    origin: Process,
    events: Seq<Event>,
    error: Error,
) -> bool {
    exists|i: int|
        {
            &&& #[trigger] turned_back(start, events, i, error)
            &&& events[i].reply is Previous ==> !unclaimed(origin, start.platform.termination)
        }
}

/// Every answer that the installer accepts brings the end nearer: the
/// budget of the state shrinks, and the state stays one that an
/// installation can be in.
pub proof fn law_step_consumes_budget(s: InstallState, reply: Reply)
    requires
        s.wf(),
        s.accepts(reply),
    ensures
        s.step(reply).wf(),
        s.step(reply).budget() < s.budget(),
{
    lemma_install_plan(s.platform);
    let next = s.step(reply);
    let signals = targets(s.platform.termination);
    let ops = setup_ops(s.platform);
    match s.phase {
        Phase::Advancing => {
            if s.cursor < ops.len() {
                assert(s.pending() == Action::Pipe(ops[s.cursor as int]));
                lemma_pipe_plan_shape(creation_flags(), s.platform.atomic_pipe);
                if s.cursor == 0 && reply is Done {
                    assert(next.undo =~= seq![Action::ClosePipe]);
                }
            } else {
                let k = s.cursor - ops.len();
                assert(s.pending() == Action::Install {
                    signal: signals[k],
                    restart: s.platform.restart,
                });
                if let Reply::Previous(previous) = reply {
                    let entry = Action::Restore { signal: signals[k], previous };
                    let changed_state = s.acquired(entry);
                    assert(changed_state.undo[1 + k] == entry);
                    assert(forall|i: int|
                        0 <= i < s.undo.len() ==> changed_state.undo[i] == s.undo[i]);
                    assert(changed_state.undoes((k + 1) as nat));
                }
            }
        },
        Phase::Unwinding(_) => {
            let rest = s.undo.drop_last();
            assert(forall|i: int| 0 <= i < rest.len() ==> rest[i] == s.undo[i]);
            if s.undo.len() >= 2 {
                let k = s.undo.len() - 2;
                assert(forall|i: int| 0 <= i < k ==> #[trigger] rest[1 + i] == s.undo[1 + i]);
            }
        },
        Phase::Finished(_) => {},
    }
}

/// An installation ends: a faithful run is no longer than the budget of its
/// first state, which is one more than twice the length of the plan.
pub proof fn law_run_is_bounded(
    overwrite: bool,
    platform: Platform,
    origin: Process,
    notifier: Disposition,
    events: Seq<Event>,
)
    requires
        faithful(InstallState::start(overwrite, platform), origin, notifier, events),
    ensures
        events.len() + state_after(InstallState::start(overwrite, platform), events).budget()
            <= 2 * install_plan(platform).len() + 1,
        install_plan(platform).len() <= 7,
    decreases events.len(),
{
    let start = InstallState::start(overwrite, platform);
    lemma_install_plan(platform);
    if events.len() > 0 {
        let earlier = events.drop_last();
        law_run_is_bounded(overwrite, platform, origin, notifier, earlier);
        lemma_run_tracks(overwrite, platform, origin, notifier, earlier);
        lemma_step_tracks(
            state_after(start, earlier),
            process_after(origin, earlier),
            origin,
            notifier,
            events.last().reply,
            events.last().after,
        );
        law_step_consumes_budget(state_after(start, earlier), events.last().reply);
    }
}

/// When the creation of the pipe fails, the installation ends at once with
/// that error and the process is as it was.
pub proof fn law_pipe_failure_changes_nothing(
    overwrite: bool,
    platform: Platform,
    origin: Process,
    notifier: Disposition,
    error: Error,
    after: Process,
)
    requires
        performs(
            origin,
            InstallState::start(overwrite, platform).pending(),
            notifier,
            Reply::Failed(error),
            after,
        ),
    ensures
        InstallState::start(overwrite, platform).pending() matches Action::Pipe(op) && op.creates(),
        InstallState::start(overwrite, platform).step(Reply::Failed(error)).outcome() == Some(
            Err::<(), Error>(error),
        ),
        after == origin,
{
    lemma_install_plan(platform);
}

/// An installation that ends with an error leaves nothing behind: every
/// signal has the disposition that it had before, and no pipe is open that
/// was not open before. The process either is as it was, or has let go of
/// the pipe that it held.
pub proof fn law_failed_install_is_undone(
    overwrite: bool,
    platform: Platform,
    origin: Process,
    notifier: Disposition,
    events: Seq<Event>,
)
    requires
        faithful(InstallState::start(overwrite, platform), origin, notifier, events),
        state_after(InstallState::start(overwrite, platform), events).outcome() matches Some(
            Err(_),
        ),
    ensures
        process_after(origin, events).same_dispositions(origin),
        process_after(origin, events).open_pipes() == origin.open_pipes(),
        process_after(origin, events) == origin || process_after(origin, events).pipe is None,
{
    lemma_run_tracks(overwrite, platform, origin, notifier, events);
}

/// An installation that succeeds leaves the handler as the disposition of
/// every target signal and of no other, and leaves the process with one more
/// open pipe, which it holds: close-on-exec on both ends, non-blocking on
/// the write end only.
pub proof fn law_successful_install_arms_targets(
    overwrite: bool,
    platform: Platform,
    origin: Process,
    notifier: Disposition,
    events: Seq<Event>,
)
    requires
        faithful(InstallState::start(overwrite, platform), origin, notifier, events),
        state_after(InstallState::start(overwrite, platform), events).outcome() == Some(
            Ok::<(), Error>(()),
        ),
    ensures
        forall|signal: Signal|
            #![trigger process_after(origin, events).disposition(signal)]
            process_after(origin, events).disposition(signal) == if targets(
                platform.termination,
            ).contains(signal) {
                notifier
            } else {
                origin.disposition(signal)
            },
        process_after(origin, events).pipe == Some(armed_pipe()),
        process_after(origin, events).open_pipes() == origin.open_pipes() + 1,
{
    lemma_run_tracks(overwrite, platform, origin, notifier, events);
    lemma_run_keeps_settings(InstallState::start(overwrite, platform), events);
    let s = state_after(InstallState::start(overwrite, platform), events);
    let now = process_after(origin, events);
    let signals = targets(platform.termination);
    assert forall|signal: Signal|
        now.disposition(signal) == if signals.contains(signal) {
            notifier
        } else {
            origin.disposition(signal)
        } by {
        if rank(signal) < signals.len() {
            assert(signals[rank(signal) as int] == signal);
        }
        assert(now.disposition(signal) == expected(s, origin, notifier, signal));
    }
}

/// While the pipe is being closed no signal is left with the handler: by
/// the time the installer asks for the closing, every signal has the
/// disposition that it had before the installation.
pub proof fn law_pipe_is_closed_last(
    overwrite: bool,
    platform: Platform,
    origin: Process,
    notifier: Disposition,
    events: Seq<Event>,
)
    requires
        faithful(InstallState::start(overwrite, platform), origin, notifier, events),
        state_after(InstallState::start(overwrite, platform), events).pending()
            == Action::ClosePipe,
    ensures
        process_after(origin, events).same_dispositions(origin),
{
    lemma_run_tracks(overwrite, platform, origin, notifier, events);
    lemma_install_plan(platform);
    let s = state_after(InstallState::start(overwrite, platform), events);
    if s.phase is Unwinding && s.undo.len() >= 2 {
        let k = s.undo.len() - 2;
        assert(s.undo[1 + k] is Restore);
    }
}

/// Signals are restored latest first: the signal that the installer asks to
/// restore is the one that was armed last among those that still call the
/// handler, and it is given back the disposition that it had before the
/// installation.
pub proof fn law_restores_latest_first(
    overwrite: bool,
    platform: Platform,
    origin: Process,
    notifier: Disposition,
    events: Seq<Event>,
)
    requires
        faithful(InstallState::start(overwrite, platform), origin, notifier, events),
        state_after(InstallState::start(overwrite, platform), events).pending() is Restore,
    ensures
        ({
            let s = state_after(InstallState::start(overwrite, platform), events);
            let now = process_after(origin, events);
            let signal = s.pending()->Restore_signal;
            &&& s.pending()->Restore_previous == origin.disposition(signal)
            &&& forall|other: Signal|
                #![trigger now.disposition(other)]
                now.disposition(other) == if rank(other) <= rank(signal) {
                    notifier
                } else {
                    origin.disposition(other)
                }
        }),
{
    lemma_run_tracks(overwrite, platform, origin, notifier, events);
    lemma_install_plan(platform);
    let s = state_after(InstallState::start(overwrite, platform), events);
    let signals = targets(platform.termination);
    assert(s.platform == platform) by {
        lemma_run_keeps_settings(InstallState::start(overwrite, platform), events);
    }
    assert(s.phase is Unwinding);
    let k = s.undo.len() - 2;
    assert(s.undo[1 + k] is Restore);
    assert(rank(signals[k]) == k);
}

/// An installation on which no call of the plan fails succeeds if it may
/// overwrite, or if every target signal was at its default disposition.
pub proof fn law_unhindered_install_succeeds(
    overwrite: bool,
    platform: Platform,
    origin: Process,
    notifier: Disposition,
    events: Seq<Event>,
)
    requires
        faithful(InstallState::start(overwrite, platform), origin, notifier, events),
        undisturbed(InstallState::start(overwrite, platform), events),
        overwrite || unclaimed(origin, platform.termination),
        state_after(InstallState::start(overwrite, platform), events).outcome() is Some,
    ensures
        state_after(InstallState::start(overwrite, platform), events).outcome() == Some(
            Ok::<(), Error>(()),
        ),
{
    let start = InstallState::start(overwrite, platform);
    lemma_run_explained(overwrite, platform, origin, notifier, events);
    lemma_run_keeps_settings(start, events);
    if let Phase::Finished(Err(error)) = state_after(start, events).phase {
        assert(has_cause(start, origin, events, error));
        let i = choose|i: int|
            {
                &&& #[trigger] turned_back(start, events, i, error)
                &&& events[i].reply is Previous ==> !unclaimed(origin, platform.termination)
            };
        assert(!(events[i].reply is Failed));
    }
}

/// An installation succeeds only if no call has failed, and only if it may
/// overwrite or found every target signal at its default disposition: it
/// never takes a signal from someone else without leave.
pub proof fn law_success_is_earned(
    overwrite: bool,
    platform: Platform,
    origin: Process,
    notifier: Disposition,
    events: Seq<Event>,
)
    requires
        faithful(InstallState::start(overwrite, platform), origin, notifier, events),
        state_after(InstallState::start(overwrite, platform), events).outcome() == Some(
            Ok::<(), Error>(()),
        ),
    ensures
        unfailing(events),
        overwrite || unclaimed(origin, platform.termination),
{
    lemma_run_explained(overwrite, platform, origin, notifier, events);
    lemma_run_keeps_settings(InstallState::start(overwrite, platform), events);
}

/// The error of an installation is the error of the exchange that turned it
/// back: the error of the first call that failed, or "already exists" where
/// the installation ran into a signal that was not at its default
/// disposition. What is answered while it undoes its work changes nothing
/// in that.
pub proof fn law_error_has_a_cause(
    overwrite: bool,
    platform: Platform,
    origin: Process,
    notifier: Disposition,
    events: Seq<Event>,
    error: Error,
)
    requires
        faithful(InstallState::start(overwrite, platform), origin, notifier, events),
        state_after(InstallState::start(overwrite, platform), events).outcome() == Some(
            Err::<(), Error>(error),
        ),
    ensures
        has_cause(InstallState::start(overwrite, platform), origin, events, error),
{
    lemma_run_explained(overwrite, platform, origin, notifier, events);
    lemma_run_keeps_settings(InstallState::start(overwrite, platform), events);
}

/// An installation that may not overwrite, and on which no call of the plan
/// fails, ends with the "already exists" error if some target signal was not
/// at its default disposition, and leaves every disposition as it was.
pub proof fn law_conflict_is_reported(
    platform: Platform,
    origin: Process,
    notifier: Disposition,
    events: Seq<Event>,
)
    requires
        faithful(InstallState::start(false, platform), origin, notifier, events),
        undisturbed(InstallState::start(false, platform), events),
        !unclaimed(origin, platform.termination),
        state_after(InstallState::start(false, platform), events).outcome() is Some,
    ensures
        state_after(InstallState::start(false, platform), events).outcome() == Some(
            Err::<(), Error>(Error::exist_spec()),
        ),
        process_after(origin, events).same_dispositions(origin),
{
    let start = InstallState::start(false, platform);
    lemma_run_explained(false, platform, origin, notifier, events);
    lemma_run_keeps_settings(start, events);
    let s = state_after(start, events);
    if let Phase::Finished(Err(error)) = s.phase {
        assert(has_cause(start, origin, events, error));
        let i = choose|i: int| #[trigger] turned_back(start, events, i, error);
        assert(!(events[i].reply is Failed));
    }
    law_failed_install_is_undone(false, platform, origin, notifier, events);
}

/// A second installation that may not overwrite, made after one that
/// succeeded and with no call of its plan failing, ends with the "already
/// exists" error, and the handler of the first stays the disposition of
/// every target signal.
pub proof fn law_second_install_conflicts(
    overwrite: bool,
    platform: Platform,
    origin: Process,
    notifier: Disposition,
    first: Seq<Event>,
    second: Seq<Event>,
)
    requires
        notifier != Disposition::Default,
        faithful(InstallState::start(overwrite, platform), origin, notifier, first),
        state_after(InstallState::start(overwrite, platform), first).outcome() == Some(
            Ok::<(), Error>(()),
        ),
        faithful(
            InstallState::start(false, platform),
            process_after(origin, first),
            notifier,
            second,
        ),
        undisturbed(InstallState::start(false, platform), second),
        state_after(InstallState::start(false, platform), second).outcome() is Some,
    ensures
        state_after(InstallState::start(false, platform), second).outcome() == Some(
            Err::<(), Error>(Error::exist_spec()),
        ),
        forall|i: int|
            0 <= i < targets(platform.termination).len() ==> process_after(
                process_after(origin, first),
                second,
            ).disposition(#[trigger] targets(platform.termination)[i]) == notifier,
{
    let between = process_after(origin, first);
    let signals = targets(platform.termination);
    law_successful_install_arms_targets(overwrite, platform, origin, notifier, first);
    assert(signals.contains(signals[0]));
    assert(between.disposition(signals[0]) == notifier);
    law_conflict_is_reported(platform, between, notifier, second);
    let last = process_after(between, second);
    assert forall|i: int| 0 <= i < signals.len() implies last.disposition(#[trigger] signals[i])
        == notifier by {
        assert(signals.contains(signals[i]));
        assert(between.disposition(signals[i]) == notifier);
    }
}

/// Whether the first `count` target signals were at their default
/// disposition in `origin`.
spec fn unclaimed_first(origin: Process, termination: bool, count: nat) -> bool {
    forall|i: int|
        0 <= i < count && i < targets(termination).len() ==> origin.disposition(
            #[trigger] targets(termination)[i],
        ) == Disposition::Default
}

/// The number of signals whose disposition the installation has changed
/// and not restored.
spec fn changed(s: InstallState) -> nat {
    match s.phase {
        Phase::Finished(Ok(_)) => targets(s.platform.termination).len(),
        Phase::Finished(Err(_)) => 0,
        _ => if s.undo.len() == 0 {
            0
        } else {
            (s.undo.len() - 1) as nat
        },
    }
}

/// What the process does on `signal` while the installation is in state
/// `s`: it calls the handler if the installation has changed the signal, and
/// does what it did at first if not.
spec fn expected(
    s: InstallState,
    origin: Process,
    notifier: Disposition,
    signal: Signal,
) -> Disposition {
    if rank(signal) < changed(s) {
        notifier
    } else {
        origin.disposition(signal)
    }
}

/// Whether the installation in state `s` accounts for every difference
/// between `now` and `origin`.
spec fn tracks(s: InstallState, now: Process, origin: Process, notifier: Disposition) -> bool {
    &&& s.wf()
    &&& now.interrupt == expected(s, origin, notifier, Signal::Interrupt)
    &&& now.terminate == expected(s, origin, notifier, Signal::Terminate)
    &&& now.hangup == expected(s, origin, notifier, Signal::Hangup)
    &&& forall|i: int|
        1 <= i < s.undo.len() ==> (#[trigger] s.undo[i])->Restore_previous == origin.disposition(
            s.undo[i]->Restore_signal,
        )
    &&& match s.phase {
        Phase::Advancing => if s.cursor == 0 {
            now.pipe == origin.pipe && now.stray_pipes == origin.stray_pipes
        } else {
            let done = if s.cursor <= setup_ops(s.platform).len() {
                s.cursor as int
            } else {
                setup_ops(s.platform).len() as int
            };
            &&& now.pipe is Some
            &&& now.pipe == effect_of(setup_ops(s.platform).take(done), origin.pipe)
            &&& now.stray_pipes == origin.open_pipes()
        },
        Phase::Unwinding(_) => now.pipe is Some && now.stray_pipes == origin.open_pipes(),
        Phase::Finished(Ok(_)) => {
            &&& now.pipe == Some(armed_pipe())
            &&& now.stray_pipes == origin.open_pipes()
        },
        Phase::Finished(Err(_)) => {
            ||| now.pipe == origin.pipe && now.stray_pipes == origin.stray_pipes
            ||| now.pipe is None && now.stray_pipes == origin.open_pipes()
        },
    }
}

/// Whether the state that a run has reached is explained by what the run
/// found. While it advances and when it has succeeded no call has failed,
/// and unless it may overwrite, the signals armed so far were at their
/// default. When it has turned back, one exchange turned it back, and if
/// that was a conflict then some target signal was not at its default.
spec fn explained(start: InstallState, origin: Process, events: Seq<Event>) -> bool {
    let s = state_after(start, events);
    let termination = s.platform.termination;
    match s.phase {
        Phase::Advancing | Phase::Finished(Ok(_)) => {
            &&& unfailing(events)
            &&& !s.overwrite ==> unclaimed_first(origin, termination, changed(s))
        },
        Phase::Unwinding(error) | Phase::Finished(Err(error)) => has_cause(
            start,
            origin,
            events,
            error,
        ),
    }
}

/// A run changes neither the platform nor the overwrite policy of the
/// installation.
proof fn lemma_run_keeps_settings(start: InstallState, events: Seq<Event>)
    ensures
        state_after(start, events).platform == start.platform,
        state_after(start, events).overwrite == start.overwrite,
    decreases events.len(),
{
    if events.len() > 0 {
        lemma_run_keeps_settings(start, events.drop_last());
    }
}

/// One more call adds its effect to that of the calls before it.
proof fn lemma_effect_of_step(ops: Seq<PipeOp>, before: Option<PipeState>, i: int)
    requires
        0 <= i < ops.len(),
    ensures
        effect_of(ops.take(i + 1), before) == ops[i].effect(effect_of(ops.take(i), before)),
{
    assert(ops.take(i + 1).drop_last() =~= ops.take(i));
}

/// Each prefix of calls that begins with a creation leaves a pipe.
proof fn lemma_prefix_effects(ops: Seq<PipeOp>, before: Option<PipeState>, n: int)
    requires
        1 <= n <= ops.len(),
        ops[0].creates(),
    ensures
        forall|i: int| 1 <= i <= n ==> (#[trigger] effect_of(ops.take(i), before)) is Some,
    decreases n,
{
    if n > 1 {
        lemma_prefix_effects(ops, before, n - 1);
    }
    lemma_effect_of_step(ops, before, n - 1);
}

/// The pipe calls of a plan, and what they leave once all have succeeded.
proof fn lemma_setup_ops(platform: Platform, before: Option<PipeState>)
    ensures
        2 <= setup_ops(platform).len() <= 6,
        setup_ops(platform)[0].creates(),
        forall|i: int|
            1 <= i < setup_ops(platform).len() ==> !(#[trigger] setup_ops(platform)[i]).creates(),
        forall|i: int|
            1 <= i <= setup_ops(platform).len() ==> (#[trigger] effect_of(
                setup_ops(platform).take(i),
                before,
            )) is Some,
        effect_of(setup_ops(platform), before) == Some(armed_pipe()),
{
    let plan = pipe_plan(creation_flags(), platform.atomic_pipe);
    let ops = setup_ops(platform);
    lemma_pipe_plan_shape(creation_flags(), platform.atomic_pipe);
    law_pipe_plan_yields_flags(creation_flags(), platform.atomic_pipe, before);
    assert(ops.drop_last() =~= plan);
    assert(ops.take(ops.len() as int) =~= ops);
    lemma_prefix_effects(ops, before, ops.len() as int);
}

/// One faithful exchange keeps the installer's account of the process.
proof fn lemma_step_tracks(
    s: InstallState,
    now: Process,
    origin: Process,
    notifier: Disposition,
    reply: Reply,
    after: Process,
)
    requires
        tracks(s, now, origin, notifier),
        performs(now, s.pending(), notifier, reply, after),
    ensures
        s.accepts(reply),
        tracks(s.step(reply), after, origin, notifier),
{
    lemma_install_plan(s.platform);
    lemma_setup_ops(s.platform, origin.pipe);
    law_step_consumes_budget(s, reply);
    let ops = setup_ops(s.platform);
    let signals = targets(s.platform.termination);
    match s.phase {
        Phase::Advancing => {
            assert(ops.take(ops.len() as int) =~= ops);
            if s.cursor < ops.len() {
                lemma_effect_of_step(ops, origin.pipe, s.cursor as int);
                assert(ops.take(0) =~= Seq::<PipeOp>::empty());
                assert(s.pending() == Action::Pipe(ops[s.cursor as int]));
            } else {
                let k = s.cursor - ops.len();
                assert(s.pending() == Action::Install {
                    signal: signals[k],
                    restart: s.platform.restart,
                });
                assert(rank(signals[k]) == k);
            }
        },
        Phase::Unwinding(_) => {
            if s.undo.len() >= 2 {
                let k = s.undo.len() - 2;
                assert(s.undo[1 + k] is Restore);
                assert(rank(signals[k]) == k);
            }
        },
        Phase::Finished(_) => {},
    }
}

/// A faithful run keeps the installer's account of the process.
proof fn lemma_run_tracks(
    overwrite: bool,
    platform: Platform,
    origin: Process,
    notifier: Disposition,
    events: Seq<Event>,
)
    requires
        faithful(InstallState::start(overwrite, platform), origin, notifier, events),
    ensures
        tracks(
            state_after(InstallState::start(overwrite, platform), events),
            process_after(origin, events),
            origin,
            notifier,
        ),
    decreases events.len(),
{
    let start = InstallState::start(overwrite, platform);
    lemma_install_plan(platform);
    if events.len() > 0 {
        let earlier = events.drop_last();
        lemma_run_tracks(overwrite, platform, origin, notifier, earlier);
        lemma_step_tracks(
            state_after(start, earlier),
            process_after(origin, earlier),
            origin,
            notifier,
            events.last().reply,
            events.last().after,
        );
    }
}

/// A faithful run keeps its state explained.
proof fn lemma_run_explained(
    overwrite: bool,
    platform: Platform,
    origin: Process,
    notifier: Disposition,
    events: Seq<Event>,
)
    requires
        faithful(InstallState::start(overwrite, platform), origin, notifier, events),
    ensures
        explained(InstallState::start(overwrite, platform), origin, events),
    decreases events.len(),
{
    let start = InstallState::start(overwrite, platform);
    lemma_run_keeps_settings(start, events);
    if events.len() > 0 {
        let earlier = events.drop_last();
        let last = events.len() - 1;
        let s = state_after(start, earlier);
        let reply = events.last().reply;
        let next = s.step(reply);
        lemma_run_explained(overwrite, platform, origin, notifier, earlier);
        lemma_run_tracks(overwrite, platform, origin, notifier, earlier);
        lemma_run_keeps_settings(start, earlier);
        lemma_install_plan(platform);
        lemma_setup_ops(platform, origin.pipe);
        assert(events.take(last) =~= earlier);
        assert(forall|i: int| 0 <= i < earlier.len() ==> earlier[i] == events[i]);
        let ops = setup_ops(platform);
        let signals = targets(platform.termination);
        match s.phase {
            Phase::Advancing => {
                if reply is Failed {
                    assert(turned_back(start, events, last, reply->Failed_0));
                    assert(has_cause(start, origin, events, reply->Failed_0));
                } else if s.cursor < ops.len() {
                    assert(s.pending() == Action::Pipe(ops[s.cursor as int]));
                    assert(changed(next) == 0);
                } else {
                    let k = s.cursor - ops.len();
                    assert(s.pending() == Action::Install {
                        signal: signals[k],
                        restart: platform.restart,
                    });
                    assert(rank(signals[k]) == k);
                    assert(changed(s) == k);
                    let previous = reply->Previous_0;
                    assert(previous == origin.disposition(signals[k]));
                    if s.conflicts(previous) {
                        assert(turned_back(start, events, last, Error::exist_spec()));
                        assert(origin.disposition(signals[k]) != Disposition::Default);
                        assert(!unclaimed(origin, platform.termination));
                        assert(has_cause(start, origin, events, Error::exist_spec()));
                    }
                }
            },
            Phase::Unwinding(error) | Phase::Finished(Err(error)) => {
                assert(has_cause(start, origin, earlier, error));
                let i = choose|i: int|
                    {
                        &&& #[trigger] turned_back(start, earlier, i, error)
                        &&& earlier[i].reply is Previous ==> !unclaimed(
                            origin,
                            platform.termination,
                        )
                    };
                assert(events.take(i) =~= earlier.take(i));
                assert(turned_back(start, events, i, error));
                assert(has_cause(start, origin, events, error));
            },
            Phase::Finished(Ok(_)) => {},
        }
    }
}

} // verus!
