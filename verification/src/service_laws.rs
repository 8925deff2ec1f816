//! Properties of the commands on the web service: starting, restarting, reading its output,
//! watching it and ending it.
use crate::command::{Platform, Stream};
use crate::effect::{EffectView, NoticeView, Pipe};
use crate::error::LauncherErrorView;
use crate::laws::{after_lines, lines_effects, ready_count, report_count};
use crate::pages::{hide_pages, law_hiding_hides_every_page, page_label, HostView};
use crate::state::{end_effects, AppStateView, SpawnReplyView, WaitReply, Watch,
    READY_MARKER, READY_NAV_DELAY_MS};
use crate::text::occurs_in;
use vstd::prelude::*;

verus! {

/// The effect at position `i` and no other is of the given kind.
pub open spec fn only_at(
    effects: Seq<EffectView>,
    i: int,
    kind: spec_fn(EffectView) -> bool,
) -> bool {
    &&& 0 <= i < effects.len()
    &&& kind(effects[i])
    &&& forall|j: int| 0 <= j < effects.len() && j != i ==> !kind(#[trigger] effects[j])
}

/// Exactly one effect is of the given kind.
pub open spec fn once(effects: Seq<EffectView>, kind: spec_fn(EffectView) -> bool) -> bool {
    exists|i: int| #[trigger] only_at(effects, i, kind)
}

/// No effect is of the given kind.
pub open spec fn none_of(effects: Seq<EffectView>, kind: spec_fn(EffectView) -> bool) -> bool {
    forall|i: int| 0 <= i < effects.len() ==> !kind(#[trigger] effects[i])
}

/// A start is refused where the lock is poisoned or a child process runs, and is accepted
/// everywhere else. One that is accepted launches one process and does nothing else, and what it
/// launches is the same on one platform whatever the state.
pub proof fn law_start_launches_one_process(a: AppStateView, b: AppStateView, platform: Platform)
    ensures
        a.child_poisoned ==> a.start(platform) == Err::<Seq<EffectView>, _>(
            LauncherErrorView::StateLock,
        ),
        !a.child_poisoned && a.child is Some ==> a.start(platform) == Err::<Seq<EffectView>, _>(
            LauncherErrorView::AlreadyRunning,
        ),
        !a.child_poisoned && a.child is None ==> a.start(platform) is Ok,
        a.start(platform) matches Ok(effects) ==> {
            &&& effects.len() == 1
            &&& effects[0] matches EffectView::Launch(command) && {
                &&& command.stdin == Stream::Null
                &&& command.stdout == Stream::Piped
                &&& command.stderr == Stream::Piped
            }
        },
        a.start(platform) is Ok && b.start(platform) is Ok ==> a.start(platform) == b.start(
            platform,
        ),
{
}

/// A restart always brings the service back: on every platform, whatever pages exist and whatever
/// is selected, the last effect once the old child process has ended is a launch, the same that a
/// plain start gives from any state, and there is no other launch among them.
pub proof fn law_restart_launches_like_a_start(
    state: AppStateView,
    host: HostView,
    platform: Platform,
    fresh: AppStateView,
)
    requires
        fresh.start(platform) is Ok,
    ensures
        ({
            let effects = state.relaunch_effects(host, platform);
            &&& only_at(effects, effects.len() - 1, |e: EffectView| e is Launch)
            &&& fresh.start(platform) == Ok::<_, LauncherErrorView>(seq![effects.last()])
        }),
{
    let effects = state.relaunch_effects(host, platform);
    law_hiding_hides_every_page(host.labels);
    assert(fresh.start(platform)->Ok_0 =~= seq![effects.last()]);
}

/// A restart hides every page and destroys exactly the selected one, if there is one, just before
/// the launch. It does nothing to what is no page, and touches no process but the one it launches.
pub proof fn law_restart_uncovers_the_terminal(
    state: AppStateView,
    host: HostView,
    platform: Platform,
)
    ensures
        ({
            let effects = state.relaunch_effects(host, platform);
            let page = page_label(
                if state.target_poisoned {
                    "http://127.0.0.1:3080"@
                } else {
                    state.target
                },
            );
            &&& forall|label: Seq<char>|
                host.labels.contains(label) && #[trigger] "dsh-"@.is_prefix_of(label)
                    ==> effects.contains(EffectView::Hide(label))
            &&& forall|i: int|
                0 <= i < effects.len() - 1 ==> match #[trigger] effects[i] {
                    EffectView::Hide(label) => host.labels.contains(label) && "dsh-"@.is_prefix_of(
                        label,
                    ),
                    EffectView::Close(label) => label == page && host.labels.contains(page) && i
                        == effects.len() - 2,
                    _ => false,
                }
            &&& host.labels.contains(page) ==> effects.len() >= 2 && effects[effects.len() - 2]
                == EffectView::Close(page)
        }),
{
    let effects = state.relaunch_effects(host, platform);
    let page = page_label(state.page_target());
    let hides = hide_pages(host.labels);
    law_hiding_hides_every_page(host.labels);
    assert forall|label: Seq<char>|
        host.labels.contains(label) && #[trigger] "dsh-"@.is_prefix_of(
            label,
        ) implies effects.contains(EffectView::Hide(label)) by {
        let i = choose|i: int| 0 <= i < hides.len() && hides[i] == EffectView::Hide(label);
        assert(hides.contains(EffectView::Hide(label)));
        assert(effects[i] == hides[i]);
    }
    assert forall|i: int| 0 <= i < hides.len() implies #[trigger] effects[i] == hides[i] by {}
}

/// Asking for a restart ends the running child process and does nothing else; where none runs, or
/// the lock is poisoned, it is refused. Apart from the child process that it lets go, and from
/// readiness once that one has ended, a restart leaves the state as it was.
pub proof fn law_restart_lets_go_of_the_child(state: AppStateView)
    ensures
        state.child_poisoned ==> state.restart() == Err::<Seq<EffectView>, _>(
            LauncherErrorView::StateLock,
        ) && state.after_restart() == state,
        !state.child_poisoned && state.child is None ==> state.restart() == Err::<
            Seq<EffectView>,
            _,
        >(LauncherErrorView::NotRunning) && state.after_restart() == state,
        !state.child_poisoned ==> (state.child matches Some(pid) ==> {
            &&& state.restart() matches Ok(effects) && effects.len() == 1 && effects[0]
                == EffectView::Terminate(pid)
            &&& state.after_restart().child is None
        }),
        same_but_child(state.after_restart(), state),
        state.after_restart().ready == state.ready,
        state.after_relaunch().child == state.child,
        same_but_child(state.after_relaunch(), state),
        !state.after_relaunch().ready,
{
}

/// The selected address and the soundness of the locks are the same in both states.
pub open spec fn same_but_child(a: AppStateView, b: AppStateView) -> bool {
    &&& a.target == b.target
    &&& a.target_poisoned == b.target_poisoned
    &&& a.child_poisoned == b.child_poisoned
}

/// The answer to a launch: it succeeds exactly where the child process runs, both of its streams
/// can be read and the lock is sound; every failure has its own error, and a system's reason is
/// passed on.
pub proof fn law_launch_is_answered(state: AppStateView, reply: SpawnReplyView)
    ensures
        match reply {
            SpawnReplyView::Failed(reason) => state.spawn_result(reply) == Err::<(), _>(
                LauncherErrorView::SpawnFailed(reason),
            ),
            SpawnReplyView::Started { stdout, stderr, .. } => {
                &&& state.spawn_result(reply) is Ok <==> stdout && stderr && !state.child_poisoned
                &&& !stdout ==> state.spawn_result(reply)->Err_0 is NoStdout
                &&& stdout && !stderr ==> state.spawn_result(reply)->Err_0 is NoStderr
                &&& stdout && stderr && state.child_poisoned ==> state.spawn_result(reply)->Err_0
                    is StateLock
            },
        },
{
}

/// A child process that was taken over is remembered by its own identifier, is watched, has both of
/// its streams read, each once, and nothing of the selected address is changed. A launch that
/// failed changes nothing and is neither watched nor read.
pub proof fn law_launched_child_is_taken_over(
    state: AppStateView,
    platform: Platform,
    reply: SpawnReplyView,
)
    ensures
        ({
            let effects = state.spawn_effects(platform, reply);
            let now = state.after_spawn(reply);
            if state.spawn_result(reply) is Ok {
                &&& reply matches SpawnReplyView::Started { pid, .. } && now.child == Some(pid)
                &&& !now.ready
                &&& same_but_child(now, state)
                &&& once(effects, |e: EffectView| e is Monitor)
                &&& once(effects, |e: EffectView| e == EffectView::Read(Pipe::Stdout))
                &&& once(effects, |e: EffectView| e == EffectView::Read(Pipe::Stderr))
            } else {
                &&& now == state
                &&& none_of(effects, |e: EffectView| e is Monitor || e is Read)
            }
        }),
{
    let effects = state.spawn_effects(platform, reply);
    if state.spawn_result(reply) is Ok {
        let n = effects.len() as int;
        assert(only_at(effects, n - 3, |e: EffectView| e is Monitor));
        assert(only_at(effects, n - 2, |e: EffectView| e == EffectView::Read(Pipe::Stdout)));
        assert(only_at(effects, n - 1, |e: EffectView| e == EffectView::Read(Pipe::Stderr)));
    }
}

/// On Windows every child process that was launched joins the job, whatever else fails, and before
/// anything else is done with it; on Unix none does. Nothing but joining, watching and reading
/// follows a launch.
pub proof fn law_launched_child_joins_the_job(
    state: AppStateView,
    platform: Platform,
    reply: SpawnReplyView,
)
    ensures
        ({
            let effects = state.spawn_effects(platform, reply);
            &&& platform == Platform::Unix || reply is Failed ==> none_of(
                effects,
                |e: EffectView| e is AssignToJob,
            )
            &&& platform == Platform::Windows ==> (reply matches SpawnReplyView::Started {
                pid,
                ..
            } ==> effects.len() > 0 && effects[0] == EffectView::AssignToJob(pid) && only_at(
                effects,
                0,
                |e: EffectView| e is AssignToJob,
            ))
            &&& none_of(
                effects,
                |e: EffectView| !(e is AssignToJob || e is Monitor || e is Read),
            )
        }),
{
}

/// Every line of output is forwarded, before anything else, whatever the state. What a line leads
/// to depends on nothing but the line and on whether the service is ready, and a line that makes
/// nothing ready is only forwarded.
pub proof fn law_line_is_forwarded(a: AppStateView, b: AppStateView, line: Seq<char>)
    ensures
        a.line_effects(line).len() > 0,
        a.line_effects(line)[0] == EffectView::Emit(NoticeView::Output(line)),
        a.ready || !occurs_in(READY_MARKER@, line) ==> a.line_effects(line).len() == 1,
        !a.ready && occurs_in(READY_MARKER@, line) ==> a.line_effects(line).len() > 1,
        a.ready == b.ready ==> a.line_effects(line) == b.line_effects(line),
        a.after_line(line).ready <==> a.ready || occurs_in(READY_MARKER@, line),
        a.after_line(line).child == a.child,
        same_but_child(a.after_line(line), a),
{
}

/// How often the opening of the selected page is scheduled.
pub open spec fn opening_count(effects: Seq<EffectView>) -> nat
    decreases effects.len(),
{
    if effects.len() == 0 {
        0
    } else {
        opening_count(effects.drop_last()) + (if effects.last() is OpenTargetAfter {
            1nat
        } else {
            0nat
        })
    }
}

/// Wherever readiness is reported, it is reported directly after a line that holds the ready
/// marker, and the opening of the selected page is scheduled directly after that, with the fixed
/// delay; it is scheduled nowhere else, and nothing but this and forwarding is done.
pub open spec fn opens_when_ready(effects: Seq<EffectView>) -> bool {
    forall|i: int|
        0 <= i < effects.len() ==> match #[trigger] effects[i] {
            EffectView::Emit(NoticeView::Output(_)) => true,
            EffectView::Emit(NoticeView::Ready) => {
                &&& i > 0
                &&& effects[i - 1] matches EffectView::Emit(NoticeView::Output(line)) && occurs_in(
                    READY_MARKER@,
                    line,
                )
                &&& i + 1 < effects.len()
                &&& effects[i + 1] == EffectView::OpenTargetAfter(READY_NAV_DELAY_MS)
            },
            EffectView::OpenTargetAfter(delay) => {
                &&& delay == READY_NAV_DELAY_MS
                &&& i > 0
                &&& effects[i - 1] == EffectView::Emit(NoticeView::Ready)
            },
            _ => false,
        }
}

proof fn lemma_openings_concat(first: Seq<EffectView>, second: Seq<EffectView>)
    ensures
        opening_count(first + second) == opening_count(first) + opening_count(second),
        ready_count(first + second) == ready_count(first) + ready_count(second),
    decreases second.len(),
{
    if second.len() == 0 {
        assert(first + second =~= first);
    } else {
        assert((first + second).drop_last() =~= first + second.drop_last());
        assert((first + second).last() == second.last());
        lemma_openings_concat(first, second.drop_last());
    }
}

/// Over any lines of output and from any state, whichever address is selected, the opening of the
/// selected page is scheduled exactly as often as readiness is reported, directly after that report
/// and with the fixed delay.
pub proof fn law_readiness_opens_the_page(state: AppStateView, lines: Seq<Seq<char>>)
    ensures
        opens_when_ready(lines_effects(state, lines)),
        opening_count(lines_effects(state, lines)) == ready_count(lines_effects(state, lines)),
    decreases lines.len(),
{
    if lines.len() > 0 {
        let rest = lines.drop_last();
        let line = lines.last();
        law_readiness_opens_the_page(state, rest);
        let first = lines_effects(state, rest);
        let mid = after_lines(state, rest);
        let second = mid.line_effects(line);
        reveal_with_fuel(opening_count, 4);
        reveal_with_fuel(ready_count, 4);
        lemma_openings_concat(first, second);
        assert(opening_count(second) == ready_count(second)) by {
            if second.len() == 3 {
                assert(second.drop_last().last() == second[1]);
                assert(second.drop_last().drop_last().last() == second[0]);
                assert(second.drop_last().drop_last().drop_last().len() == 0);
            } else {
                assert(second.drop_last().len() == 0);
            }
        }
        let all = first + second;
        let n = first.len() as int;
        assert forall|i: int| 0 <= i < second.len() implies #[trigger] all[n + i] == second[i] by {}
        assert(opens_when_ready(all)) by {
            assert forall|i: int| 0 <= i < all.len() implies match #[trigger] all[i] {
                EffectView::Emit(NoticeView::Output(_)) => true,
                EffectView::Emit(NoticeView::Ready) => {
                    &&& i > 0
                    &&& all[i - 1] matches EffectView::Emit(NoticeView::Output(l)) && occurs_in(
                        READY_MARKER@,
                        l,
                    )
                    &&& i + 1 < all.len()
                    &&& all[i + 1] == EffectView::OpenTargetAfter(READY_NAV_DELAY_MS)
                },
                EffectView::OpenTargetAfter(delay) => {
                    &&& delay == READY_NAV_DELAY_MS
                    &&& i > 0
                    &&& all[i - 1] == EffectView::Emit(NoticeView::Ready)
                },
                _ => false,
            } by {
                if i < n {
                    assert(all[i] == first[i]);
                    if i > 0 {
                        assert(all[i - 1] == first[i - 1]);
                    }
                    if i + 1 < n {
                        assert(all[i + 1] == first[i + 1]);
                    }
                } else {
                    assert(all[i] == second[i - n]);
                    if i > n {
                        assert(all[i - 1] == second[i - 1 - n]);
                    }
                    if i + 1 < all.len() {
                        assert(all[i + 1] == second[i + 1 - n]);
                    }
                }
            }
        }
    }
}

/// What one check on the child process leads to: a running child is checked again, however long it
/// has run; one that ended is reported with the code that the check gave, and one that cannot be
/// checked without a code. Without a child, or with a poisoned lock, the watch stops.
pub proof fn law_check_is_acted_on(state: AppStateView, code: Option<i32>)
    ensures
        !state.child_poisoned && state.child is Some ==> {
            &&& state.watch(WaitReply::Running) == Watch::Continue
            &&& state.watch(WaitReply::Exited(code)) == Watch::Report(code)
            &&& state.watch(WaitReply::Failed) == Watch::Report(None)
            &&& state.after_watch(WaitReply::Exited(code)).child is None
            &&& state.after_watch(WaitReply::Failed).child is None
        },
        state.child_poisoned || state.child is None ==> forall|reply: WaitReply| #[trigger]
            state.watch(reply) == Watch::Stop,
        forall|reply: WaitReply|
            {
                let now = #[trigger] state.after_watch(reply);
                &&& same_but_child(now, state)
                &&& now.ready == state.ready
                &&& now.child == state.child || now.child is None && state.watch(reply) is Report
            },
        state.after_watch(WaitReply::Running) == state,
{
}

/// The state after some checks on the child process.
pub open spec fn after_checks(state: AppStateView, replies: Seq<WaitReply>) -> AppStateView
    decreases replies.len(),
{
    if replies.len() == 0 {
        state
    } else {
        after_checks(state, replies.drop_last()).after_watch(replies.last())
    }
}

/// However often a child process is found running, in whatever state the launcher is otherwise, the
/// watch goes on; and once it is found to have ended, its end is reported exactly once, with the
/// exit code that the check gave.
pub proof fn law_watch_lasts_until_the_end(
    state: AppStateView,
    running: Seq<WaitReply>,
    code: Option<i32>,
    more: Seq<WaitReply>,
)
    requires
        !state.child_poisoned,
        state.child is Some,
        forall|i: int| 0 <= i < running.len() ==> #[trigger] running[i] == WaitReply::Running,
    ensures
        after_checks(state, running) == state,
        forall|i: int|
            0 <= i < running.len() ==> #[trigger] after_checks(state, running.take(i)).watch(
                running[i],
            ) == Watch::Continue,
        after_checks(state, running).watch(WaitReply::Exited(code)) == Watch::Report(code),
        report_count(state, running) == 0,
        report_count(state, running + seq![WaitReply::Exited(code)] + more) == 1,
    decreases running.len(),
{
    lemma_running_keeps_state(state, running);
    assert forall|i: int| 0 <= i < running.len() implies #[trigger] after_checks(
        state,
        running.take(i),
    ).watch(running[i]) == Watch::Continue by {
        lemma_running_keeps_state(state, running.take(i));
    }
    let all = running + seq![WaitReply::Exited(code)] + more;
    if running.len() > 0 {
        let rest = running.drop_first();
        assert forall|i: int| 0 <= i < rest.len() implies #[trigger] rest[i]
            == WaitReply::Running by {
            assert(rest[i] == running[i + 1]);
        }
        assert(running[0] == WaitReply::Running);
        law_watch_lasts_until_the_end(state, rest, code, more);
        assert(all.drop_first() =~= rest + seq![WaitReply::Exited(code)] + more);
        assert(all[0] == WaitReply::Running);
    } else {
        assert(all[0] == WaitReply::Exited(code));
        assert(all.drop_first() =~= more);
        crate::laws::law_end_is_reported_once(state.after_watch(WaitReply::Exited(code)), more);
    }
}

proof fn lemma_running_keeps_state(state: AppStateView, running: Seq<WaitReply>)
    requires
        !state.child_poisoned,
        state.child is Some,
        forall|i: int| 0 <= i < running.len() ==> #[trigger] running[i] == WaitReply::Running,
    ensures
        after_checks(state, running) == state,
    decreases running.len(),
{
    if running.len() > 0 {
        assert(running[running.len() - 1] == WaitReply::Running);
        lemma_running_keeps_state(state, running.drop_last());
    }
}

/// The end of the child process is reported first, once, with its code; after that every page is
/// hidden, and nothing else is done.
pub proof fn law_end_is_reported_with_its_code(code: Option<i32>, host: HostView)
    ensures
        ({
            let effects = end_effects(code, host);
            &&& effects.len() > 0
            &&& effects[0] == EffectView::Emit(NoticeView::Exit(code))
            &&& forall|i: int|
                0 < i < effects.len() ==> (#[trigger] effects[i] matches EffectView::Hide(label)
                    && host.labels.contains(label) && "dsh-"@.is_prefix_of(label))
            &&& forall|label: Seq<char>|
                host.labels.contains(label) && #[trigger] "dsh-"@.is_prefix_of(label)
                    ==> effects.contains(EffectView::Hide(label))
        }),
{
    let effects = end_effects(code, host);
    let hides = hide_pages(host.labels);
    law_hiding_hides_every_page(host.labels);
    assert forall|i: int| 0 < i < effects.len() implies #[trigger] effects[i] == hides[i - 1] by {}
    assert forall|label: Seq<char>|
        host.labels.contains(label) && #[trigger] "dsh-"@.is_prefix_of(
            label,
        ) implies effects.contains(EffectView::Hide(label)) by {
        assert(hides.contains(EffectView::Hide(label)));
        let i = choose|i: int| 0 <= i < hides.len() && hides[i] == EffectView::Hide(label);
        assert(effects[i + 1] == hides[i]);
    }
}

/// When the launcher ends, exactly the child process that is remembered is ended, and nothing is
/// done where none is.
pub proof fn law_exit_ends_only_the_child(state: AppStateView)
    ensures
        state.child matches Some(pid) ==> state.exit_effects().len() == 1 && state.exit_effects()[0]
            == EffectView::Terminate(pid),
        state.child is None ==> state.exit_effects().len() == 0,
{
}

} // verus!
