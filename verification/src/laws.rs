//! Properties of the launcher that span several of its commands.
use crate::address::{is_web_scheme, normalized, DSH_URL};
use crate::command::{piped_service_command, Platform};
use crate::effect::{lemma_after_concat, pages_after, visible_after, EffectView, NoticeView};
use crate::error::LauncherErrorView;
use crate::pages::{ensure_outcome, hide_pages, law_hiding_keeps_pages, page_label, page_labels,
    HostView};
use crate::state::{end_effects, AppStateView, SpawnReplyView, WaitReply, Watch, READY_MARKER};
use crate::text::occurs_in;
use crate::window::{after_event, AppEventView};
use vstd::prelude::*;

verus! {

/// The state after some lines of output, whichever streams they came from.
pub open spec fn after_lines(state: AppStateView, lines: Seq<Seq<char>>) -> AppStateView
    decreases lines.len(),
{
    if lines.len() == 0 {
        state
    } else {
        after_lines(state, lines.drop_last()).after_line(lines.last())
    }
}

/// The effects of some lines of output, whichever streams they came from.
pub open spec fn lines_effects(state: AppStateView, lines: Seq<Seq<char>>) -> Seq<EffectView>
    decreases lines.len(),
{
    if lines.len() == 0 {
        Seq::empty()
    } else {
        lines_effects(state, lines.drop_last()) + after_lines(
            state,
            lines.drop_last(),
        ).line_effects(lines.last())
    }
}

/// How often readiness is reported.
pub open spec fn ready_count(effects: Seq<EffectView>) -> nat
    decreases effects.len(),
{
    if effects.len() == 0 {
        0
    } else {
        ready_count(effects.drop_last()) + (if effects.last() == EffectView::Emit(
            NoticeView::Ready,
        ) {
            1nat
        } else {
            0nat
        })
    }
}

/// The lines that are forwarded, in their order.
pub open spec fn forwarded(effects: Seq<EffectView>) -> Seq<Seq<char>>
    decreases effects.len(),
{
    if effects.len() == 0 {
        Seq::empty()
    } else {
        match effects.last() {
            EffectView::Emit(NoticeView::Output(line)) => forwarded(effects.drop_last()).push(line),
            _ => forwarded(effects.drop_last()),
        }
    }
}

/// Some line holds the ready marker.
pub open spec fn marked(lines: Seq<Seq<char>>) -> bool {
    exists|i: int| 0 <= i < lines.len() && occurs_in(READY_MARKER@, #[trigger] lines[i])
}

proof fn lemma_counts_concat(first: Seq<EffectView>, second: Seq<EffectView>)
    ensures
        ready_count(first + second) == ready_count(first) + ready_count(second),
        forwarded(first + second) == forwarded(first) + forwarded(second),
    decreases second.len(),
{
    if second.len() == 0 {
        assert(first + second =~= first);
        assert(forwarded(first) + forwarded(second) =~= forwarded(first));
    } else {
        assert((first + second).drop_last() =~= first + second.drop_last());
        assert((first + second).last() == second.last());
        lemma_counts_concat(first, second.drop_last());
        assert(forwarded(first + second) =~= forwarded(first) + forwarded(second));
    }
}

proof fn lemma_line_counts(state: AppStateView, line: Seq<char>)
    ensures
        ready_count(state.line_effects(line)) == (if state.becomes_ready(line) {
            1nat
        } else {
            0nat
        }),
        forwarded(state.line_effects(line)) == seq![line],
{
    reveal_with_fuel(ready_count, 4);
    reveal_with_fuel(forwarded, 4);
    let e = state.line_effects(line);
    let head = seq![EffectView::Emit(NoticeView::Output(line))];
    assert(head.drop_last() =~= Seq::empty());
    assert(Seq::<Seq<char>>::empty().push(line) =~= seq![line]);
    if state.becomes_ready(line) {
        assert(e.drop_last().drop_last() =~= head);
    } else {
        assert(e =~= head);
    }
}

/// Over any lines of output, readiness is reported exactly once if it was not reported before and
/// one of them holds the ready marker, and otherwise not at all; and every line is forwarded, in
/// order.
pub proof fn law_ready_is_reported_once(state: AppStateView, lines: Seq<Seq<char>>)
    ensures
        ready_count(lines_effects(state, lines)) == (if !state.ready && marked(lines) {
            1nat
        } else {
            0nat
        }),
        after_lines(state, lines).ready == (state.ready || marked(lines)),
        forwarded(lines_effects(state, lines)) == lines,
    decreases lines.len(),
{
    if lines.len() == 0 {
        assert(forwarded(lines_effects(state, lines)) =~= lines);
    } else {
        let rest = lines.drop_last();
        let line = lines.last();
        law_ready_is_reported_once(state, rest);
        let mid = after_lines(state, rest);
        lemma_line_counts(mid, line);
        lemma_counts_concat(lines_effects(state, rest), mid.line_effects(line));
        assert(rest + seq![line] =~= lines);
        assert(marked(lines) <==> marked(rest) || occurs_in(READY_MARKER@, line)) by {
            if marked(rest) {
                let i = choose|i: int|
                    0 <= i < rest.len() && occurs_in(READY_MARKER@, #[trigger] rest[i]);
                assert(lines[i] == rest[i]);
            }
            if occurs_in(READY_MARKER@, line) {
                assert(lines[lines.len() - 1] == line);
            }
            if marked(lines) {
                let i = choose|i: int|
                    0 <= i < lines.len() && occurs_in(READY_MARKER@, #[trigger] lines[i]);
                if i < lines.len() - 1 {
                    assert(rest[i] == lines[i]);
                }
            }
        }
    }
}

/// Lines of output change nothing but readiness.
pub proof fn law_output_changes_only_readiness(state: AppStateView, lines: Seq<Seq<char>>)
    ensures
        after_lines(state, lines) == (AppStateView {
            ready: after_lines(state, lines).ready,
            ..state
        }),
    decreases lines.len(),
{
    if lines.len() > 0 {
        law_output_changes_only_readiness(state, lines.drop_last());
    }
}

/// How many ends of the child process are reported over some checks on it.
pub open spec fn report_count(state: AppStateView, replies: Seq<WaitReply>) -> nat
    decreases replies.len(),
{
    if replies.len() == 0 {
        0
    } else {
        report_count(state.after_watch(replies[0]), replies.drop_first()) + (if state.watch(
            replies[0],
        ) is Report {
            1nat
        } else {
            0nat
        })
    }
}

/// However many watches check on one child process, its end is reported at most once, and once it
/// is, every further check stops without a word.
pub proof fn law_end_is_reported_once(state: AppStateView, replies: Seq<WaitReply>)
    ensures
        report_count(state, replies) <= 1,
        state.child is None ==> report_count(state, replies) == 0,
        state.child is None ==> forall|reply: WaitReply| #[trigger]
            state.watch(reply) == Watch::Stop,
        forall|reply: WaitReply|
            state.watch(reply) is Report ==> (#[trigger] state.after_watch(reply)).child is None,
    decreases replies.len(),
{
    if replies.len() > 0 {
        law_end_is_reported_once(state.after_watch(replies[0]), replies.drop_first());
    }
}

/// A restart ends the running child process and no other, and its end is not reported: until a
/// new child process is taken over, every check stops without a word.
pub proof fn law_restart_is_silent(state: AppStateView, replies: Seq<WaitReply>)
    requires
        state.restart() is Ok,
    ensures
        state.child is Some,
        state.restart() == Ok::<_, LauncherErrorView>(
            seq![EffectView::Terminate(state.child->0)],
        ),
        report_count(state.after_restart(), replies) == 0,
        report_count(state.after_restart().after_relaunch(), replies) == 0,
{
    law_end_is_reported_once(state.after_restart(), replies);
    law_end_is_reported_once(state.after_restart().after_relaunch(), replies);
}

/// A restart puts the launcher back to waiting: the next ready marker is reported again, exactly
/// once, whatever was reported before, and whatever comes of the launch.
pub proof fn law_restart_awaits_readiness(
    state: AppStateView,
    reply: SpawnReplyView,
    lines: Seq<Seq<char>>,
)
    requires
        marked(lines),
    ensures
        ready_count(lines_effects(state.after_restart().after_relaunch(), lines)) == 1,
        ready_count(
            lines_effects(state.after_restart().after_relaunch().after_spawn(reply), lines),
        ) == 1,
{
    law_ready_is_reported_once(state.after_restart().after_relaunch(), lines);
    law_ready_is_reported_once(state.after_restart().after_relaunch().after_spawn(reply), lines);
}

/// Once a start has brought up a child process, its ready marker is reported, exactly once, whatever
/// an earlier child process wrote. A start whose launch failed leaves everything as it was.
pub proof fn law_start_awaits_readiness(
    state: AppStateView,
    platform: Platform,
    reply: SpawnReplyView,
    lines: Seq<Seq<char>>,
)
    requires
        state.start(platform) is Ok,
        marked(lines),
    ensures
        state.spawn_result(reply) is Ok ==> ready_count(
            lines_effects(state.after_spawn(reply), lines),
        ) == 1,
        state.spawn_result(reply) is Err ==> state.after_spawn(reply) == state,
{
    law_ready_is_reported_once(state.after_spawn(reply), lines);
}

/// At most one child process runs: a start is accepted exactly where none is remembered, a restart
/// exactly where one is, and a launch that failed is not remembered.
pub proof fn law_one_child_at_a_time(state: AppStateView, reply: SpawnReplyView, platform: Platform)
    requires
        !state.child_poisoned,
    ensures
        state.spawn_result(reply) is Ok ==> state.after_spawn(reply).start(platform) == Err::<
            Seq<EffectView>,
            _,
        >(LauncherErrorView::AlreadyRunning),
        state.spawn_result(reply) is Err ==> state.after_spawn(reply) == state,
        state.start(platform) is Ok <==> state.child is None,
        state.restart() is Ok <==> state.child is Some,
        state.after_restart().start(platform) is Ok,
{
}

/// The selected address is the local web service, or one that the URL parser accepted.
pub open spec fn target_is_accepted(
    state: AppStateView,
    parse: spec_fn(Seq<char>) -> Result<Seq<char>, Seq<char>>,
) -> bool {
    state.target == DSH_URL@ || (parse(state.target) matches Ok(scheme) && is_web_scheme(scheme))
}

/// One thing that can happen to the launcher's state.
pub enum Move {
    /// A child process was launched.
    Spawned(SpawnReplyView),
    /// A restart was asked for.
    Restart,
    /// The old child process of a restart has ended.
    Relaunch,
    /// A line of output was read.
    Line(Seq<char>),
    /// The child process was checked.
    Checked(WaitReply),
    /// The user typed an address.
    Select(Seq<char>),
    /// An event of the window system.
    Event(AppEventView),
}

/// The state after one thing happened; `parse` is what the URL parser makes of addresses.
pub open spec fn after_move(
    state: AppStateView,
    parse: spec_fn(Seq<char>) -> Result<Seq<char>, Seq<char>>,
    m: Move,
) -> AppStateView {
    match m {
        Move::Spawned(reply) => state.after_spawn(reply),
        Move::Restart => state.after_restart(),
        Move::Relaunch => state.after_relaunch(),
        Move::Line(line) => state.after_line(line),
        Move::Checked(reply) => state.after_watch(reply),
        Move::Select(input) => state.after_select(normalized(input), parse(normalized(input))),
        Move::Event(event) => after_event(state, event),
    }
}

/// The state after everything that happened.
pub open spec fn after_moves(
    state: AppStateView,
    parse: spec_fn(Seq<char>) -> Result<Seq<char>, Seq<char>>,
    moves: Seq<Move>,
) -> AppStateView
    decreases moves.len(),
{
    if moves.len() == 0 {
        state
    } else {
        after_move(after_moves(state, parse, moves.drop_last()), parse, moves.last())
    }
}

/// The move takes a child process over.
pub open spec fn takes_over(state: AppStateView, m: Move) -> bool {
    m matches Move::Spawned(reply) && state.spawn_result(reply) is Ok
}

/// The move lets go of a child process: its end is reported, or it is itself ended.
pub open spec fn lets_go(state: AppStateView, m: Move) -> bool {
    match m {
        Move::Checked(reply) => state.watch(reply) is Report,
        Move::Restart => state.restart() is Ok,
        Move::Event(AppEventView::Exit) => state.child is Some,
        _ => false,
    }
}

/// How many child processes were taken over.
pub open spec fn taken_over(
    state: AppStateView,
    parse: spec_fn(Seq<char>) -> Result<Seq<char>, Seq<char>>,
    moves: Seq<Move>,
) -> nat
    decreases moves.len(),
{
    if moves.len() == 0 {
        0
    } else {
        let rest = moves.drop_last();
        taken_over(state, parse, rest) + (if takes_over(
            after_moves(state, parse, rest),
            moves.last(),
        ) {
            1nat
        } else {
            0nat
        })
    }
}

/// How many child processes were let go.
pub open spec fn let_go(
    state: AppStateView,
    parse: spec_fn(Seq<char>) -> Result<Seq<char>, Seq<char>>,
    moves: Seq<Move>,
) -> nat
    decreases moves.len(),
{
    if moves.len() == 0 {
        0
    } else {
        let rest = moves.drop_last();
        let_go(state, parse, rest) + (if lets_go(after_moves(state, parse, rest), moves.last()) {
            1nat
        } else {
            0nat
        })
    }
}

/// No child process was taken over while another was remembered.
pub open spec fn orderly(
    state: AppStateView,
    parse: spec_fn(Seq<char>) -> Result<Seq<char>, Seq<char>>,
    moves: Seq<Move>,
) -> bool
    decreases moves.len(),
{
    moves.len() > 0 ==> {
        let rest = moves.drop_last();
        &&& orderly(state, parse, rest)
        &&& takes_over(after_moves(state, parse, rest), moves.last()) ==> after_moves(
            state,
            parse,
            rest,
        ).child is None
    }
}

/// One if a child process is remembered.
pub open spec fn held(state: AppStateView) -> nat {
    if state.child is Some {
        1
    } else {
        0
    }
}

/// Whatever happens, no child process is let go twice: those reported or ended, and the one still
/// remembered, were all taken over before. Where none was taken over while another was remembered,
/// none is lost either: the two counts are equal.
pub proof fn law_children_are_accounted_for(
    state: AppStateView,
    parse: spec_fn(Seq<char>) -> Result<Seq<char>, Seq<char>>,
    moves: Seq<Move>,
)
    ensures
        let_go(state, parse, moves) + held(after_moves(state, parse, moves)) <= taken_over(
            state,
            parse,
            moves,
        ) + held(state),
        orderly(state, parse, moves) ==> let_go(state, parse, moves) + held(
            after_moves(state, parse, moves),
        ) == taken_over(state, parse, moves) + held(state),
    decreases moves.len(),
{
    if moves.len() > 0 {
        law_children_are_accounted_for(state, parse, moves.drop_last());
    }
}

/// Whatever happens, the selected address is the local web service or one that the URL parser
/// accepted, and no lock becomes poisoned by the launcher's own doing.
pub proof fn law_target_stays_accepted(
    parse: spec_fn(Seq<char>) -> Result<Seq<char>, Seq<char>>,
    moves: Seq<Move>,
)
    ensures
        target_is_accepted(after_moves(AppStateView::initial(), parse, moves), parse),
        !after_moves(AppStateView::initial(), parse, moves).child_poisoned,
        !after_moves(AppStateView::initial(), parse, moves).target_poisoned,
    decreases moves.len(),
{
    if moves.len() > 0 {
        law_target_stays_accepted(parse, moves.drop_last());
    }
}

/// Whatever happens, opening the page for the selected address never fails for want of a URL: given
/// the main window, the page is there or is created.
pub proof fn law_selected_page_opens(
    parse: spec_fn(Seq<char>) -> Result<Seq<char>, Seq<char>>,
    moves: Seq<Move>,
    host: HostView,
)
    requires
        host.main_window,
        parse(DSH_URL@) is Ok,
    ensures
        ({
            let state = after_moves(AppStateView::initial(), parse, moves);
            let label = page_label(state.target);
            let effects = state.open_target(host, parse(state.target));
            effects == (if host.labels.contains(label) {
                Seq::<EffectView>::empty()
            } else {
                seq![EffectView::Create { label, url: state.target }]
            })
        }),
{
    law_target_stays_accepted(parse, moves);
}

/// Selecting an address that is refused changes nothing; one that is accepted becomes the page
/// that opens when the web service is ready.
pub proof fn law_selection(
    state: AppStateView,
    address: Seq<char>,
    parsed: Result<Seq<char>, Seq<char>>,
)
    ensures
        state.select_refusal(parsed) is Some ==> state.after_select(address, parsed) == state,
        state.select_refusal(parsed) is None ==> state.after_select(address, parsed).page_target()
            == address,
{
}

/// Opening an address keeps every page alive. Where the page was there, it becomes the only
/// visible page; where it was not, no page that was there stays visible, and the page is created.
pub proof fn law_open_switches_pages(
    state: AppStateView,
    address: Seq<char>,
    host: HostView,
    parsed: Result<Seq<char>, Seq<char>>,
    visible: Set<Seq<char>>,
)
    requires
        state.select_refusal(parsed) is None,
        visible.subset_of(page_labels(host.labels).to_set()),
    ensures
        ({
            let reply = state.open(address, host, parsed);
            let label = page_label(address);
            let pages = host.labels.to_set();
            let known = host.labels.contains(label);
            &&& reply.result == Ok::<_, LauncherErrorView>(true) <==> known
            &&& reply.result == Ok::<_, LauncherErrorView>(false) <==> !known && host.main_window
            &&& pages.subset_of(pages_after(pages, reply.effects))
            &&& known ==> visible_after(visible, reply.effects) == set![label]
            &&& !known ==> visible_after(visible, reply.effects) == Set::<Seq<char>>::empty()
            &&& reply.result is Ok ==> pages_after(pages, reply.effects).contains(label)
        }),
{
    let reply = state.open(address, host, parsed);
    let label = page_label(address);
    let pages = host.labels.to_set();
    let hides = hide_pages(host.labels);
    law_hiding_keeps_pages(pages, visible, host.labels);
    assert(visible.difference(page_labels(host.labels).to_set()) =~= Set::empty());
    if host.labels.contains(label) {
        let tail = seq![
            EffectView::Show(label),
            EffectView::Focus(label),
            EffectView::Emit(NoticeView::PageShown),
        ];
        lemma_after_concat(pages, hides, tail);
        lemma_after_concat(visible, hides, tail);
        reveal_with_fuel(pages_after, 4);
        reveal_with_fuel(visible_after, 4);
        assert(tail.drop_last().drop_last() =~= seq![EffectView::Show(label)]);
        assert(tail.drop_last().drop_last().drop_last() =~= Seq::empty());
        assert(visible_after(visible, reply.effects) =~= set![label]);
    } else if host.main_window {
        let tail = seq![EffectView::Create { label, url: address }];
        assert(parsed is Ok);
        lemma_after_concat(pages, hides, tail);
        lemma_after_concat(visible, hides, tail);
        reveal_with_fuel(pages_after, 2);
        reveal_with_fuel(visible_after, 2);
        assert(tail.drop_last() =~= Seq::empty());
    }
}

/// A restart destroys the selected page and no other, so that the page opens afresh once the web
/// service is ready again.
pub proof fn law_restart_drops_only_the_selected_page(
    state: AppStateView,
    host: HostView,
    platform: Platform,
    later: HostView,
    parsed: Result<Seq<char>, Seq<char>>,
)
    requires
        later.labels.to_set() == pages_after(
            host.labels.to_set(),
            state.relaunch_effects(host, platform),
        ),
    ensures
        ({
            let label = page_label(state.page_target());
            let now = state.after_relaunch();
            &&& later.labels.to_set() == host.labels.to_set().remove(label)
            &&& later.main_window && parsed is Ok ==> now.open_target(later, parsed) == seq![
                EffectView::Create { label, url: state.page_target() },
            ]
        }),
{
    let label = page_label(state.page_target());
    let pages = host.labels.to_set();
    let hides = hide_pages(host.labels);
    let launch = seq![EffectView::Launch(piped_service_command(platform))];
    let close = if host.labels.contains(label) {
        seq![EffectView::Close(label)]
    } else {
        Seq::empty()
    };
    law_hiding_keeps_pages(pages, pages, host.labels);
    lemma_after_concat(pages, hides, close);
    lemma_after_concat(pages, hides + close, launch);
    reveal_with_fuel(pages_after, 2);
    assert(launch.drop_last() =~= Seq::empty());
    if host.labels.contains(label) {
        assert(close.drop_last() =~= Seq::empty());
    } else {
        assert(!pages.contains(label));
        assert(pages.remove(label) =~= pages);
    }
    assert(!later.labels.to_set().contains(label));
    assert(!later.labels.contains(label));
}

/// The end of the child process uncovers the terminal: every page is hidden, none destroyed.
pub proof fn law_end_uncovers_terminal(
    code: Option<i32>,
    host: HostView,
    visible: Set<Seq<char>>,
)
    requires
        visible.subset_of(page_labels(host.labels).to_set()),
    ensures
        visible_after(visible, end_effects(code, host)) == Set::<Seq<char>>::empty(),
        pages_after(host.labels.to_set(), end_effects(code, host)) == host.labels.to_set(),
{
    let head = seq![EffectView::Emit(NoticeView::Exit(code))];
    let pages = host.labels.to_set();
    reveal_with_fuel(pages_after, 2);
    reveal_with_fuel(visible_after, 2);
    assert(head.drop_last() =~= Seq::empty());
    lemma_after_concat(pages, head, hide_pages(host.labels));
    lemma_after_concat(visible, head, hide_pages(host.labels));
    law_hiding_keeps_pages(pages, visible, host.labels);
    assert(visible.difference(page_labels(host.labels).to_set()) =~= Set::empty());
}

/// Loading the selected page again hides it meanwhile, and destroys no page.
pub proof fn law_reload_keeps_pages(state: AppStateView, host: HostView, visible: Set<Seq<char>>)
    requires
        state.reload(host) is Ok,
    ensures
        pages_after(host.labels.to_set(), state.reload(host)->Ok_0) == host.labels.to_set(),
        visible_after(visible, state.reload(host)->Ok_0) == visible.remove(
            page_label(state.target),
        ),
{
    let effects = state.reload(host)->Ok_0;
    reveal_with_fuel(pages_after, 3);
    reveal_with_fuel(visible_after, 3);
    assert(effects.drop_last().drop_last() =~= Seq::empty());
}

/// A page is created at most once: where it exists, making sure of it does nothing.
pub proof fn law_existing_page_is_kept(
    url: Seq<char>,
    host: HostView,
    parsed: Result<Seq<char>, Seq<char>>,
    later: HostView,
)
    requires
        ensure_outcome(url, host, parsed) is Ok,
        later.labels.to_set() == pages_after(
            host.labels.to_set(),
            ensure_outcome(url, host, parsed)->Ok_0,
        ),
        parsed is Ok,
    ensures
        later.labels.contains(page_label(url)),
        ensure_outcome(url, later, parsed) == Ok::<_, LauncherErrorView>(
            Seq::<EffectView>::empty(),
        ),
{
    let effects = ensure_outcome(url, host, parsed)->Ok_0;
    reveal_with_fuel(pages_after, 2);
    if !host.labels.contains(page_label(url)) {
        assert(effects.drop_last() =~= Seq::empty());
    }
    assert(later.labels.to_set().contains(page_label(url)));
}

} // verus!
