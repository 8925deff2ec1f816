//! Properties of the commands on pages: selecting and opening addresses, and loading pages again.
use crate::address::{is_web_scheme, refusal};
use crate::command::Platform;
use crate::effect::{pages_after, visible_after, EffectView, NoticeView};
use crate::error::LauncherErrorView;
use crate::pages::{after_creation, after_load, ensure_outcome, hide_pages,
    law_hiding_hides_every_page, law_placing_places_every_page, page_label, place_pages, HostView};
use crate::service_laws::{none_of, once, only_at};
use crate::state::{end_effects, AppStateView, SpawnReplyView};
use crate::window::{reaction, AppEventView};
use vstd::prelude::*;

verus! {

/// The address of the selected page: what the user selected, and the local web service where that
/// cannot be read.
pub proof fn law_selected_address(state: AppStateView)
    ensures
        !state.target_poisoned ==> state.page_target() == state.target,
        state.target_poisoned ==> state.page_target() == "http://127.0.0.1:3080"@,
{
}

/// An address is refused exactly where it is no URL, with the parser's own reason, or where its
/// scheme is another than http and https.
pub proof fn law_refusals(parsed: Result<Seq<char>, Seq<char>>)
    ensures
        match parsed {
            Err(reason) => refusal(parsed) == Some(LauncherErrorView::BadAddress(reason)),
            Ok(scheme) => {
                &&& scheme == "http"@ || scheme == "https"@ ==> refusal(parsed) is None
                &&& scheme != "http"@ && scheme != "https"@ ==> refusal(parsed) == Some(
                    LauncherErrorView::UnsupportedScheme,
                )
            },
        },
        parsed matches Ok(scheme) ==> (is_web_scheme(scheme) <==> refusal(parsed) is None),
{
}

/// Selecting an address changes nothing but the selected address, and that only where the address
/// is accepted and the lock is sound; the reason for refusing the address goes before a poisoned
/// lock. The state decides nothing else.
pub proof fn law_selection_changes_only_the_address(
    state: AppStateView,
    address: Seq<char>,
    parsed: Result<Seq<char>, Seq<char>>,
)
    ensures
        ({
            let now = state.after_select(address, parsed);
            let accepted = parsed == Ok::<_, Seq<char>>("http"@) || parsed == Ok::<_, Seq<char>>(
                "https"@,
            );
            &&& now.target == (if accepted && !state.target_poisoned {
                address
            } else {
                state.target
            })
            &&& now.child == state.child
            &&& now.ready == state.ready
            &&& now.child_poisoned == state.child_poisoned
            &&& now.target_poisoned == state.target_poisoned
            &&& state.select_refusal(parsed) is None <==> accepted && !state.target_poisoned
            &&& !accepted ==> state.select_refusal(parsed) == refusal(parsed)
            &&& accepted && state.target_poisoned ==> state.select_refusal(parsed) == Some(
                LauncherErrorView::StateLock,
            )
        }),
{
}

/// Making sure of a page creates it exactly where there is none yet, there is a main window to put
/// it into and its address is a URL; it is created under its own label and on its own address. It
/// fails exactly where the page is missing and there is no main window.
pub proof fn law_page_is_created_on_its_address(
    url: Seq<char>,
    host: HostView,
    parsed: Result<Seq<char>, Seq<char>>,
)
    ensures
        ({
            let known = host.labels.contains(page_label(url));
            let outcome = ensure_outcome(url, host, parsed);
            &&& outcome is Err <==> !known && !host.main_window
            &&& outcome matches Err(error) ==> error is NoMainWindow
            &&& outcome matches Ok(effects) ==> {
                &&& effects.len() == (if !known && parsed is Ok {
                    1int
                } else {
                    0
                })
                &&& forall|i: int|
                    0 <= i < effects.len() ==> (#[trigger] effects[i] matches EffectView::Create {
                        label,
                        url: loaded,
                    } && loaded == url && label == page_label(url))
            }
        }),
{
}

/// Once the web service is ready, the page of the selected address is created on that address,
/// exactly where it does not exist yet and can be created, and nothing else is done; it makes no
/// difference whether a child process runs.
pub proof fn law_ready_creates_the_selected_page(
    state: AppStateView,
    host: HostView,
    parsed: Result<Seq<char>, Seq<char>>,
)
    ensures
        ({
            let effects = state.open_target(host, parsed);
            let url = if state.target_poisoned {
                "http://127.0.0.1:3080"@
            } else {
                state.target
            };
            &&& effects.len() == (if !host.labels.contains(page_label(url)) && host.main_window
                && parsed is Ok {
                1int
            } else {
                0
            })
            &&& forall|i: int|
                0 <= i < effects.len() ==> (#[trigger] effects[i] matches EffectView::Create {
                    label,
                    url: loaded,
                } && loaded == url && label == page_label(url))
        }),
{
}

/// A refresh succeeds exactly where the page of the selected address exists and the lock is sound.
pub proof fn law_refresh_needs_the_selected_page(state: AppStateView, host: HostView)
    ensures
        state.target_poisoned ==> state.reload(host) == Err::<Seq<EffectView>, _>(
            LauncherErrorView::StateLock,
        ),
        !state.target_poisoned && !host.labels.contains(page_label(state.target)) ==> state.reload(
            host,
        ) == Err::<Seq<EffectView>, _>(LauncherErrorView::PageNotLoaded),
        !state.target_poisoned && host.labels.contains(page_label(state.target)) ==> state.reload(
            host,
        ) is Ok,
{
}

/// A refresh that succeeds makes exactly one page load again, having hidden it first, and does
/// nothing else: the page that it hides and the page that loads again are both the page of the
/// selected address.
pub proof fn law_refresh_reloads_the_selected_page(
    state: AppStateView,
    host: HostView,
    effects: Seq<EffectView>,
)
    requires
        state.reload(host) == Ok::<_, LauncherErrorView>(effects),
    ensures
        effects.len() == 2,
        effects[0] matches EffectView::Hide(label) && label == page_label(state.target),
        effects[1] matches EffectView::Reload(label) && label == page_label(state.target),
{
}

/// Opening an address answers by whether its page was there: it is refused as selecting it is, and
/// fails for want of a main window exactly where the page has yet to be created. What was before
/// selected, and whether a child process runs or is ready, makes no difference to what is done.
pub proof fn law_opening_is_answered(
    a: AppStateView,
    b: AppStateView,
    address: Seq<char>,
    host: HostView,
    parsed: Result<Seq<char>, Seq<char>>,
)
    ensures
        ({
            let reply = a.open(address, host, parsed);
            let known = host.labels.contains(page_label(address));
            &&& a.select_refusal(parsed) matches Some(error) ==> reply.result == Err::<bool, _>(
                error,
            ) && reply.effects.len() == 0
            &&& a.select_refusal(parsed) is None ==> {
                &&& known ==> reply.result == Ok::<_, LauncherErrorView>(true)
                &&& !known && host.main_window ==> reply.result == Ok::<_, LauncherErrorView>(false)
                &&& !known && !host.main_window ==> reply.result == Err::<bool, _>(
                    LauncherErrorView::NoMainWindow,
                )
            }
            &&& a.target_poisoned == b.target_poisoned ==> reply == b.open(address, host, parsed)
        }),
{
}

/// Opening an address hides every page first. Where the page of that address was there, it is then
/// shown, given the focus and announced; where it was not, it is created on that very address.
/// No page of another address is shown, given the focus or created, whatever was selected before.
pub proof fn law_opening_shows_its_own_page(
    state: AppStateView,
    address: Seq<char>,
    host: HostView,
    parsed: Result<Seq<char>, Seq<char>>,
)
    requires
        state.select_refusal(parsed) is None,
    ensures
        ({
            let effects = state.open(address, host, parsed).effects;
            let page = page_label(address);
            let known = host.labels.contains(page);
            let n = effects.len() as int;
            &&& forall|label: Seq<char>|
                host.labels.contains(label) && #[trigger] "dsh-"@.is_prefix_of(label)
                    ==> effects.contains(EffectView::Hide(label))
            &&& forall|i: int|
                0 <= i < n ==> match #[trigger] effects[i] {
                    EffectView::Hide(label) => host.labels.contains(label) && "dsh-"@.is_prefix_of(
                        label,
                    ),
                    EffectView::Show(label) => known && label == page && i == n - 3,
                    EffectView::Focus(label) => known && label == page && i == n - 2,
                    EffectView::Emit(notice) => known && notice is PageShown && i == n - 1,
                    EffectView::Create { label, url } => !known && label == page && url == address
                        && i == n - 1,
                    _ => false,
                }
            &&& known ==> n >= 3 && effects[n - 3] is Show && effects[n - 2] is Focus && effects[n
                - 1] is Emit
            &&& !known && host.main_window ==> n >= 1 && effects[n - 1] is Create
            &&& !known && !host.main_window ==> none_of(effects, |e: EffectView| e is Create)
        }),
{
    let effects = state.open(address, host, parsed).effects;
    let hides = hide_pages(host.labels);
    law_hiding_hides_every_page(host.labels);
    assert forall|i: int| 0 <= i < hides.len() implies #[trigger] effects[i] == hides[i] by {}
    assert forall|label: Seq<char>|
        host.labels.contains(label) && #[trigger] "dsh-"@.is_prefix_of(
            label,
        ) implies effects.contains(EffectView::Hide(label)) by {
        assert(hides.contains(EffectView::Hide(label)));
        let i = choose|i: int| 0 <= i < hides.len() && hides[i] == EffectView::Hide(label);
        assert(effects[i] == hides[i]);
    }
}

/// Every page among the effects is created under the label of the address that it is created on.
pub open spec fn creates_under_own_labels(effects: Seq<EffectView>) -> bool {
    forall|i: int|
        0 <= i < effects.len() ==> (#[trigger] effects[i] matches EffectView::Create { label, url }
            ==> label == page_label(url))
}

/// No command and no event ever creates a page under the label of another address.
pub proof fn law_pages_are_created_under_own_labels(
    state: AppStateView,
    platform: Platform,
    host: HostView,
    address: Seq<char>,
    parsed: Result<Seq<char>, Seq<char>>,
    reply: SpawnReplyView,
    line: Seq<char>,
    code: Option<i32>,
    event: AppEventView,
    flag: bool,
)
    ensures
        state.start(platform) matches Ok(effects) ==> creates_under_own_labels(effects),
        creates_under_own_labels(state.spawn_effects(platform, reply)),
        state.restart() matches Ok(effects) ==> creates_under_own_labels(effects),
        creates_under_own_labels(state.relaunch_effects(host, platform)),
        state.reload(host) matches Ok(effects) ==> creates_under_own_labels(effects),
        creates_under_own_labels(state.open(address, host, parsed).effects),
        creates_under_own_labels(state.open_target(host, parsed)),
        ensure_outcome(address, host, parsed) matches Ok(effects) ==> creates_under_own_labels(
            effects,
        ),
        creates_under_own_labels(state.line_effects(line)),
        creates_under_own_labels(end_effects(code, host)),
        creates_under_own_labels(state.exit_effects()),
        creates_under_own_labels(reaction(state, event, host)),
        creates_under_own_labels(hide_pages(host.labels)),
        creates_under_own_labels(place_pages(host.labels)),
        creates_under_own_labels(after_creation(address, flag)),
        creates_under_own_labels(after_load(address, flag)),
{
    law_hiding_hides_every_page(host.labels);
    law_placing_places_every_page(host.labels);
    if state.select_refusal(parsed) is None {
        law_opening_shows_its_own_page(state, address, host, parsed);
    }
    crate::service_laws::law_restart_uncovers_the_terminal(state, host, platform);
    crate::service_laws::law_end_is_reported_with_its_code(code, host);
}

/// An address that was opened stays the page that the other commands mean: a refresh reloads the
/// page that opening it showed or created, and a restart drops that page and, once the service is
/// ready, creates it again on the same address.
pub proof fn law_opened_page_is_the_selected_one(
    state: AppStateView,
    address: Seq<char>,
    host: HostView,
    parsed: Result<Seq<char>, Seq<char>>,
    later: HostView,
    platform: Platform,
)
    requires
        state.select_refusal(parsed) is None,
        later.labels.contains(page_label(address)),
    ensures
        ({
            let now = state.after_select(address, parsed);
            let page = page_label(address);
            &&& now.reload(later) matches Ok(effects) && effects.contains(EffectView::Reload(page))
            &&& now.relaunch_effects(later, platform).contains(EffectView::Close(page))
            &&& now.open_target(later, parsed).len() == 0
        }),
{
    let now = state.after_select(address, parsed);
    law_refresh_needs_the_selected_page(now, later);
    law_refresh_reloads_the_selected_page(now, later, now.reload(later)->Ok_0);
    assert(now.reload(later)->Ok_0[1] == EffectView::Reload(page_label(address)));
    crate::service_laws::law_restart_uncovers_the_terminal(now, later, platform);
    let effects = now.relaunch_effects(later, platform);
    assert(effects[effects.len() - 2] == EffectView::Close(page_label(address)));
}

/// A new page stays hidden until it has loaded; a page that has loaded is shown, and that is
/// announced once. Nothing is done to any other page, and neither creation that failed nor loading
/// that has only begun does anything.
pub proof fn law_page_shows_itself_once_loaded(
    page: Seq<char>,
    visible: Set<Seq<char>>,
    pages: Set<Seq<char>>,
)
    ensures
        visible_after(visible, after_creation(page, true)) == visible.remove(page),
        visible_after(visible, after_load(page, true)) == visible.insert(page),
        pages_after(pages, after_creation(page, true)) == pages,
        pages_after(pages, after_load(page, true)) == pages,
        once(after_load(page, true), |e: EffectView| e is Emit),
        after_load(page, true).len() == 2,
        after_load(page, true).last() == EffectView::Emit(NoticeView::PageShown),
        after_creation(page, true).len() == 1,
        after_creation(page, false).len() == 0,
        after_load(page, false).len() == 0,
{
    reveal_with_fuel(pages_after, 3);
    reveal_with_fuel(visible_after, 3);
    let made = after_creation(page, true);
    let loaded = after_load(page, true);
    assert(made.drop_last() =~= Seq::empty());
    assert(loaded.drop_last() =~= seq![EffectView::Show(page)]);
    assert(loaded.drop_last().drop_last() =~= Seq::empty());
    assert(only_at(loaded, 1, |e: EffectView| e is Emit));
}

/// Selecting or opening an address leaves the web service alone.
pub proof fn law_selection_leaves_the_service_alone(
    state: AppStateView,
    address: Seq<char>,
    host: HostView,
    parsed: Result<Seq<char>, Seq<char>>,
)
    ensures
        none_of(
            state.open(address, host, parsed).effects,
            |e: EffectView| e is Launch || e is Terminate || e is Close || e is Quit,
        ),
        state.after_select(address, parsed).start(Platform::Unix) == state.start(Platform::Unix),
        state.after_select(address, parsed).start(Platform::Windows) == state.start(
            Platform::Windows,
        ),
        state.after_select(address, parsed).restart() == state.restart(),
{
    law_hiding_hides_every_page(host.labels);
    if state.select_refusal(parsed) is None {
        law_opening_shows_its_own_page(state, address, host, parsed);
    }
}

} // verus!
