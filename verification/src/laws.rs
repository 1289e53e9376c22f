//! Protocol laws: the guarantees the command/event protocol gives,
//! stated over the step function and the tab transitions and proved
//! from their definitions.

use vstd::prelude::*;
use crate::events::CommandModel;
use crate::events::EventModel;
use crate::processor::step;
use crate::tab::TabModel;
use crate::tab::back_enabled;
use crate::tab::back_model;
use crate::tab::forward_enabled;
use crate::tab::forward_model;
use crate::tab::navigate_events;
use crate::tab::navigate_model;
use crate::tab::refresh_enabled;
use crate::title::spec_title_from_url;

verus! {

/// A command naming a tab the registry does not hold — initialization
/// aside, which creates the tab — changes nothing and emits zero
/// events.
pub proof fn lemma_absent_tab_is_noop(m: Map<Seq<char>, TabModel>, c: CommandModel)
    requires
        !m.contains_key(c.tab_id()),
        !(c is Initialize),
    ensures
        step(m, c).0 == m,
        step(m, c).1 == Seq::<EventModel>::empty(),
{
    if c is Shutdown {
        assert(m.remove(c.tab_id()) =~= m);
    }
}

/// Initialization and shutdown emit zero events on any registry state.
pub proof fn lemma_initialize_shutdown_silent(m: Map<Seq<char>, TabModel>, tab_id: Seq<char>)
    ensures
        step(m, (CommandModel::Initialize { tab_id: tab_id })).1 == Seq::<EventModel>::empty(),
        step(m, (CommandModel::Shutdown { tab_id: tab_id })).1 == Seq::<EventModel>::empty(),
{
}

/// Navigation appends exactly one history entry — the entries up to
/// the cursor survive, the new URL follows them, and the cursor lands
/// on it.
pub proof fn lemma_navigate_appends_one(t: TabModel, url: Seq<char>, title: Seq<char>)
    requires
        t.wf(),
    ensures
        ({
            let t2 = navigate_model(t, url, title);
            &&& t2.wf()
            &&& t2.history.len() == (if t.history.len() == 0 {
                1int
            } else {
                t.cursor + 2
            })
            &&& t2.history.last() == url
            &&& t2.cursor == t2.history.len() - 1
            &&& t2.url == url
            &&& t2.title == title
        }),
{
}

/// The four navigation events come in their fixed order: load start,
/// title change, URL change, load complete.
pub proof fn lemma_navigate_event_order(tab_id: Seq<char>, url: Seq<char>, title: Seq<char>)
    ensures
        ({
            let es = navigate_events(tab_id, url, title);
            &&& es.len() == 4
            &&& es[0] == (EventModel::LoadStart { tab_id: tab_id, url: url })
            &&& es[1] == (EventModel::TitleChange { tab_id: tab_id, title: title })
            &&& es[2] == (EventModel::UrlChange { tab_id: tab_id, url: url })
            &&& es[3] == (EventModel::LoadComplete { tab_id: tab_id, url: url })
        }),
{
}

/// Back and forward keep the cursor inside the history bounds.
pub proof fn lemma_back_forward_bounds(t: TabModel)
    requires
        t.wf(),
    ensures
        back_enabled(t) ==> 0 <= back_model(t).cursor < t.history.len() && back_model(t).wf(),
        forward_enabled(t) ==> 0 <= forward_model(t).cursor < t.history.len() && forward_model(
            t,
        ).wf(),
{
}

/// At either boundary — cursor on the first entry for back, on the
/// last for forward, or no history at all — the move is a no-op with
/// zero events.
pub proof fn lemma_back_forward_boundary_noop(m: Map<Seq<char>, TabModel>, tab_id: Seq<char>)
    requires
        m.contains_key(tab_id),
    ensures
        !back_enabled(m[tab_id]) ==> step(m, (CommandModel::Back { tab_id: tab_id })) == (
        m,
        Seq::<EventModel>::empty(),
        ),
        !forward_enabled(m[tab_id]) ==> step(m, (CommandModel::Forward { tab_id: tab_id })) == (
        m,
        Seq::<EventModel>::empty(),
        ),
{
}

/// Navigating while the cursor sits before the end discards the whole
/// forward branch: only the entries up to the cursor survive, followed
/// by the new URL.
pub proof fn lemma_navigate_truncates_forward(t: TabModel, url: Seq<char>, title: Seq<char>)
    requires
        t.wf(),
        t.history.len() > 0,
    ensures
        navigate_model(t, url, title).history == t.history.take(t.cursor + 1).push(url),
        navigate_model(t, url, title).history.len() == t.cursor + 2,
{
}

/// Refresh on a tab that has never navigated is a no-op with zero
/// events.
pub proof fn lemma_refresh_blank_noop(m: Map<Seq<char>, TabModel>, tab_id: Seq<char>)
    requires
        m.contains_key(tab_id),
        m[tab_id].url.len() == 0,
    ensures
        step(m, (CommandModel::Refresh { tab_id: tab_id })) == (m, Seq::<EventModel>::empty()),
{
}

/// After a navigation, refresh re-emits the full four-event sequence
/// for the same URL, and appends one more history entry holding that
/// URL again: the chosen design re-runs the whole navigation
/// transformation rather than updating the last entry in place.
pub proof fn lemma_refresh_after_navigate(
    m: Map<Seq<char>, TabModel>,
    tab_id: Seq<char>,
    url: Seq<char>,
)
    requires
        m.contains_key(tab_id),
        url.len() > 0,
    ensures
        ({
            let m1 = step(m, (CommandModel::Navigate { tab_id: tab_id, url: url })).0;
            let r = step(m1, (CommandModel::Refresh { tab_id: tab_id }));
            &&& r.1 == navigate_events(tab_id, url, spec_title_from_url(url))
            &&& r.0[tab_id].history.len() == m1[tab_id].history.len() + 1
            &&& r.0[tab_id].history.last() == url
            &&& r.0[tab_id].url == url
        }),
{
    let t1 = navigate_model(m[tab_id], url, spec_title_from_url(url));
    assert(t1.history.take(t1.cursor + 1) =~= t1.history);
}

/// After shutdown the tab is gone, and any later command naming it —
/// initialization aside — is a no-op with zero events: the tab behaves
/// as never initialized.
pub proof fn lemma_shutdown_then_noop(m: Map<Seq<char>, TabModel>, c: CommandModel)
    requires
        !(c is Initialize),
    ensures
        ({
            let m1 = step(m, (CommandModel::Shutdown { tab_id: c.tab_id() })).0;
            &&& !m1.contains_key(c.tab_id())
            &&& step(m1, c).0 == m1
            &&& step(m1, c).1 == Seq::<EventModel>::empty()
        }),
{
    lemma_absent_tab_is_noop(m.remove(c.tab_id()), c);
}

/// A command reads and writes no tab but its own: every other id keeps
/// its presence and its state.
pub proof fn lemma_step_frame(m: Map<Seq<char>, TabModel>, c: CommandModel, k: Seq<char>)
    requires
        k != c.tab_id(),
    ensures
        step(m, c).0.contains_key(k) == m.contains_key(k),
        m.contains_key(k) ==> step(m, c).0[k] == m[k],
{
}

/// Commands on two distinct tab ids run independently: the second
/// command emits the same events whether or not the first ran, and the
/// two orders of execution end in the same registry.
pub proof fn lemma_distinct_tabs_independent(
    m: Map<Seq<char>, TabModel>,
    c1: CommandModel,
    c2: CommandModel,
)
    requires
        c1.tab_id() != c2.tab_id(),
    ensures
        step(step(m, c1).0, c2).1 == step(m, c2).1,
        step(step(m, c2).0, c1).1 == step(m, c1).1,
        step(step(m, c1).0, c2).0 == step(step(m, c2).0, c1).0,
{
    lemma_step_frame(m, c1, c2.tab_id());
    lemma_step_frame(m, c2, c1.tab_id());
    let a = step(step(m, c1).0, c2).0;
    let b = step(step(m, c2).0, c1).0;
    lemma_step_frame(step(m, c1).0, c2, c1.tab_id());
    lemma_step_frame(step(m, c2).0, c1, c2.tab_id());
    assert(a =~= b);
}

} // verus!
