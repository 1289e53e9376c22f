//! A single tab's navigation state, its mathematical model, and the
//! per-tab command transitions.

use vstd::prelude::*;
use crate::events::Event;
use crate::events::EventModel;
use crate::title::extract_title_from_url;
use crate::title::spec_title_from_url;

verus! {

/// Mathematical model of a tab: the strings as character sequences, the
/// cursor as an unbounded integer.
pub struct TabModel {
    pub url: Seq<char>,
    pub title: Seq<char>,
    pub history: Seq<Seq<char>>,
    pub cursor: int,
}

impl TabModel {
    /// A freshly created tab: no history, empty URL, sentinel title.
    pub open spec fn init() -> TabModel {
        TabModel { url: Seq::empty(), title: new_tab_title(), history: Seq::empty(), cursor: 0 }
    }

    /// Well-formedness: the cursor points at the currently loaded history
    /// entry, and a tab with no history has an empty URL.
    pub open spec fn wf(self) -> bool {
        if self.history.len() == 0 {
            self.cursor == 0 && self.url.len() == 0
        } else {
            0 <= self.cursor < self.history.len() && self.url == self.history[self.cursor]
        }
    }
}

/// The sentinel title a tab carries until a navigation resolves one.
pub open spec fn new_tab_title() -> Seq<char> {
    "New Tab"@
}

/// Navigation: any forward branch beyond the cursor is discarded, the
/// URL is appended, and the cursor moves to the new last entry.
pub open spec fn navigate_model(t: TabModel, url: Seq<char>, title: Seq<char>) -> TabModel {
    let kept = if t.cursor < t.history.len() {
        t.history.take(t.cursor + 1)
    } else {
        t.history
    };
    TabModel { url: url, title: title, history: kept.push(url), cursor: kept.len() as int }
}

/// The four events a navigation emits, in their fixed order.
pub open spec fn navigate_events(tab_id: Seq<char>, url: Seq<char>, title: Seq<char>) -> Seq<
    EventModel,
> {
    seq![
        EventModel::LoadStart { tab_id: tab_id, url: url },
        EventModel::TitleChange { tab_id: tab_id, title: title },
        EventModel::UrlChange { tab_id: tab_id, url: url },
        EventModel::LoadComplete { tab_id: tab_id, url: url },
    ]
}

/// A backward step is possible only when the cursor is off the first
/// entry.
pub open spec fn back_enabled(t: TabModel) -> bool {
    t.cursor > 0
}

/// Moving back: the cursor steps to the previous entry, which becomes
/// the current URL; history itself is untouched.
pub open spec fn back_model(t: TabModel) -> TabModel {
    TabModel { url: t.history[t.cursor - 1], cursor: t.cursor - 1, ..t }
}

/// A forward step is possible only when the cursor is off the last
/// entry.
pub open spec fn forward_enabled(t: TabModel) -> bool {
    t.cursor < t.history.len() - 1
}

/// Moving forward: the cursor steps to the next entry, which becomes
/// the current URL; history itself is untouched.
pub open spec fn forward_model(t: TabModel) -> TabModel {
    TabModel { url: t.history[t.cursor + 1], cursor: t.cursor + 1, ..t }
}

/// The three events a history move (back or forward) emits, in their
/// fixed order.
pub open spec fn move_events(tab_id: Seq<char>, url: Seq<char>) -> Seq<EventModel> {
    seq![
        EventModel::UrlChange { tab_id: tab_id, url: url },
        EventModel::LoadStart { tab_id: tab_id, url: url },
        EventModel::LoadComplete { tab_id: tab_id, url: url },
    ]
}

/// A refresh is possible only once a navigation has set a current URL.
pub open spec fn refresh_enabled(t: TabModel) -> bool {
    t.url.len() > 0
}

/// Refreshing re-runs the full navigation transformation on the current
/// URL. The cursor already sits at the last entry, so nothing is
/// truncated and the same URL is appended once more: a deliberate
/// duplicate entry, mirroring a re-navigation to the same address.
pub open spec fn refresh_model(t: TabModel) -> TabModel {
    navigate_model(t, t.url, spec_title_from_url(t.url))
}

/// The state of one tab: current URL, resolved title, visited URLs in
/// order, and the index of the entry currently loaded.
pub struct Tab {
    pub url: String,
    pub title: String,
    pub history: Vec<String>,
    pub cursor: usize,
}

impl View for Tab {
    type V = TabModel;

    open spec fn view(&self) -> TabModel {
        TabModel {
            url: self.url@,
            title: self.title@,
            history: self.history.deep_view(),
            cursor: self.cursor as int,
        }
    }
}

impl Tab {
    /// A fresh tab, as created by initialization.
    pub fn new() -> (t: Tab)
        ensures
            t@ == TabModel::init(),
            t@.wf(),
    {
        let t = Tab {
            url: String::new(),
            title: String::from_str("New Tab"),
            history: Vec::new(),
            cursor: 0,
        };
        proof {
            assert(t@.history =~= Seq::<Seq<char>>::empty());
            assert(t@ =~= TabModel::init());
        }
        t
    }

    /// Apply a navigation: truncate any forward branch, append the URL,
    /// move the cursor to it, resolve the title, and emit the four
    /// lifecycle events in their fixed order.
    pub fn navigate(&mut self, tab_id: &String, url: String) -> (events: Vec<Event>)
        requires
            old(self)@.wf(),
        ensures
            final(self)@ == navigate_model(old(self)@, url@, spec_title_from_url(url@)),
            final(self)@.wf(),
            events.deep_view() == navigate_events(tab_id@, url@, spec_title_from_url(url@)),
    {
        let ghost t0: TabModel = self@;
        if self.cursor < self.history.len() {
            let keep: usize = self.cursor + 1;
            self.history.truncate(keep);
            proof {
                assert(self.history.deep_view() =~= t0.history.take(t0.cursor + 1));
            }
        }
        self.history.push(url.clone());
        self.cursor = self.history.len() - 1;
        self.url = url.clone();

        let mut events: Vec<Event> = Vec::new();
        events.push(Event::LoadStart { tab_id: tab_id.clone(), url: url.clone() });

        let title = extract_title_from_url(url.as_str());
        self.title = title.clone();
        events.push(Event::TitleChange { tab_id: tab_id.clone(), title });
        events.push(Event::UrlChange { tab_id: tab_id.clone(), url: url.clone() });
        events.push(Event::LoadComplete { tab_id: tab_id.clone(), url });

        proof {
            let m = navigate_model(t0, self.url@, spec_title_from_url(self.url@));
            assert(self@.history =~= m.history);
            assert(self@ =~= m);
            assert(events.deep_view() =~= navigate_events(
                tab_id@,
                self.url@,
                spec_title_from_url(self.url@),
            ));
        }
        events
    }

    /// Step back in history when the cursor is off the first entry,
    /// emitting the three move events; a no-op at the boundary.
    pub fn back(&mut self, tab_id: &String) -> (events: Vec<Event>)
        requires
            old(self)@.wf(),
        ensures
            final(self)@.wf(),
            back_enabled(old(self)@) ==> final(self)@ == back_model(old(self)@)
                && events.deep_view() == move_events(tab_id@, back_model(old(self)@).url),
            !back_enabled(old(self)@) ==> final(self)@ == old(self)@ && events@.len() == 0,
    {
        let ghost t0: TabModel = self@;
        let mut events: Vec<Event> = Vec::new();
        if self.cursor > 0 {
            self.cursor = self.cursor - 1;
            let url: String = self.history[self.cursor].clone();
            self.url = url.clone();

            events.push(Event::UrlChange { tab_id: tab_id.clone(), url: url.clone() });
            events.push(Event::LoadStart { tab_id: tab_id.clone(), url: url.clone() });
            events.push(Event::LoadComplete { tab_id: tab_id.clone(), url });

            proof {
                assert(self@ =~= back_model(t0));
                assert(events.deep_view() =~= move_events(tab_id@, back_model(t0).url));
            }
        }
        events
    }

    /// Step forward in history when the cursor is off the last entry,
    /// emitting the three move events; a no-op at the boundary.
    pub fn forward(&mut self, tab_id: &String) -> (events: Vec<Event>)
        requires
            old(self)@.wf(),
        ensures
            final(self)@.wf(),
            forward_enabled(old(self)@) ==> final(self)@ == forward_model(old(self)@)
                && events.deep_view() == move_events(tab_id@, forward_model(old(self)@).url),
            !forward_enabled(old(self)@) ==> final(self)@ == old(self)@ && events@.len() == 0,
    {
        let ghost t0: TabModel = self@;
        let mut events: Vec<Event> = Vec::new();
        let n: usize = self.history.len();
        proof {
            assert(t0.history.len() == self.history@.len());
        }
        if self.cursor < n && self.cursor + 1 < n {
            self.cursor = self.cursor + 1;
            let url: String = self.history[self.cursor].clone();
            self.url = url.clone();

            events.push(Event::UrlChange { tab_id: tab_id.clone(), url: url.clone() });
            events.push(Event::LoadStart { tab_id: tab_id.clone(), url: url.clone() });
            events.push(Event::LoadComplete { tab_id: tab_id.clone(), url });

            proof {
                assert(self@ =~= forward_model(t0));
                assert(events.deep_view() =~= move_events(tab_id@, forward_model(t0).url));
            }
        }
        events
    }

    /// Re-run the navigation transformation on the current URL; a no-op
    /// while the tab has never navigated.
    pub fn refresh(&mut self, tab_id: &String) -> (events: Vec<Event>)
        requires
            old(self)@.wf(),
        ensures
            final(self)@.wf(),
            refresh_enabled(old(self)@) ==> final(self)@ == refresh_model(old(self)@)
                && events.deep_view() == navigate_events(
                tab_id@,
                old(self)@.url,
                spec_title_from_url(old(self)@.url),
            ),
            !refresh_enabled(old(self)@) ==> final(self)@ == old(self)@ && events@.len() == 0,
    {
        if self.url.as_str().is_empty() {
            Vec::new()
        } else {
            let url = self.url.clone();
            self.navigate(tab_id, url)
        }
    }
}

} // verus!
