//! The command processor: each inbound command as a transformation of
//! registry state into an ordered list of outbound events.

use vstd::prelude::*;
use crate::events::Command;
use crate::events::CommandModel;
use crate::events::Event;
use crate::events::EventModel;
use crate::registry::SessionRegistry;
use crate::tab::TabModel;
use crate::tab::back_enabled;
use crate::tab::back_model;
use crate::tab::forward_enabled;
use crate::tab::forward_model;
use crate::tab::move_events;
use crate::tab::navigate_events;
use crate::tab::navigate_model;
use crate::tab::refresh_enabled;
use crate::tab::refresh_model;
use crate::title::spec_title_from_url;

verus! {

/// What one command does to the whole registry: the tab map afterwards,
/// paired with the events emitted, in order. Commands naming an absent
/// tab leave the map unchanged and emit nothing; so do back, forward
/// and refresh at their boundaries.
pub open spec fn step(m: Map<Seq<char>, TabModel>, c: CommandModel) -> (Map<
    Seq<char>,
    TabModel,
>, Seq<EventModel>) {
    match c {
        CommandModel::Initialize { tab_id } => (
            m.insert(tab_id, TabModel::init()),
            Seq::empty(),
        ),
        CommandModel::Navigate { tab_id, url } => if m.contains_key(tab_id) {
            (
                m.insert(tab_id, navigate_model(m[tab_id], url, spec_title_from_url(url))),
                navigate_events(tab_id, url, spec_title_from_url(url)),
            )
        } else {
            (m, Seq::empty())
        },
        CommandModel::Back { tab_id } => if m.contains_key(tab_id) && back_enabled(m[tab_id]) {
            (
                m.insert(tab_id, back_model(m[tab_id])),
                move_events(tab_id, back_model(m[tab_id]).url),
            )
        } else {
            (m, Seq::empty())
        },
        CommandModel::Forward { tab_id } => if m.contains_key(tab_id) && forward_enabled(
            m[tab_id],
        ) {
            (
                m.insert(tab_id, forward_model(m[tab_id])),
                move_events(tab_id, forward_model(m[tab_id]).url),
            )
        } else {
            (m, Seq::empty())
        },
        CommandModel::Refresh { tab_id } => if m.contains_key(tab_id) && refresh_enabled(
            m[tab_id],
        ) {
            (
                m.insert(tab_id, refresh_model(m[tab_id])),
                navigate_events(tab_id, m[tab_id].url, spec_title_from_url(m[tab_id].url)),
            )
        } else {
            (m, Seq::empty())
        },
        CommandModel::Shutdown { tab_id } => (m.remove(tab_id), Seq::empty()),
    }
}

/// Owns the session registry and implements one method per command.
pub struct ServoProcessManager {
    tabs: SessionRegistry,
}

impl View for ServoProcessManager {
    type V = Map<Seq<char>, TabModel>;

    closed spec fn view(&self) -> Map<Seq<char>, TabModel> {
        self.tabs@
    }
}

impl ServoProcessManager {
    /// Internal shape: the registry holds unique ids and well-formed
    /// tabs.
    pub closed spec fn wf(&self) -> bool {
        self.tabs.wf()
    }

    /// A manager with no tabs.
    pub fn new() -> (m: ServoProcessManager)
        ensures
            m.wf(),
            m@ == Map::<Seq<char>, TabModel>::empty(),
    {
        ServoProcessManager { tabs: SessionRegistry::new() }
    }

    /// Create (or reset) the named tab. Emits no events.
    pub fn initialize_tab(&mut self, tab_id: String)
        requires
            old(self).wf(),
        ensures
            final(self).wf(),
            final(self)@ == old(self)@.insert(tab_id@, TabModel::init()),
    {
        self.tabs.create(tab_id);
    }

    /// Navigate the named tab to a URL, emitting the four navigation
    /// events; a no-op with zero events when the tab is absent.
    pub fn navigate(&mut self, tab_id: String, url: String) -> (events: Vec<Event>)
        requires
            old(self).wf(),
        ensures
            final(self).wf(),
            old(self)@.contains_key(tab_id@) ==> final(self)@ == old(self)@.insert(
                tab_id@,
                navigate_model(old(self)@[tab_id@], url@, spec_title_from_url(url@)),
            ) && events.deep_view() == navigate_events(tab_id@, url@, spec_title_from_url(url@)),
            !old(self)@.contains_key(tab_id@) ==> final(self)@ == old(self)@ && events@.len() == 0,
    {
        let ghost gid: Seq<char> = tab_id@;
        let ghost gurl: Seq<char> = url@;
        match self.tabs.take(&tab_id) {
            Some(mut tab) => {
                let events = tab.navigate(&tab_id, url);
                self.tabs.put(tab_id, tab);
                proof {
                    let m = navigate_model(old(self)@[gid], gurl, spec_title_from_url(gurl));
                    assert(old(self)@.remove(gid).insert(gid, m) =~= old(self)@.insert(gid, m));
                }
                events
            },
            None => Vec::new(),
        }
    }

    /// Step the named tab back in history, emitting the three move
    /// events; a no-op with zero events when the tab is absent or its
    /// cursor is already at the first entry.
    pub fn go_back(&mut self, tab_id: String) -> (events: Vec<Event>)
        requires
            old(self).wf(),
        ensures
            final(self).wf(),
            old(self)@.contains_key(tab_id@) && back_enabled(old(self)@[tab_id@]) ==> final(self)@ == old(self)@.insert(tab_id@, back_model(old(self)@[tab_id@]))
                && events.deep_view() == move_events(tab_id@, back_model(old(self)@[tab_id@]).url),
            !(old(self)@.contains_key(tab_id@) && back_enabled(old(self)@[tab_id@])) ==> final(self)@ == old(self)@ && events@.len() == 0,
    {
        let ghost gid: Seq<char> = tab_id@;
        match self.tabs.take(&tab_id) {
            Some(mut tab) => {
                let events = tab.back(&tab_id);
                self.tabs.put(tab_id, tab);
                proof {
                    if back_enabled(old(self)@[gid]) {
                        let m = back_model(old(self)@[gid]);
                        assert(old(self)@.remove(gid).insert(gid, m) =~= old(self)@.insert(
                            gid,
                            m,
                        ));
                    } else {
                        assert(old(self)@.remove(gid).insert(gid, old(self)@[gid]) =~= old(self)@);
                    }
                }
                events
            },
            None => Vec::new(),
        }
    }

    /// Step the named tab forward in history, emitting the three move
    /// events; a no-op with zero events when the tab is absent or its
    /// cursor is already at the last entry.
    pub fn go_forward(&mut self, tab_id: String) -> (events: Vec<Event>)
        requires
            old(self).wf(),
        ensures
            final(self).wf(),
            old(self)@.contains_key(tab_id@) && forward_enabled(old(self)@[tab_id@]) ==> final(self)@ == old(self)@.insert(tab_id@, forward_model(old(self)@[tab_id@]))
                && events.deep_view() == move_events(
                tab_id@,
                forward_model(old(self)@[tab_id@]).url,
            ),
            !(old(self)@.contains_key(tab_id@) && forward_enabled(old(self)@[tab_id@])) ==> final(self)@ == old(self)@ && events@.len() == 0,
    {
        let ghost gid: Seq<char> = tab_id@;
        match self.tabs.take(&tab_id) {
            Some(mut tab) => {
                let events = tab.forward(&tab_id);
                self.tabs.put(tab_id, tab);
                proof {
                    if forward_enabled(old(self)@[gid]) {
                        let m = forward_model(old(self)@[gid]);
                        assert(old(self)@.remove(gid).insert(gid, m) =~= old(self)@.insert(
                            gid,
                            m,
                        ));
                    } else {
                        assert(old(self)@.remove(gid).insert(gid, old(self)@[gid]) =~= old(self)@);
                    }
                }
                events
            },
            None => Vec::new(),
        }
    }

    /// Re-run the navigation transformation on the named tab's current
    /// URL, emitting the four navigation events; a no-op with zero
    /// events when the tab is absent or has never navigated.
    pub fn refresh(&mut self, tab_id: String) -> (events: Vec<Event>)
        requires
            old(self).wf(),
        ensures
            final(self).wf(),
            old(self)@.contains_key(tab_id@) && refresh_enabled(old(self)@[tab_id@]) ==> final(self)@ == old(self)@.insert(tab_id@, refresh_model(old(self)@[tab_id@]))
                && events.deep_view() == navigate_events(
                tab_id@,
                old(self)@[tab_id@].url,
                spec_title_from_url(old(self)@[tab_id@].url),
            ),
            !(old(self)@.contains_key(tab_id@) && refresh_enabled(old(self)@[tab_id@])) ==> final(self)@ == old(self)@ && events@.len() == 0,
    {
        let ghost gid: Seq<char> = tab_id@;
        match self.tabs.take(&tab_id) {
            Some(mut tab) => {
                let events = tab.refresh(&tab_id);
                self.tabs.put(tab_id, tab);
                proof {
                    if refresh_enabled(old(self)@[gid]) {
                        let m = refresh_model(old(self)@[gid]);
                        assert(old(self)@.remove(gid).insert(gid, m) =~= old(self)@.insert(
                            gid,
                            m,
                        ));
                    } else {
                        assert(old(self)@.remove(gid).insert(gid, old(self)@[gid]) =~= old(self)@);
                    }
                }
                events
            },
            None => Vec::new(),
        }
    }

    /// Remove the named tab. Emits no events; a no-op when absent.
    pub fn shutdown_tab(&mut self, tab_id: String)
        requires
            old(self).wf(),
        ensures
            final(self).wf(),
            final(self)@ == old(self)@.remove(tab_id@),
    {
        self.tabs.remove(&tab_id);
    }

    /// Dispatch one inbound command, returning the events it emits in
    /// order; the whole transformation is the `step` function.
    pub fn process(&mut self, cmd: Command) -> (events: Vec<Event>)
        requires
            old(self).wf(),
        ensures
            final(self).wf(),
            final(self)@ == step(old(self)@, cmd@).0,
            events.deep_view() == step(old(self)@, cmd@).1,
    {
        let events: Vec<Event> = match cmd {
            Command::Initialize { tab_id } => {
                self.initialize_tab(tab_id);
                Vec::new()
            },
            Command::Navigate { tab_id, url } => self.navigate(tab_id, url),
            Command::Back { tab_id } => self.go_back(tab_id),
            Command::Forward { tab_id } => self.go_forward(tab_id),
            Command::Refresh { tab_id } => self.refresh(tab_id),
            Command::Shutdown { tab_id } => {
                self.shutdown_tab(tab_id);
                Vec::new()
            },
        };
        proof {
            if events@.len() == 0 {
                assert(events.deep_view() =~= Seq::<EventModel>::empty());
            }
        }
        events
    }

    /// Whether the id names a live tab.
    pub fn has_tab(&self, tab_id: &String) -> (r: bool)
        requires
            self.wf(),
        ensures
            r == self@.contains_key(tab_id@),
    {
        self.tabs.contains(tab_id)
    }

    /// The named tab's current URL; None when the tab is absent.
    pub fn current_url(&self, tab_id: &String) -> (r: Option<String>)
        requires
            self.wf(),
        ensures
            self@.contains_key(tab_id@) ==> (r matches Some(u) && u@ == self@[tab_id@].url),
            !self@.contains_key(tab_id@) ==> r is None,
    {
        match self.tabs.get(tab_id) {
            Some(t) => Some(t.url.clone()),
            None => None,
        }
    }

    /// The named tab's current title; None when the tab is absent.
    pub fn current_title(&self, tab_id: &String) -> (r: Option<String>)
        requires
            self.wf(),
        ensures
            self@.contains_key(tab_id@) ==> (r matches Some(u) && u@ == self@[tab_id@].title),
            !self@.contains_key(tab_id@) ==> r is None,
    {
        match self.tabs.get(tab_id) {
            Some(t) => Some(t.title.clone()),
            None => None,
        }
    }

    /// How many entries the named tab's history holds; None when the
    /// tab is absent.
    pub fn history_len(&self, tab_id: &String) -> (r: Option<usize>)
        requires
            self.wf(),
        ensures
            self@.contains_key(tab_id@) ==> (r matches Some(n) && n == self@[tab_id@].history.len()),
            !self@.contains_key(tab_id@) ==> r is None,
    {
        match self.tabs.get(tab_id) {
            Some(t) => Some(t.history.len()),
            None => None,
        }
    }

    /// The named tab's history cursor; None when the tab is absent.
    pub fn history_cursor(&self, tab_id: &String) -> (r: Option<usize>)
        requires
            self.wf(),
        ensures
            self@.contains_key(tab_id@) ==> (r matches Some(n) && n == self@[tab_id@].cursor),
            !self@.contains_key(tab_id@) ==> r is None,
    {
        match self.tabs.get(tab_id) {
            Some(t) => Some(t.cursor),
            None => None,
        }
    }

    /// The history entry of the named tab at an index; None when the
    /// tab is absent or the index is out of range.
    pub fn history_entry(&self, tab_id: &String, i: usize) -> (r: Option<String>)
        requires
            self.wf(),
        ensures
            self@.contains_key(tab_id@) && i < self@[tab_id@].history.len() ==> (r matches Some(u)
                && u@ == self@[tab_id@].history[i as int]),
            !(self@.contains_key(tab_id@) && i < self@[tab_id@].history.len()) ==> r is None,
    {
        match self.tabs.get(tab_id) {
            Some(t) => if i < t.history.len() {
                Some(t.history[i].clone())
            } else {
                None
            },
            None => None,
        }
    }
}

} // verus!
