use servo_backend::events::Command;
use servo_backend::events::Event;
use servo_backend::processor::ServoProcessManager;

fn nav_events(tab_id: &str, url: &str, title: &str) -> Vec<Event> {
    vec![
        Event::LoadStart { tab_id: tab_id.to_string(), url: url.to_string() },
        Event::TitleChange { tab_id: tab_id.to_string(), title: title.to_string() },
        Event::UrlChange { tab_id: tab_id.to_string(), url: url.to_string() },
        Event::LoadComplete { tab_id: tab_id.to_string(), url: url.to_string() },
    ]
}

fn move_events(tab_id: &str, url: &str) -> Vec<Event> {
    vec![
        Event::UrlChange { tab_id: tab_id.to_string(), url: url.to_string() },
        Event::LoadStart { tab_id: tab_id.to_string(), url: url.to_string() },
        Event::LoadComplete { tab_id: tab_id.to_string(), url: url.to_string() },
    ]
}

#[test]
fn uninitialized_commands_are_noops() {
    let mut m = ServoProcessManager::new();
    let t = "ghost-tab".to_string();
    assert_eq!(m.navigate(t.clone(), "http://example.com".to_string()), vec![]);
    assert_eq!(m.go_back(t.clone()), vec![]);
    assert_eq!(m.go_forward(t.clone()), vec![]);
    assert_eq!(m.refresh(t.clone()), vec![]);
    m.shutdown_tab(t.clone());
    assert!(!m.has_tab(&t));
    assert_eq!(m.current_url(&t), None);
    assert_eq!(m.history_len(&t), None);
}

#[test]
fn navigate_appends_one_entry_in_event_order() {
    let mut m = ServoProcessManager::new();
    let t = "t1".to_string();
    m.initialize_tab(t.clone());
    assert_eq!(m.history_len(&t), Some(0));

    let events = m.navigate(t.clone(), "http://example.com".to_string());
    assert_eq!(events, nav_events("t1", "http://example.com", "example.com"));
    assert_eq!(m.history_len(&t), Some(1));
    assert_eq!(m.history_cursor(&t), Some(0));
    assert_eq!(m.current_url(&t), Some("http://example.com".to_string()));
    assert_eq!(m.current_title(&t), Some("example.com".to_string()));

    let events = m.navigate(t.clone(), "http://foo.com/bar".to_string());
    assert_eq!(events, nav_events("t1", "http://foo.com/bar", "foo.com"));
    assert_eq!(m.history_len(&t), Some(2));
    assert_eq!(m.history_cursor(&t), Some(1));
}

#[test]
fn back_forward_are_noops_at_the_boundaries() {
    let mut m = ServoProcessManager::new();
    let t = "t1".to_string();
    m.initialize_tab(t.clone());

    // No history at all: both moves are silent no-ops.
    assert_eq!(m.go_back(t.clone()), vec![]);
    assert_eq!(m.go_forward(t.clone()), vec![]);
    assert_eq!(m.history_cursor(&t), Some(0));

    m.navigate(t.clone(), "http://a.com".to_string());
    // Cursor at the only entry: still both boundaries at once.
    assert_eq!(m.go_back(t.clone()), vec![]);
    assert_eq!(m.go_forward(t.clone()), vec![]);
    assert_eq!(m.history_cursor(&t), Some(0));

    m.navigate(t.clone(), "http://b.com".to_string());
    assert_eq!(m.go_back(t.clone()), move_events("t1", "http://a.com"));
    assert_eq!(m.history_cursor(&t), Some(0));
    assert_eq!(m.go_back(t.clone()), vec![]);
    assert_eq!(m.go_forward(t.clone()), move_events("t1", "http://b.com"));
    assert_eq!(m.history_cursor(&t), Some(1));
    assert_eq!(m.go_forward(t.clone()), vec![]);
    assert_eq!(m.history_cursor(&t), Some(1));
}

#[test]
fn navigate_after_back_truncates_forward_history() {
    let mut m = ServoProcessManager::new();
    let t = "t1".to_string();
    m.initialize_tab(t.clone());
    m.navigate(t.clone(), "http://a.com".to_string());
    m.navigate(t.clone(), "http://b.com".to_string());
    m.navigate(t.clone(), "http://c.com".to_string());
    assert_eq!(m.history_len(&t), Some(3));

    m.go_back(t.clone());
    m.go_back(t.clone());
    assert_eq!(m.history_cursor(&t), Some(0));
    assert_eq!(m.current_url(&t), Some("http://a.com".to_string()));

    m.navigate(t.clone(), "http://d.com".to_string());
    assert_eq!(m.history_len(&t), Some(2));
    assert_eq!(m.history_entry(&t, 0), Some("http://a.com".to_string()));
    assert_eq!(m.history_entry(&t, 1), Some("http://d.com".to_string()));
    assert_eq!(m.history_entry(&t, 2), None);
    assert_eq!(m.history_cursor(&t), Some(1));
    assert_eq!(m.current_url(&t), Some("http://d.com".to_string()));
}

#[test]
fn refresh_on_fresh_tab_is_noop() {
    let mut m = ServoProcessManager::new();
    let t = "t1".to_string();
    m.initialize_tab(t.clone());
    assert_eq!(m.refresh(t.clone()), vec![]);
    assert_eq!(m.history_len(&t), Some(0));
    assert_eq!(m.current_url(&t), Some("".to_string()));
}

#[test]
fn refresh_reemits_navigation_and_appends_duplicate_entry() {
    let mut m = ServoProcessManager::new();
    let t = "t1".to_string();
    m.initialize_tab(t.clone());
    m.navigate(t.clone(), "http://example.com".to_string());
    assert_eq!(m.history_len(&t), Some(1));

    let events = m.refresh(t.clone());
    assert_eq!(events, nav_events("t1", "http://example.com", "example.com"));
    // The full navigation transformation is re-run: the same URL is
    // appended once more.
    assert_eq!(m.history_len(&t), Some(2));
    assert_eq!(m.history_entry(&t, 0), Some("http://example.com".to_string()));
    assert_eq!(m.history_entry(&t, 1), Some("http://example.com".to_string()));
    assert_eq!(m.history_cursor(&t), Some(1));
}

#[test]
fn shutdown_removes_tab_and_later_commands_are_noops() {
    let mut m = ServoProcessManager::new();
    let t = "t1".to_string();
    m.initialize_tab(t.clone());
    m.navigate(t.clone(), "http://example.com".to_string());
    assert!(m.has_tab(&t));

    m.shutdown_tab(t.clone());
    assert!(!m.has_tab(&t));
    assert_eq!(m.navigate(t.clone(), "http://example.com".to_string()), vec![]);
    assert_eq!(m.go_back(t.clone()), vec![]);
    assert_eq!(m.refresh(t.clone()), vec![]);
    assert!(!m.has_tab(&t));
}

#[test]
fn reinitializing_resets_an_existing_tab() {
    let mut m = ServoProcessManager::new();
    let t = "t1".to_string();
    m.initialize_tab(t.clone());
    m.navigate(t.clone(), "http://example.com".to_string());
    assert_eq!(m.history_len(&t), Some(1));

    m.initialize_tab(t.clone());
    assert_eq!(m.history_len(&t), Some(0));
    assert_eq!(m.current_url(&t), Some("".to_string()));
    assert_eq!(m.current_title(&t), Some("New Tab".to_string()));
}

#[test]
fn distinct_tabs_do_not_interfere() {
    let mut m = ServoProcessManager::new();
    let t1 = "t1".to_string();
    let t2 = "t2".to_string();
    m.initialize_tab(t1.clone());
    m.initialize_tab(t2.clone());

    let events = m.navigate(t1.clone(), "http://one.example".to_string());
    assert_eq!(events.len(), 4);
    assert_eq!(m.history_len(&t2), Some(0));
    assert_eq!(m.current_url(&t2), Some("".to_string()));

    let events = m.navigate(t2.clone(), "http://two.example".to_string());
    assert_eq!(events, nav_events("t2", "http://two.example", "two.example"));
    assert_eq!(m.history_len(&t1), Some(1));
    assert_eq!(m.current_url(&t1), Some("http://one.example".to_string()));

    m.shutdown_tab(t1.clone());
    assert!(!m.has_tab(&t1));
    assert!(m.has_tab(&t2));
    assert_eq!(m.current_url(&t2), Some("http://two.example".to_string()));
}

#[test]
fn end_to_end_scenario() {
    let mut m = ServoProcessManager::new();
    let t = "t1".to_string();
    m.initialize_tab(t.clone());

    let events = m.navigate(t.clone(), "http://example.com".to_string());
    assert_eq!(events, nav_events("t1", "http://example.com", "example.com"));

    let events = m.navigate(t.clone(), "http://foo.com".to_string());
    assert_eq!(events, nav_events("t1", "http://foo.com", "foo.com"));
    assert_eq!(m.history_len(&t), Some(2));
    assert_eq!(m.history_cursor(&t), Some(1));

    let events = m.go_back(t.clone());
    assert_eq!(events, move_events("t1", "http://example.com"));
    assert_eq!(m.history_cursor(&t), Some(0));

    let events = m.go_forward(t.clone());
    assert_eq!(events, move_events("t1", "http://foo.com"));
    assert_eq!(m.history_cursor(&t), Some(1));

    m.shutdown_tab(t.clone());
    assert!(!m.has_tab(&t));
}

#[test]
fn process_dispatches_commands() {
    let mut m = ServoProcessManager::new();
    let events = m.process(Command::Initialize { tab_id: "t1".to_string() });
    assert_eq!(events, vec![]);

    let events = m.process(Command::Navigate {
        tab_id: "t1".to_string(),
        url: "http://example.com".to_string(),
    });
    assert_eq!(events, nav_events("t1", "http://example.com", "example.com"));

    let events = m.process(Command::Refresh { tab_id: "t1".to_string() });
    assert_eq!(events.len(), 4);

    let events = m.process(Command::Back { tab_id: "t1".to_string() });
    assert_eq!(events, move_events("t1", "http://example.com"));

    let events = m.process(Command::Forward { tab_id: "t1".to_string() });
    assert_eq!(events, move_events("t1", "http://example.com"));

    let events = m.process(Command::Shutdown { tab_id: "t1".to_string() });
    assert_eq!(events, vec![]);
    assert!(!m.has_tab(&"t1".to_string()));
}
