//! Tests for the focus router, the subscription pane's state machine, its
//! action queue, and the dispatch decisions.

use lazyclash::action::Action;
use lazyclash::app::{begin_action, query_done, App, Step};
use lazyclash::input::InputBuffer;
use lazyclash::menu::subscription::SubScription;
use lazyclash::menus::version_menu::VersionMenu;
use lazyclash::mode::Mode;
use lazyclash::prfitem::PrfItem;
use lazyclash::view::{KeyPress, ViewActor};

fn focused_count(app: &App) -> usize {
    app.menus.iter().filter(|m| m.is_focus()).count()
}

fn with_subscription<T>(app: &App, f: impl FnOnce(&SubScription) -> T) -> T {
    match &app.menus[1] {
        ViewActor::SubScription(s) => f(s),
        _ => panic!("pane 1 is the subscription pane"),
    }
}

#[test]
fn exactly_one_pane_is_focused_under_any_cycling() {
    let mut app = App::new();
    assert_eq!(focused_count(&app), 1);
    let moves = [0, 0, 1, 0, 1, 1, 1, 0, 0, 0, 1, 1];
    for m in moves {
        if m == 0 {
            app.next();
        } else {
            app.previous();
        }
        assert_eq!(focused_count(&app), 1);
    }
}

#[test]
fn cycling_wraps_in_both_directions() {
    let mut app = App::new();
    assert_eq!(app.menu_index, 0);
    app.next();
    assert_eq!(app.menu_index, 1);
    app.next();
    assert_eq!(app.menu_index, 2);
    app.next();
    assert_eq!(app.menu_index, 0);
    app.previous();
    assert_eq!(app.menu_index, 2);
    assert!(app.menus[2].is_focus());
    assert!(!app.menus[0].is_focus());
}

#[test]
fn mode_follows_the_focus_index() {
    let mut app = App::new();
    assert!(matches!(app.mode, Mode::Version));
    app.next();
    assert!(matches!(app.mode, Mode::Subscription));
    app.next();
    assert!(matches!(app.mode, Mode::Version));
    assert_eq!(Mode::from(1).into(), 1);
    assert_eq!(Mode::from(0).into(), 0);
    assert_eq!(Mode::from(7).into(), 0);
}

#[test]
fn unconsumed_quit_key_stops_the_loop() {
    let mut app = App::new();
    assert!(!app.should_quit);
    app.handle_key(KeyPress::Char('q'));
    assert!(app.should_quit);
}

#[test]
fn tab_and_arrows_cycle_focus_when_unconsumed() {
    let mut app = App::new();
    app.handle_key(KeyPress::Tab);
    assert_eq!(app.menu_index, 1);
    assert_eq!(focused_count(&app), 1);
    app.handle_key(KeyPress::Left);
    assert_eq!(app.menu_index, 0);
    app.handle_key(KeyPress::Left);
    assert_eq!(app.menu_index, 2);
    app.handle_key(KeyPress::Right);
    assert_eq!(app.menu_index, 0);
}

#[test]
fn typed_quit_key_is_consumed_in_input_mode() {
    let mut app = App::new();
    app.next();
    app.handle_key(KeyPress::Char('i'));
    app.handle_key(KeyPress::Char('q'));
    assert!(!app.should_quit);
    with_subscription(&app, |s| {
        assert_eq!(s.input_state.chars, vec!['q']);
    });
}

#[test]
fn queue_is_first_in_first_out() {
    let mut s = SubScription::new();
    // The fresh pane has one queued refresh request.
    assert!(matches!(s.get_events(), Some(Action::SubScriptionUpdate)));
    s.handle_event(KeyPress::Char('i'));
    s.handle_event(KeyPress::Char('a'));
    s.handle_event(KeyPress::Enter);
    s.handle_event(KeyPress::Char('i'));
    s.handle_event(KeyPress::Char('b'));
    s.handle_event(KeyPress::Enter);
    match s.get_events() {
        Some(Action::SubScription(u)) => assert_eq!(u, "a"),
        _ => panic!("the first submitted URL comes out first"),
    }
    match s.get_events() {
        Some(Action::SubScription(u)) => assert_eq!(u, "ab"),
        _ => panic!("the second submitted URL comes out second"),
    }
    assert!(s.get_events().is_none());
}

#[test]
fn subscription_mode_transitions() {
    let mut s = SubScription::new();
    assert!(matches!(s.mode, lazyclash::menu::subscription::Mode::Normal));
    // Open input mode, leave it with escape.
    assert!(s.handle_event(KeyPress::Char('i')));
    assert!(matches!(s.mode, lazyclash::menu::subscription::Mode::Input));
    assert!(s.handle_event(KeyPress::Esc));
    assert!(matches!(s.mode, lazyclash::menu::subscription::Mode::Normal));
    // Enter opens the detail page only when an item is highlighted.
    assert!(s.handle_event(KeyPress::Enter));
    assert!(matches!(s.mode, lazyclash::menu::subscription::Mode::Normal));
    let one = vec![PrfItem::default()];
    let _ = s.update(Some(&Action::UpdatePrfList(one)));
    assert!(s.handle_event(KeyPress::Down));
    assert!(s.handle_event(KeyPress::Enter));
    assert!(matches!(s.mode, lazyclash::menu::subscription::Mode::Detail));
    assert!(s.handle_event(KeyPress::Esc));
    assert!(matches!(s.mode, lazyclash::menu::subscription::Mode::Normal));
    // Unknown keys in normal mode are left to the router.
    assert!(!s.handle_event(KeyPress::Char('q')));
    assert!(!s.handle_event(KeyPress::Tab));
}

#[test]
fn detail_mode_forwards_normal_keys() {
    let mut s = SubScription::new();
    let _ = s.update(Some(&Action::UpdatePrfList(vec![PrfItem::default()])));
    s.handle_event(KeyPress::Down);
    s.handle_event(KeyPress::Enter);
    assert!(matches!(s.mode, lazyclash::menu::subscription::Mode::Detail));
    // A key normal mode knows acts from the detail page too.
    assert!(s.handle_event(KeyPress::Char('i')));
    assert!(matches!(s.mode, lazyclash::menu::subscription::Mode::Input));
    // A key neither mode knows is left to the router, so quit works from
    // the detail page.
    let mut app = App::new();
    app.next();
    app.broadcast(Some(&Action::UpdatePrfList(vec![PrfItem::default()])));
    app.handle_key(KeyPress::Down);
    app.handle_key(KeyPress::Enter);
    app.handle_key(KeyPress::Char('q'));
    assert!(app.should_quit);
}

#[test]
fn filename_star_wins_regardless_of_parameter_order() {
    let cd = "attachment; filename=\"fallback.yaml\"; filename*=UTF-8''first%20choice";
    let name = lazyclash::help::derive_filename(Some(cd), "https://x.example/a");
    assert_eq!(name, "first choice");
}

#[test]
fn popup_toggles_on_a() {
    let mut s = SubScription::new();
    assert!(!s.input_popua);
    s.handle_event(KeyPress::Char('a'));
    assert!(s.input_popua);
    s.handle_event(KeyPress::Char('a'));
    assert!(!s.input_popua);
}

#[test]
fn selection_saturates_at_both_ends() {
    let mut s = SubScription::new();
    let items = vec![PrfItem::default(), PrfItem::default(), PrfItem::default()];
    let _ = s.update(Some(&Action::UpdatePrfList(items)));
    assert_eq!(s.pref.selected, None);
    s.handle_event(KeyPress::Up);
    assert_eq!(s.pref.selected, Some(0));
    s.handle_event(KeyPress::Up);
    assert_eq!(s.pref.selected, Some(0));
    s.handle_event(KeyPress::Down);
    assert_eq!(s.pref.selected, Some(1));
    s.handle_event(KeyPress::Down);
    s.handle_event(KeyPress::Down);
    s.handle_event(KeyPress::Down);
    assert_eq!(s.pref.selected, Some(2));
}

#[test]
fn selection_on_empty_list_never_panics() {
    let mut s = SubScription::new();
    s.handle_event(KeyPress::Down);
    assert_eq!(s.pref.selected, None);
    s.handle_event(KeyPress::Up);
    assert_eq!(s.pref.selected, None);
}

#[test]
fn empty_broadcast_clamps_a_stale_cursor() {
    let mut s = SubScription::new();
    let items = vec![PrfItem::default(), PrfItem::default(), PrfItem::default()];
    let _ = s.update(Some(&Action::UpdatePrfList(items)));
    s.handle_event(KeyPress::Down);
    s.handle_event(KeyPress::Down);
    s.handle_event(KeyPress::Down);
    assert_eq!(s.pref.selected, Some(2));
    let r = s.update(Some(&Action::UpdatePrfList(Vec::new())));
    assert!(r.is_ok());
    assert_eq!(s.pref.selected, None);
    assert_eq!(s.pref.items.len(), 0);
}

#[test]
fn shrinking_broadcast_clamps_to_the_last_item() {
    let mut s = SubScription::new();
    let items = vec![PrfItem::default(), PrfItem::default(), PrfItem::default()];
    let _ = s.update(Some(&Action::UpdatePrfList(items)));
    s.handle_event(KeyPress::Down);
    s.handle_event(KeyPress::Down);
    s.handle_event(KeyPress::Down);
    assert_eq!(s.pref.selected, Some(2));
    let _ = s.update(Some(&Action::UpdatePrfList(vec![PrfItem::default()])));
    assert_eq!(s.pref.selected, Some(0));
}

#[test]
fn unrecognised_broadcasts_are_no_ops() {
    let mut s = SubScription::new();
    let r = s.update(Some(&Action::Tick));
    assert!(r.is_ok());
    let r = s.update(Some(&Action::Error("boom".to_string())));
    assert!(r.is_ok());
    let r = s.update(None);
    assert!(r.is_ok());
    assert_eq!(s.pref.items.len(), 0);
}

#[test]
fn editor_moves_insert_and_delete() {
    let mut b = InputBuffer::new();
    b.insert_char('a');
    b.insert_char('c');
    b.move_left();
    b.insert_char('b');
    assert_eq!(b.text(), "abc");
    assert_eq!(b.cursor, 2);
    b.move_right();
    b.backspace();
    assert_eq!(b.text(), "ab");
    b.move_left();
    b.move_left();
    b.move_left();
    assert_eq!(b.cursor, 0);
    b.backspace();
    assert_eq!(b.text(), "ab");
    b.reset();
    assert_eq!(b.text(), "");
}

#[test]
fn dispatch_decisions_follow_the_action() {
    match begin_action(Action::SubScription("https://u.example".to_string())) {
        Step::Fetch(u) => assert_eq!(u, "https://u.example"),
        _ => panic!("a submitted URL starts a fetch"),
    }
    assert!(matches!(begin_action(Action::SubScriptionUpdate), Step::Query));
    assert!(matches!(begin_action(Action::Error("e".to_string())), Step::Quiet));
    assert!(matches!(begin_action(Action::Tick), Step::Forward(Action::Tick)));
    match begin_action(Action::SelectedItem("id".to_string())) {
        Step::Forward(Action::SelectedItem(id)) => assert_eq!(id, "id"),
        _ => panic!("other actions are forwarded unchanged"),
    }
}

#[test]
fn version_menu_reports_its_help_line() {
    let m = VersionMenu::new();
    assert_eq!(m.title, "Version");
    assert_eq!(m.get_info(), "帮助信息");
}

#[test]
fn pane_names_and_lengths() {
    let app = App::new();
    assert_eq!(app.menus[0].name(), "版本");
    assert_eq!(app.menus[1].name(), "订阅");
    assert_eq!(app.menus[2].name(), "FpsCount");
    assert_eq!(app.menus[0].length(), 5);
    assert_eq!(app.menus[1].length(), 20);
    assert_eq!(app.menus[2].length(), 1);
    assert_eq!(app.info, "提示信息");
}

#[test]
fn submitted_url_round_trips_into_the_cached_list() {
    let mut app = App::new();
    // Focus the subscription pane and drain its initial refresh request.
    app.next();
    let first = app.pending_action();
    assert!(matches!(first, Some(Action::SubScriptionUpdate)));
    // The store is empty so far.
    app.broadcast(Some(&query_done(Ok(Vec::new()))));
    // Type a URL in input mode and submit it.
    let url = "https://x.example/api/sub?token=abc";
    app.handle_key(KeyPress::Char('i'));
    for c in url.chars() {
        app.handle_key(KeyPress::Char(c));
    }
    app.handle_key(KeyPress::Enter);
    // The dispatcher pulls the submission and decides to fetch.
    let action = app.pending_action().expect("the submission is queued");
    let fetched_url = match begin_action(action) {
        Step::Fetch(u) => u,
        _ => panic!("a submitted URL starts a fetch"),
    };
    assert_eq!(fetched_url, url);
    // The fetch succeeds; ingestion builds the profile.
    let item = PrfItem::from_response(
        &fetched_url,
        200,
        Some("upload=1;download=2;total=3;expire=4"),
        None,
        None,
        Some("proxies: []".to_string()),
    )
    .unwrap();
    let expected_uid = item.uid.clone().unwrap();
    assert!(item.ready_to_persist());
    // The store holds the row now; a refresh reads it back. The read path
    // restores neither the quota nor the timestamp.
    let row = PrfItem {
        extra: None,
        updated: None,
        ..item
    };
    app.broadcast(Some(&query_done(Ok(vec![row]))));
    with_subscription(&app, |s| {
        assert_eq!(s.pref.items.len(), 1);
        assert_eq!(s.pref.items[0].uid.as_deref(), Some(expected_uid.as_str()));
        assert_eq!(s.pref.items[0].selected, Some(false));
    });
}

#[test]
fn broadcast_reaches_every_pane_and_keeps_focus() {
    let mut app = App::new();
    let items = vec![PrfItem::default()];
    app.broadcast(Some(&Action::UpdatePrfList(items)));
    assert_eq!(focused_count(&app), 1);
    with_subscription(&app, |s| {
        assert_eq!(s.pref.items.len(), 1);
    });
    // A second identical broadcast leaves the pane in the same state.
    let items = vec![PrfItem::default()];
    app.broadcast(Some(&Action::UpdatePrfList(items)));
    with_subscription(&app, |s| {
        assert_eq!(s.pref.items.len(), 1);
        assert_eq!(s.pref.selected, None);
    });
}
