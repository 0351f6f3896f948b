use tui_core::action::{Action, Direction};
use tui_core::app::{counter_key_action, run_scripted, App};
use tui_core::config::Config;
use tui_core::error::TuiError;
use tui_core::event::{AppEvent, EventHandler, KeyCode, RawEvent, Signal};
use tui_core::session::Session;

#[test]
fn counter_scenario() {
    let mut app = App::new(Config::default());
    assert_eq!(app.counter, 0);
    assert_eq!(app.selected(), 0);
    app.update(Action::Increment);
    app.update(Action::Increment);
    app.update(Action::Decrement);
    assert_eq!(app.counter, 1);
    assert!(!app.should_quit);
    app.update(Action::Quit);
    assert!(app.should_quit);
}

#[test]
fn quit_stops_draws_and_waits() {
    let mut app = App::new(Config::default());
    let events = vec![
        AppEvent::Key(KeyCode::Char('q')),
        AppEvent::Tick,
        AppEvent::Tick,
    ];
    let (draws, waits) = run_scripted(&mut app, &events);
    assert_eq!(draws, 1);
    assert_eq!(waits, 1);
    assert!(app.should_quit);
}

#[test]
fn run_consumes_whole_script_without_quit() {
    let mut app = App::new(Config::default());
    let events = vec![
        AppEvent::Tick,
        AppEvent::Key(KeyCode::Down),
        AppEvent::Resize(10, 10),
    ];
    let (draws, waits) = run_scripted(&mut app, &events);
    assert_eq!(draws, 3);
    assert_eq!(waits, 3);
    assert!(!app.should_quit);
    assert_eq!(app.selected(), 1);
    assert_eq!(app.tick_count, 1);
}

#[test]
fn navigation_saturates_at_both_ends() {
    let mut app = App::new(Config::default());
    app.update(Action::Navigate(Direction::Up));
    assert_eq!(app.selected(), 0);
    for _ in 0..10 {
        app.update(Action::Navigate(Direction::Down));
    }
    assert_eq!(app.selected(), 4);
    for _ in 0..10 {
        app.update(Action::Navigate(Direction::Up));
    }
    assert_eq!(app.selected(), 0);
}

#[test]
fn navigation_on_empty_list() {
    let mut app = App::new(Config::default());
    app.items = Vec::new();
    app.selected = 0;
    app.update(Action::Navigate(Direction::Down));
    assert_eq!(app.selected(), 0);
    app.update(Action::Navigate(Direction::Up));
    assert_eq!(app.selected(), 0);
}

#[test]
fn release_twice_is_harmless() {
    let mut s = Session::new();
    s.acquire(true).unwrap();
    assert!(s.is_active());
    s.release();
    let after_first = s;
    s.release();
    assert!(!s.is_active());
    assert_eq!(s, after_first);
}

#[test]
fn abnormal_exit_mid_loop_restores() {
    let mut s = Session::new();
    s.acquire(true).unwrap();
    assert!(s.is_active());
    assert!(s.hook_installed);
    s.release();
    assert!(!s.is_active());
}

#[test]
fn failed_acquire_reports_terminal_unavailable() {
    let mut s = Session::new();
    let r = s.acquire(false);
    assert_eq!(r, Err(TuiError::TerminalUnavailable));
    assert!(!s.is_active());
    s.release();
    assert!(!s.is_active());
}

#[test]
fn multiplexer_keeps_readiness_order() {
    let handler = EventHandler::new(250);
    let signals = vec![
        Signal::Timer,
        Signal::Input(RawEvent::Key(KeyCode::Char('x'))),
        Signal::Input(RawEvent::Other),
        Signal::Input(RawEvent::Resize(80, 24)),
        Signal::InputClosed,
    ];
    let events = handler.drain(&signals);
    assert_eq!(
        events,
        vec![
            AppEvent::Tick,
            AppEvent::Key(KeyCode::Char('x')),
            AppEvent::Resize(80, 24),
            AppEvent::Tick,
        ]
    );
}

#[test]
fn multiplexer_one_event_per_round() {
    let handler = EventHandler::new(100);
    assert_eq!(handler.tick_rate_ms, 100);
    assert_eq!(handler.next(Signal::Timer), Some(AppEvent::Tick));
    assert_eq!(
        handler.next(Signal::Input(RawEvent::Key(KeyCode::Enter))),
        Some(AppEvent::Key(KeyCode::Enter))
    );
    assert_eq!(handler.next(Signal::Input(RawEvent::Other)), None);
    assert_eq!(handler.next(Signal::InputClosed), Some(AppEvent::Tick));
}

#[test]
fn default_tick_rate_is_250ms() {
    let c = Config::default();
    assert_eq!(c.tick_rate_ms, 250);
}

#[test]
fn tick_rate_parses_human_readable_durations() {
    assert_eq!(Config::from_tick_rate_str("250ms").unwrap().tick_rate_ms, 250);
    assert_eq!(
        Config::from_tick_rate_str("1s 500ms").unwrap().tick_rate_ms,
        1500
    );
    assert_eq!(
        Config::from_tick_rate_str("2h 37m").unwrap().tick_rate_ms,
        9_420_000
    );
    assert_eq!(Config::from_tick_rate_str("4.2s").unwrap().tick_rate_ms, 4200);
    assert_eq!(Config::from_tick_rate_str("0").unwrap().tick_rate_ms, 0);
    assert!(Config::from_tick_rate_str("soon").is_none());
    assert!(Config::from_tick_rate_str("").is_none());
}

#[test]
fn tick_rate_accepts_long_unit_names() {
    assert_eq!(
        Config::from_tick_rate_str("1hour 30minutes").unwrap().tick_rate_ms,
        5_400_000
    );
    assert_eq!(
        Config::from_tick_rate_str("100000000min").unwrap().tick_rate_ms,
        6_000_000_000_000
    );
}

#[test]
fn tick_rate_length_bound() {
    // Exactly at the bound: twenty characters still parse.
    assert_eq!(
        Config::from_tick_rate_str("12hour 30minutes 10s")
            .unwrap()
            .tick_rate_ms,
        45_010_000
    );
    // Beyond the bound: rejected before the parser runs, even when the
    // duration itself would be valid.
    assert!(Config::from_tick_rate_str("1hour 30minutes 10sec").is_none());
    assert!(Config::from_tick_rate_str("18446744073709551615s 1000000000ns").is_none());
}

#[test]
fn list_key_bindings() {
    let app = App::new(Config::default());
    assert_eq!(app.handle_key(KeyCode::Char('q')), Action::Quit);
    assert_eq!(app.handle_key(KeyCode::Up), Action::Navigate(Direction::Up));
    assert_eq!(
        app.handle_key(KeyCode::Char('k')),
        Action::Navigate(Direction::Up)
    );
    assert_eq!(
        app.handle_key(KeyCode::Down),
        Action::Navigate(Direction::Down)
    );
    assert_eq!(
        app.handle_key(KeyCode::Char('j')),
        Action::Navigate(Direction::Down)
    );
    assert_eq!(app.handle_key(KeyCode::Enter), Action::Select);
    assert_eq!(app.handle_key(KeyCode::Char('z')), Action::Tick);
    assert_eq!(app.handle_key(KeyCode::Other), Action::Tick);
}

#[test]
fn counter_key_bindings() {
    assert_eq!(counter_key_action(KeyCode::Char('q')), Some(Action::Quit));
    assert_eq!(counter_key_action(KeyCode::Up), Some(Action::Increment));
    assert_eq!(counter_key_action(KeyCode::Char('k')), Some(Action::Increment));
    assert_eq!(counter_key_action(KeyCode::Down), Some(Action::Decrement));
    assert_eq!(counter_key_action(KeyCode::Char('j')), Some(Action::Decrement));
    assert_eq!(counter_key_action(KeyCode::Enter), None);
    assert_eq!(counter_key_action(KeyCode::Char('z')), None);
}

#[test]
fn initial_state_has_five_items() {
    let app = App::new(Config::default());
    let items = app.items();
    assert_eq!(items.len(), 5);
    assert_eq!(items[0], "Item 1");
    assert_eq!(items[4], "Item 5");
    assert_eq!(app.config().tick_rate_ms, 250);
}

#[test]
fn resize_only_forces_a_redraw() {
    let mut app = App::new(Config::default());
    let action = app.derive_action(AppEvent::Resize(100, 40));
    assert_eq!(action, Action::Render);
    let items_before = app.items().to_vec();
    app.update(action);
    assert_eq!(app.selected(), 0);
    assert_eq!(app.items(), &items_before[..]);
}

#[test]
fn select_and_error_leave_state_untouched() {
    let mut app = App::new(Config::default());
    app.update(Action::Select);
    app.update(Action::Error(String::from("boom")));
    assert_eq!(app.counter, 0);
    assert_eq!(app.selected(), 0);
    assert_eq!(app.tick_count, 0);
    assert!(!app.should_quit);
}

#[test]
fn ticks_count() {
    let mut app = App::new(Config::default());
    app.update(Action::Tick);
    app.update(Action::Tick);
    assert_eq!(app.tick_count, 2);
}

#[test]
fn counter_saturates() {
    let mut app = App::new(Config::default());
    app.counter = i64::MAX;
    app.update(Action::Increment);
    assert_eq!(app.counter, i64::MAX);
    app.counter = i64::MIN;
    app.update(Action::Decrement);
    assert_eq!(app.counter, i64::MIN);
}

#[test]
fn error_descriptions() {
    assert_eq!(
        TuiError::TerminalUnavailable.describe(),
        "terminal unavailable"
    );
    assert_eq!(TuiError::DrawFailed.describe(), "drawing a frame failed");
    assert_eq!(
        TuiError::InputStreamFailed.describe(),
        "the input stream failed"
    );
}

#[test]
fn quit_flag_is_sticky() {
    let mut app = App::new(Config::default());
    app.update(Action::Quit);
    app.update(Action::Tick);
    app.update(Action::Navigate(Direction::Down));
    assert!(app.should_quit);
}
