use rat_nexus::component::AppContext;
use rat_nexus::component::Component;
use rat_nexus::component::Context;
use rat_nexus::component::Surface;
use rat_nexus::event::Action;
use rat_nexus::event::Event;
use rat_nexus::event::KeyCode;
use rat_nexus::event::KeyEvent;
use rat_nexus::model::AppState;
use rat_nexus::model::LocalState;
use rat_nexus::model::Theme;
use rat_nexus::pages::logs::LogLevel;
use rat_nexus::pages::counter::progress_step_on;
use rat_nexus::pages::menu::Menu;
use rat_nexus::pages::timer::format_time;
use rat_nexus::pages::timer::TimerState;
use rat_nexus::root::Root;
use rat_nexus::text::dec_string;
use rat_nexus::text::pad2;

fn key(code: KeyCode) -> Event {
    Event::Key(KeyEvent::press(code))
}

#[test]
fn theme_cycles_through_all_four() {
    let t = Theme::default();
    assert_eq!(t, Theme::Cyan);
    assert_eq!(t.name(), "Cyan");
    let t = t.next();
    assert_eq!(t, Theme::Green);
    assert_eq!(t.name(), "Green");
    let t = t.next();
    assert_eq!(t, Theme::Magenta);
    assert_eq!(t.name(), "Magenta");
    let t = t.next();
    assert_eq!(t, Theme::Yellow);
    assert_eq!(t.name(), "Yellow");
    assert_eq!(t.next(), Theme::Cyan);
}

#[test]
fn app_state_default_values() {
    let s = AppState::default();
    assert_eq!(s.counter, 0);
    assert_eq!(s.history.len(), 50);
    assert!(s.history.iter().all(|&v| v == 0));
    assert_eq!(s.min_value, 0);
    assert_eq!(s.max_value, 0);
    assert_eq!(s.step, 1);
    assert_eq!(s.theme, Theme::Cyan);
}

#[test]
fn local_state_log_is_capped_at_ten() {
    let mut s = LocalState::default();
    assert_eq!(s.logs, vec![String::from("System initialized")]);
    let mut i = 0;
    while i < 12 {
        s.push_log(format!("line {}", i));
        i += 1;
    }
    assert_eq!(s.logs.len(), 10);
    assert_eq!(s.logs[0], "line 2");
    assert_eq!(s.logs[9], "line 11");
}

#[test]
fn log_level_tags() {
    assert_eq!(LogLevel::Info.as_str(), "INFO");
    assert_eq!(LogLevel::Warn.as_str(), "WARN");
    assert_eq!(LogLevel::Error.as_str(), "ERR ");
    assert_eq!(LogLevel::Debug.as_str(), "DBUG");
    assert_eq!(LogLevel::Trace.as_str(), "TRCE");
}

#[test]
fn format_time_exact_values() {
    assert_eq!(format_time(0), "00:00.00");
    assert_eq!(format_time(65_090), "01:05.09");
    assert_eq!(format_time(59_999), "00:59.99");
    assert_eq!(format_time(6_000_000), "100:00.00");
    assert_eq!(format_time(610), "00:00.61");
}

#[test]
fn decimal_formatting() {
    assert_eq!(dec_string(0), "0");
    assert_eq!(dec_string(7), "7");
    assert_eq!(dec_string(12345), "12345");
    assert_eq!(dec_string(u64::MAX), "18446744073709551615");
    assert_eq!(pad2(7), "07");
    assert_eq!(pad2(42), "42");
    assert_eq!(pad2(120), "120");
}

#[test]
fn menu_moves_selection_within_bounds() {
    let app = AppContext::new();
    let mut cx: Context<Menu> = Context::new(app);
    let mut menu = Menu::new();

    // At the top, up stays put.
    assert_eq!(menu.handle_event(key(KeyCode::Up), &mut cx), None);
    // Down twice reaches the last entry; a third stays put.
    assert_eq!(menu.handle_event(key(KeyCode::Down), &mut cx), None);
    assert_eq!(menu.handle_event(key(KeyCode::Down), &mut cx), None);
    assert_eq!(menu.handle_event(key(KeyCode::Down), &mut cx), None);
    // The last entry is the exit entry.
    assert_eq!(
        menu.handle_event(key(KeyCode::Enter), &mut cx),
        Some(Action::Quit)
    );
}

#[test]
fn menu_enter_navigates_to_selected_page() {
    let app = AppContext::new();
    let mut cx: Context<Menu> = Context::new(app);
    let mut menu = Menu::new();
    assert_eq!(
        menu.handle_event(key(KeyCode::Enter), &mut cx),
        Some(Action::Navigate(String::from("page_a")))
    );
    assert_eq!(menu.handle_event(key(KeyCode::Down), &mut cx), None);
    assert_eq!(
        menu.handle_event(key(KeyCode::Enter), &mut cx),
        Some(Action::Navigate(String::from("page_b")))
    );
    assert_eq!(
        menu.handle_event(key(KeyCode::Char('q')), &mut cx),
        Some(Action::Quit)
    );
}

#[test]
fn menu_renders_one_line_per_option() {
    let app = AppContext::new();
    let mut cx: Context<Menu> = Context::new(app);
    let mut menu = Menu::new();
    let mut surface = Surface::new(80, 24);
    menu.render(&mut surface, &mut cx);
    assert_eq!(surface.lines.len(), 3);
    assert_eq!(surface.lines[0], "> Counter Page A");
    assert_eq!(surface.lines[1], "  Counter Page B");
    assert_eq!(surface.lines[2], "  Exit");
}

#[test]
fn timer_state_transitions() {
    let mut s = TimerState::default();
    s.tick();
    assert_eq!(s.elapsed_ms, 0); // not running: no progress
    s.toggle();
    assert!(s.running);
    s.tick();
    s.tick();
    assert_eq!(s.elapsed_ms, 20);
    s.lap();
    assert_eq!(s.laps, vec![20]);
    s.toggle();
    assert!(!s.running);
    s.lap(); // stopped but has run: still records
    assert_eq!(s.laps, vec![20, 20]);
    s.reset();
    assert_eq!(s.elapsed_ms, 0);
    assert!(!s.running);
    assert!(s.laps.is_empty());
    s.lap(); // never ran since reset: nothing recorded
    assert!(s.laps.is_empty());
}

#[test]
fn root_routes_between_views_and_only_quit_escapes() {
    let app = AppContext::new();
    let shared = app.new_entity(AppState::default());
    let counter_probe = shared.clone();
    let mut root = Root::new(shared, &app);
    let mut cx: Context<Root> = Context::new(app.clone());

    assert_eq!(root.current_route().as_str(), "menu");
    assert_eq!(root.history_len(), 0);

    // Enter on the first menu entry: the navigation is absorbed.
    assert_eq!(root.handle_event(key(KeyCode::Enter), &mut cx), None);
    assert_eq!(root.current_route().as_str(), "page_a");
    assert_eq!(root.history_len(), 1);

    // The counter page moves the shared state both pages see.
    assert_eq!(root.handle_event(key(KeyCode::Char('j')), &mut cx), None);
    assert_eq!(root.handle_event(key(KeyCode::Char('j')), &mut cx), None);
    assert_eq!(counter_probe.read().unwrap().counter, 2);
    assert_eq!(root.handle_event(key(KeyCode::Char('k')), &mut cx), None);
    assert_eq!(counter_probe.read().unwrap().counter, 1);

    // Escape goes back to the menu.
    assert_eq!(root.handle_event(key(KeyCode::Esc), &mut cx), None);
    assert_eq!(root.current_route().as_str(), "menu");
    assert_eq!(root.history_len(), 0);

    // Only quit escapes the root.
    assert_eq!(
        root.handle_event(key(KeyCode::Char('q')), &mut cx),
        Some(Action::Quit)
    );
}

#[test]
fn root_navigate_pushes_no_duplicate() {
    let app = AppContext::new();
    let shared = app.new_entity(AppState::default());
    let mut root = Root::new(shared, &app);
    root.navigate(String::from("page_b"));
    assert_eq!(root.history_len(), 1);
    root.navigate(String::from("page_b"));
    assert_eq!(root.history_len(), 1);
    assert!(root.go_back());
    assert_eq!(root.current_route().as_str(), "menu");
    assert!(!root.go_back());
    assert_eq!(root.current_route().as_str(), "menu");
}

#[test]
fn background_job_progress_runs_to_completion() {
    let mut s = LocalState::default();
    s.advance_progress();
    assert_eq!(s.progress, 0); // idle: nothing moves
    s.is_working = true;
    let mut steps = 0;
    while s.is_working && steps < 20 {
        s.advance_progress();
        steps += 1;
    }
    assert_eq!(steps, 10);
    assert_eq!(s.progress, 100);
    assert!(!s.is_working);
    assert_eq!(s.logs.last().unwrap(), "Task Complete");
    s.advance_progress();
    assert_eq!(s.progress, 100); // done: nothing moves
}

#[test]
fn counter_steps_by_exactly_one_and_saturates() {
    let mut s = AppState::default();
    s.step_counter(1);
    assert_eq!(s.counter, 1);
    s.step_counter(1);
    assert_eq!(s.counter, 2);
    s.step_counter(-1);
    assert_eq!(s.counter, 1);
    s.step_counter(-1);
    s.step_counter(-1);
    assert_eq!(s.counter, -1);
    s.counter = i32::MAX;
    s.step_counter(1);
    assert_eq!(s.counter, i32::MAX); // at the bound, nothing moves
    s.counter = i32::MIN;
    s.step_counter(-1);
    assert_eq!(s.counter, i32::MIN);
    assert_eq!(s.step, 1); // nothing else changed
}

#[test]
fn progress_step_commits_once_and_notifies_only_when_working() {
    let cell = AppContext::new().new_entity(LocalState::default());
    let mut sub = cell.subscribe().unwrap();

    // Idle: the step moves nothing and publishes no notification.
    assert_eq!(progress_step_on(&cell), Ok(false));
    assert_eq!(sub.poll().unwrap(), false);
    assert_eq!(cell.read().unwrap().progress, 0);

    let mut s = cell.read().unwrap();
    s.is_working = true;
    cell.update(s).unwrap();
    assert_eq!(sub.poll().unwrap(), true);

    // Working: one step, one notification.
    assert_eq!(progress_step_on(&cell), Ok(true));
    assert_eq!(sub.poll().unwrap(), true);
    assert_eq!(sub.poll().unwrap(), false);
    assert_eq!(cell.read().unwrap().progress, 10);

    // Stepping to completion ends the job and logs it.
    let mut steps = 0;
    while cell.read().unwrap().is_working && steps < 20 {
        assert_eq!(progress_step_on(&cell), Ok(true));
        steps += 1;
    }
    let done = cell.read().unwrap();
    assert_eq!(done.progress, 100);
    assert!(!done.is_working);
    assert_eq!(done.logs.last().unwrap(), "Task Complete");
}
