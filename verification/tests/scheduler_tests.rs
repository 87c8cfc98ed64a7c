use rat_nexus::event::admit_input;
use rat_nexus::event::Action;
use rat_nexus::event::Event;
use rat_nexus::event::KeyCode;
use rat_nexus::event::KeyEvent;
use rat_nexus::event::KeyEventKind;
use rat_nexus::scheduler::LoopPhase;
use rat_nexus::scheduler::Scheduler;
use rat_nexus::scheduler::Work;

#[test]
fn scenario_three_events_before_one_frame() {
    // Three buffered input events and two pending redraw signals: all three
    // events dispatch in arrival order before any frame, and exactly one
    // frame is produced for the iteration.
    let mut s = Scheduler::new();
    let e1 = Event::Key(KeyEvent::press(KeyCode::Char('a')));
    let e2 = Event::Resize(80, 24);
    let e3 = Event::Paste(String::from("hello"));
    s.offer_input(e1.clone());
    s.offer_input(e2.clone());
    s.offer_input(e3.clone());
    s.request_redraw();
    s.request_redraw();
    assert_eq!(s.pending_inputs(), 3);
    assert!(s.redraw_pending());

    assert_eq!(s.next_work(), Work::Input(e1));
    assert_eq!(s.next_work(), Work::Input(e2));
    assert_eq!(s.frames_produced(), 0);
    assert_eq!(s.next_work(), Work::Input(e3));
    assert_eq!(s.frames_produced(), 0);

    assert_eq!(s.next_work(), Work::Draw);
    assert_eq!(s.frames_produced(), 1);

    assert_eq!(s.next_work(), Work::Idle);
    assert_eq!(s.frames_produced(), 1);
    assert!(!s.redraw_pending());
}

#[test]
fn key_releases_are_filtered_at_the_boundary() {
    let press = Event::Key(KeyEvent {
        code: KeyCode::Char('x'),
        kind: KeyEventKind::Press,
    });
    let release = Event::Key(KeyEvent {
        code: KeyCode::Char('x'),
        kind: KeyEventKind::Release,
    });
    let repeat = Event::Key(KeyEvent {
        code: KeyCode::Char('x'),
        kind: KeyEventKind::Repeat,
    });
    assert_eq!(admit_input(press.clone()), Some(press.clone()));
    assert_eq!(admit_input(release), None);
    assert_eq!(admit_input(repeat), None);
    assert_eq!(
        admit_input(Event::FocusGained),
        Some(Event::FocusGained)
    );

    let mut s = Scheduler::new();
    s.offer_input(press);
    s.offer_input(Event::Key(KeyEvent {
        code: KeyCode::Char('y'),
        kind: KeyEventKind::Release,
    }));
    assert_eq!(s.pending_inputs(), 1);
}

#[test]
fn event_dispatch_always_requests_a_redraw() {
    let mut s = Scheduler::new();
    assert!(!s.redraw_pending());
    s.after_dispatch(&None);
    assert!(s.redraw_pending());
    assert_eq!(s.phase(), LoopPhase::Running);
    assert_eq!(s.next_work(), Work::Draw);
    assert_eq!(s.frames_produced(), 1);
}

#[test]
fn quit_drains_then_stops() {
    let mut s = Scheduler::new();
    s.offer_input(Event::Key(KeyEvent::press(KeyCode::Char('q'))));
    match s.next_work() {
        Work::Input(_) => {}
        other => panic!("expected the input first, got {:?}", other),
    }
    s.after_dispatch(&Some(Action::Quit));
    assert_eq!(s.phase(), LoopPhase::Draining);
    // A draining loop selects no further work.
    assert_eq!(s.next_work(), Work::Idle);
    s.finish_shutdown();
    assert_eq!(s.phase(), LoopPhase::Stopped);
    assert_eq!(s.next_work(), Work::Idle);
}

#[test]
fn non_quit_actions_keep_the_loop_running() {
    let mut s = Scheduler::new();
    s.after_dispatch(&Some(Action::Back));
    assert_eq!(s.phase(), LoopPhase::Running);
    s.after_dispatch(&Some(Action::Noop));
    assert_eq!(s.phase(), LoopPhase::Running);
    s.after_dispatch(&Some(Action::Navigate(String::from("menu"))));
    assert_eq!(s.phase(), LoopPhase::Running);
}
