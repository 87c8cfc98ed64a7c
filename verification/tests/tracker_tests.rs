use rat_nexus::cell::Entity;
use rat_nexus::component::AppContext;
use rat_nexus::component::Component;
use rat_nexus::component::Context;
use rat_nexus::pages::timer::TimerPage;
use rat_nexus::tracker::TaskHandle;
use rat_nexus::tracker::TaskTracker;

#[test]
fn abort_all_cancels_and_is_idempotent() {
    let rt = tokio::runtime::Builder::new_multi_thread()
        .worker_threads(2)
        .enable_time()
        .build()
        .unwrap();
    rt.block_on(async {
        let mut tracker = TaskTracker::new();
        let join = tokio::spawn(async {
            loop {
                tokio::time::sleep(tokio::time::Duration::from_millis(10)).await;
            }
        });
        let probe = TaskHandle::new(join.abort_handle());
        tracker.track(TaskHandle::new(join.abort_handle()));
        assert_eq!(tracker.len(), 1);

        tracker.abort_all();
        // Idempotent: a second pass has no further effect and does not fail.
        tracker.abort_all();
        assert_eq!(tracker.len(), 1);

        // The previously tracked task reports terminated.
        let mut waited = 0;
        while !probe.is_finished() && waited < 500 {
            tokio::time::sleep(tokio::time::Duration::from_millis(5)).await;
            waited += 1;
        }
        assert!(probe.is_finished());

        // Aborting an already-terminated task is a no-op.
        probe.cancel();
        assert!(probe.is_finished());
    });
}

#[test]
fn abort_on_completed_task_is_noop() {
    let rt = tokio::runtime::Builder::new_multi_thread()
        .worker_threads(2)
        .enable_time()
        .build()
        .unwrap();
    rt.block_on(async {
        let join = tokio::spawn(async { 21u32 * 2 });
        let probe = TaskHandle::new(join.abort_handle());
        let mut tracker = TaskTracker::default();
        tracker.track(TaskHandle::new(join.abort_handle()));
        let value = join.await.unwrap();
        assert_eq!(value, 42);
        // The task already completed: aborting the tracked set is a no-op.
        tracker.abort_all();
        assert!(probe.is_finished());
    });
}

#[test]
fn scenario_ticker_stops_after_exit_hook() {
    // A page tracks a task that advances a shared counter every tick; its
    // exit hook aborts the tracker; the counter stops changing within one
    // subsequent scheduling tick.
    let rt = tokio::runtime::Builder::new_multi_thread()
        .worker_threads(2)
        .enable_time()
        .build()
        .unwrap();
    rt.block_on(async {
        let mut page = TimerPage::default();
        let state = page.state_handle();

        // Start the stopwatch so that ticks advance it.
        let mut s = state.read().unwrap();
        s.toggle();
        state.update(s).unwrap();

        let ticker_state: Entity<_> = page.state_handle();
        let join = tokio::spawn(async move {
            loop {
                match ticker_state.read() {
                    Ok(mut s) => {
                        s.tick();
                        let _ = ticker_state.update(s);
                    }
                    Err(_) => break,
                }
                tokio::time::sleep(tokio::time::Duration::from_millis(2)).await;
            }
        });
        page.adopt_task(TaskHandle::new(join.abort_handle()));

        tokio::time::sleep(tokio::time::Duration::from_millis(40)).await;
        assert!(state.read().unwrap().elapsed_ms > 0);

        // The exit hook cancels every tracked task.
        let mut cx: Context<TimerPage> = Context::new(AppContext::new());
        page.on_exit(&mut cx);

        // Give the cancellation one scheduling tick to land, then observe
        // that the counter has stopped.
        tokio::time::sleep(tokio::time::Duration::from_millis(30)).await;
        let settled = state.read().unwrap().elapsed_ms;
        tokio::time::sleep(tokio::time::Duration::from_millis(40)).await;
        assert_eq!(state.read().unwrap().elapsed_ms, settled);
    });
}

#[test]
fn navigation_fires_exit_hook_and_cancels_page_work() {
    // Work tracked by a page dies when navigation leaves that page: the
    // dispatcher fires the departing view's exit hook before the route
    // moves, and the exit hook aborts the tracker.
    let rt = tokio::runtime::Builder::new_multi_thread()
        .worker_threads(2)
        .enable_time()
        .build()
        .unwrap();
    rt.block_on(async {
        let app = rat_nexus::component::AppContext::new();
        let shared = app.new_entity(rat_nexus::model::AppState::default());
        let mut root = rat_nexus::root::Root::new(shared, &app);
        let mut cx: Context<rat_nexus::root::Root> = Context::new(app.clone());

        let join = tokio::spawn(async {
            loop {
                tokio::time::sleep(tokio::time::Duration::from_millis(5)).await;
            }
        });
        let probe = TaskHandle::new(join.abort_handle());
        root.adopt_page_a_task(TaskHandle::new(join.abort_handle()));

        // Enter the page, then leave it again: the exit hook fires.
        let enter = rat_nexus::event::Event::Key(rat_nexus::event::KeyEvent::press(
            rat_nexus::event::KeyCode::Enter,
        ));
        assert_eq!(root.handle_event(enter, &mut cx), None);
        assert_eq!(root.current_route().as_str(), "page_a");
        assert!(!probe.is_finished());

        let menu_key = rat_nexus::event::Event::Key(rat_nexus::event::KeyEvent::press(
            rat_nexus::event::KeyCode::Char('m'),
        ));
        assert_eq!(root.handle_event(menu_key, &mut cx), None);
        assert_eq!(root.current_route().as_str(), "menu");

        let mut waited = 0;
        while !probe.is_finished() && waited < 500 {
            tokio::time::sleep(tokio::time::Duration::from_millis(5)).await;
            waited += 1;
        }
        assert!(probe.is_finished());
    });
}
