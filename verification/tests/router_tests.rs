use rat_nexus::dispatch::back_with_lifecycle;
use rat_nexus::dispatch::navigate_with_lifecycle;
use rat_nexus::router::Router;

#[derive(Debug, Clone, Copy, PartialEq, Eq)]
enum TestRoute {
    Home,
    Settings,
    Profile,
}

#[test]
fn test_router_navigation() {
    let mut router = Router::new(TestRoute::Home);

    assert_eq!(router.current(), &TestRoute::Home);
    assert!(!router.can_go_back());

    router.navigate(TestRoute::Settings);
    assert_eq!(router.current(), &TestRoute::Settings);
    assert!(router.can_go_back());

    router.navigate(TestRoute::Profile);
    assert_eq!(router.current(), &TestRoute::Profile);
    assert_eq!(router.history_len(), 2);

    assert!(router.go_back());
    assert_eq!(router.current(), &TestRoute::Settings);

    assert!(router.go_back());
    assert_eq!(router.current(), &TestRoute::Home);

    assert!(!router.go_back());
    assert_eq!(router.current(), &TestRoute::Home);
}

#[test]
fn test_router_no_duplicate_navigation() {
    let mut router = Router::new(TestRoute::Home);
    router.navigate(TestRoute::Home); // Same route
    assert_eq!(router.history_len(), 0); // No history added
}

#[test]
fn scenario_menu_page_menu() {
    // Router starts at "menu"; navigating twice to the same page keeps the
    // history at one entry; going back lands on "menu" with empty history.
    let mut router = Router::new("menu");
    router.navigate("page_a");
    assert_eq!(router.current(), &"page_a");
    assert_eq!(router.history_len(), 1);
    router.navigate("page_a");
    assert_eq!(router.history_len(), 1);
    assert!(router.go_back());
    assert_eq!(router.current(), &"menu");
    assert_eq!(router.history_len(), 0);
}

#[test]
fn clear_history_keeps_current() {
    let mut router = Router::new(1u32);
    router.navigate(2);
    router.navigate(3);
    assert_eq!(router.history_len(), 2);
    router.clear_history();
    assert_eq!(router.history_len(), 0);
    assert_eq!(router.current(), &3);
    assert!(!router.go_back());
    assert_eq!(router.current(), &3);
}

#[test]
fn lifecycle_exit_precedes_enter_around_transitions() {
    let mut router = Router::new(TestRoute::Home);

    let t = navigate_with_lifecycle(&mut router, TestRoute::Settings);
    assert_eq!(t.exit_from, TestRoute::Home);
    assert_eq!(t.enter_to, Some(TestRoute::Settings));
    assert_eq!(router.current(), &TestRoute::Settings);

    // Navigating to the current route still exits and re-enters it.
    let t = navigate_with_lifecycle(&mut router, TestRoute::Settings);
    assert_eq!(t.exit_from, TestRoute::Settings);
    assert_eq!(t.enter_to, Some(TestRoute::Settings));
    assert_eq!(router.history_len(), 1);

    let t = back_with_lifecycle(&mut router);
    assert_eq!(t.exit_from, TestRoute::Settings);
    assert_eq!(t.enter_to, Some(TestRoute::Home));
    assert_eq!(router.current(), &TestRoute::Home);

    // Going back with no history exits nowhere new: no enter hook fires.
    let t = back_with_lifecycle(&mut router);
    assert_eq!(t.exit_from, TestRoute::Home);
    assert_eq!(t.enter_to, None);
    assert_eq!(router.current(), &TestRoute::Home);
}
