use rat_nexus::component::AppContext;
use rat_nexus::component::Context;
use rat_nexus::pages::menu::Menu;

#[test]
fn context_carries_the_self_handle() {
    let app = AppContext::new();
    let cell = app.new_entity(5u32);
    let id = cell.entity_id();
    let cx: Context<u32> = Context::with_handle(app, cell.downgrade());
    assert_eq!(cx.entity_id(), Some(id));
    let weak = cx.weak_entity().expect("created with a handle");
    assert_eq!(weak.entity_id(), id);
    let strong = cx.entity().expect("the cell is alive");
    assert_eq!(strong.entity_id(), id);
    assert_eq!(strong.read().unwrap(), 5);
}

#[test]
fn cast_retargets_and_drops_the_state_binding() {
    let app = AppContext::new();
    let cell = app.new_entity(1u8);
    let cx: Context<u8> = Context::with_handle(app, cell.downgrade());
    assert!(cx.entity_id().is_some());
    let child: Context<Menu> = cx.cast();
    assert_eq!(child.entity_id(), None);
    assert!(child.weak_entity().is_none());
    assert!(child.entity().is_none());
}

#[test]
fn context_without_handle_has_no_identity() {
    let app = AppContext::new();
    let cx: Context<Menu> = Context::new(app);
    assert_eq!(cx.entity_id(), None);
    assert!(cx.entity().is_none());
}

#[test]
fn redraw_requests_coalesce_on_the_signal() {
    let app = AppContext::new();
    let mut signal = app.redraw_signal().unwrap();
    assert_eq!(signal.poll().unwrap(), false);
    app.refresh();
    app.refresh();
    app.refresh();
    assert_eq!(signal.poll().unwrap(), true);
    assert_eq!(signal.poll().unwrap(), false);
    let clone = app.clone();
    clone.refresh();
    assert_eq!(signal.poll().unwrap(), true);
}

#[test]
fn watch_reads_and_subscribes_in_one_call() {
    let app = AppContext::new();
    let cell = app.new_entity(10i64);
    let cx: Context<i64> = Context::new(app);
    let (value, mut sub) = cx.watch(&cell).unwrap();
    assert_eq!(value, 10);
    assert_eq!(sub.poll().unwrap(), false);
    cell.update(11).unwrap();
    assert_eq!(sub.poll().unwrap(), true);
}
