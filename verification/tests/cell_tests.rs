use rat_nexus::cell::Entity;
use rat_nexus::cell::HandleCount;
use rat_nexus::errors::Error;

#[test]
fn scenario_five_updates_one_wakeup() {
    // A cell holding 0; a task updates it five times, incrementing by one
    // each time; a subscriber that polls once afterwards observes exactly
    // one wakeup, and a read returns 5.
    let rt = tokio::runtime::Builder::new_current_thread().build().unwrap();
    rt.block_on(async {
        let cell = Entity::new(0u64);
        let mut sub = cell.subscribe().unwrap();
        let worker = cell.clone();
        let join = tokio::spawn(async move {
            let mut i = 0;
            while i < 5 {
                let v = worker.read().unwrap();
                worker.update(v + 1).unwrap();
                i += 1;
            }
        });
        join.await.unwrap();
        assert_eq!(sub.poll().unwrap(), true);
        assert_eq!(cell.read().unwrap(), 5);
        assert_eq!(sub.poll().unwrap(), false);
    });
}

#[test]
fn read_reflects_last_update() {
    let cell = Entity::new(String::from("start"));
    cell.update(String::from("one")).unwrap();
    cell.update(String::from("two")).unwrap();
    cell.update(String::from("three")).unwrap();
    assert_eq!(cell.read().unwrap(), "three");
}

#[test]
fn subscriber_wakes_once_per_poll_cycle() {
    let cell = Entity::new(1i32);
    let mut sub = cell.subscribe().unwrap();
    assert_eq!(sub.poll().unwrap(), false);
    cell.update(2).unwrap();
    cell.update(3).unwrap();
    cell.update(4).unwrap();
    assert_eq!(sub.poll().unwrap(), true);
    assert_eq!(sub.poll().unwrap(), false);
    cell.update(5).unwrap();
    assert_eq!(sub.poll().unwrap(), true);
    assert_eq!(sub.poll().unwrap(), false);
}

#[test]
fn upgrade_fails_exactly_when_strong_handles_are_gone() {
    let first = Entity::new(7i32);
    let id = first.entity_id();
    let weak = first.downgrade();
    assert_eq!(weak.entity_id(), id);

    let second = first.clone();
    assert_eq!(second.entity_id(), id);
    drop(first);

    // One strong handle remains: the upgrade succeeds and sees the value.
    let upgraded = weak.upgrade().expect("a strong handle remains");
    assert_eq!(upgraded.entity_id(), id);
    assert_eq!(upgraded.read().unwrap(), 7);

    drop(second);
    drop(upgraded);

    // Every strong handle is gone: upgrades fail, on every weak handle.
    assert!(weak.upgrade().is_none());
    assert!(weak.clone().upgrade().is_none());
    assert_eq!(weak.entity_id(), id);
}

#[test]
fn weak_handles_do_not_keep_the_cell_alive() {
    let cell = Entity::new(vec![1u8, 2, 3]);
    let weak = cell.downgrade();
    let weak2 = weak.clone();
    drop(cell);
    assert!(weak.upgrade().is_none());
    assert!(weak2.upgrade().is_none());
}

#[test]
fn errors_scope() {
    assert!(!Error::LockPoisoned.is_fatal());
    assert!(Error::TerminalSetupFailure.is_fatal());
    assert!(Error::TerminalTeardownFailure.is_fatal());
    assert!(!Error::LockPoisoned.describe().is_empty());
}

#[test]
fn handle_count_model_tracks_upgradability() {
    let mut count = HandleCount::on_create();
    assert!(count.upgrade_succeeds());
    count.on_clone();
    count.on_drop();
    assert!(count.upgrade_succeeds());
    count.on_drop();
    assert!(!count.upgrade_succeeds());
}
