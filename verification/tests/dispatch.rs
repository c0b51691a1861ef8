use syncgit2::background::queue::{EventQueue, DEFAULT_QUEUE_CAPACITY, MAX_QUEUE_CAPACITY};
use syncgit2::background::running::RunningSet;
use syncgit2::background::types::Event;
use syncgit2::background::gitsync::{SyncAction, SyncPhase};
use syncgit2::background::{push_event, Dispatch, Dispatcher, Worker, POLL_INTERVAL_MS};
use syncgit2::config_parser::types::{Config, GitAuth, GitEndpoint, GitPasswordAuth, Package};
use syncgit2::config_parser::validator::load_all_configs;
use syncgit2::config_parser::TaskId;

fn event(id: &str) -> Event {
    Event::new(TaskId::new(id))
}

fn spawned(d: Dispatch) -> Worker {
    match d {
        Dispatch::Spawn(w) => w,
        other => panic!("expected a worker, got {:?}", other),
    }
}

#[test]
fn a_new_event_is_valid() {
    let e = Event::new(TaskId::new("Demo"));
    assert!(e.is_valid());
    assert_eq!(e.id().as_str(), "demo");
    assert_eq!(e.clone(), e);
}

#[test]
fn the_default_event_is_the_sentinel() {
    let e = Event::default();
    assert!(!e.is_valid());
    assert_eq!(e.id().as_str(), "");
}

#[test]
fn events_are_stamped_in_order() {
    let a = event("a");
    let b = event("b");
    assert!(a.timestamp() <= b.timestamp());
}

#[test]
fn constants_are_the_documented_ones() {
    assert_eq!(DEFAULT_QUEUE_CAPACITY, 100);
    assert_eq!(POLL_INTERVAL_MS, 500);
    assert_eq!(EventQueue::with_default_capacity().capacity(), 100);
    assert_eq!(EventQueue::new(MAX_QUEUE_CAPACITY).capacity(), MAX_QUEUE_CAPACITY);
}

#[test]
fn the_queue_is_first_in_first_out() {
    let mut q = EventQueue::new(4);
    assert!(q.is_empty());
    let (a, b, c) = (event("a"), event("b"), event("c"));
    assert_eq!(q.push(a.clone()), Ok(()));
    assert_eq!(q.push(b.clone()), Ok(()));
    assert_eq!(q.push(c.clone()), Ok(()));
    assert_eq!(q.len(), 3);
    assert_eq!(q.pop(), Some(a));
    assert_eq!(q.pop(), Some(b));
    assert_eq!(q.pop(), Some(c));
    assert_eq!(q.pop(), None);
    assert!(q.is_empty());
}

#[test]
fn a_full_queue_refuses_and_hands_the_event_back() {
    let mut q = EventQueue::new(2);
    let (a, b, c) = (event("a"), event("b"), event("c"));
    assert_eq!(q.push(a.clone()), Ok(()));
    assert_eq!(q.push(b.clone()), Ok(()));
    assert_eq!(q.push(c.clone()), Err(c.clone()));
    assert_eq!(q.len(), 2);
    assert_eq!(q.capacity(), 2);
    assert_eq!(q.pop(), Some(a));
    assert_eq!(q.push(c.clone()), Ok(()));
    assert_eq!(q.pop(), Some(b));
    assert_eq!(q.pop(), Some(c));
    assert_eq!(q.pop(), None);
}

#[test]
fn the_queue_keeps_order_over_many_rounds() {
    let mut q = EventQueue::new(3);
    let mut next_in = 0;
    let mut next_out = 0;
    for round in 0..50 {
        while q.len() < 3 {
            assert_eq!(q.push(event(&format!("t{}", next_in))), Ok(()));
            next_in += 1;
        }
        assert!(q.push(event("extra")).is_err());
        for _ in 0..(1 + round % 3) {
            let e = q.pop().unwrap();
            assert_eq!(e.id().as_str(), format!("t{}", next_out));
            next_out += 1;
        }
    }
}

#[test]
fn a_queue_of_one_holds_one() {
    let mut q = EventQueue::new(1);
    assert_eq!(q.pop(), None);
    let a = event("a");
    assert_eq!(q.push(a.clone()), Ok(()));
    assert!(q.push(event("b")).is_err());
    assert_eq!(q.len(), 1);
    assert_eq!(q.pop(), Some(a));
    assert_eq!(q.len(), 0);
}

#[test]
fn the_running_set_is_a_set() {
    let mut s = RunningSet::new();
    assert!(s.is_empty());
    assert!(!s.contains(&TaskId::new("a")));
    assert!(s.insert(TaskId::new("a")));
    assert!(!s.insert(TaskId::new("A")));
    assert!(s.insert(TaskId::new("b")));
    assert!(s.contains(&TaskId::new("a")));
    assert!(s.contains(&TaskId::new("B")));
    assert!(s.remove(&TaskId::new("a")));
    assert!(!s.remove(&TaskId::new("a")));
    assert!(!s.contains(&TaskId::new("a")));
    assert!(s.contains(&TaskId::new("b")));
    assert!(!s.is_empty());
    assert!(s.remove(&TaskId::new("b")));
    assert!(s.is_empty());
}

#[test]
fn an_empty_queue_idles_until_shutdown() {
    let mut d = Dispatcher::new(4);
    assert!(matches!(d.tick(false), Dispatch::Idle));
    assert!(matches!(d.tick(false), Dispatch::Idle));
    assert!(matches!(d.tick(true), Dispatch::Stop));
    assert_eq!(d.pending(), 0);
}

#[test]
fn the_sentinel_is_dropped() {
    let mut d = Dispatcher::new(4);
    assert!(push_event(&mut d, Event::default()));
    assert_eq!(d.pending(), 1);
    assert!(matches!(d.tick(false), Dispatch::Ignored));
    assert_eq!(d.pending(), 0);
    assert!(!d.is_running(&TaskId::new("")));
}

#[test]
fn a_trigger_starts_a_worker() {
    let mut d = Dispatcher::new(4);
    let e = event("Demo");
    assert!(d.push_event(e.clone()));
    let w = spawned(d.tick(false));
    assert_eq!(w.task_id().as_str(), "demo");
    assert_eq!(w.event(), &e);
    assert!(d.is_running(&TaskId::new("demo")));
    assert_eq!(d.pending(), 0);
}

#[test]
fn two_triggers_for_one_task_start_one_worker() {
    let mut d = Dispatcher::new(4);
    let first = event("demo");
    let second = event("DEMO");
    assert!(d.push_event(first.clone()));
    assert!(d.push_event(second.clone()));
    let w = spawned(d.tick(false));
    assert_eq!(w.event(), &first);
    match d.tick(false) {
        Dispatch::Requeued(id) => assert_eq!(id.as_str(), "demo"),
        other => panic!("expected a requeue, got {:?}", other),
    }
    assert_eq!(d.pending(), 1);
    assert!(matches!(d.tick(false), Dispatch::Requeued(_)));
    assert_eq!(d.pending(), 1);
    d.finish(w.task_id());
    assert!(!d.is_running(&TaskId::new("demo")));
    let again = spawned(d.tick(false));
    assert_eq!(again.event(), &second);
    assert_eq!(d.pending(), 0);
    assert!(d.is_running(&TaskId::new("demo")));
}

#[test]
fn a_requeued_event_goes_behind_the_others() {
    let mut d = Dispatcher::new(4);
    let (a1, a2, b) = (event("a"), event("a"), event("b"));
    d.push_event(a1.clone());
    d.push_event(a2.clone());
    d.push_event(b.clone());
    assert_eq!(spawned(d.tick(false)).event(), &a1);
    assert!(matches!(d.tick(false), Dispatch::Requeued(_)));
    assert_eq!(spawned(d.tick(false)).event(), &b);
    assert!(matches!(d.tick(false), Dispatch::Requeued(_)));
    d.finish(&TaskId::new("a"));
    assert_eq!(spawned(d.tick(false)).event(), &a2);
}

#[test]
fn a_requeue_succeeds_on_a_full_queue() {
    let mut d = Dispatcher::new(2);
    d.push_event(event("a"));
    assert!(matches!(d.tick(false), Dispatch::Spawn(_)));
    assert!(d.push_event(event("a")));
    assert!(d.push_event(event("a")));
    assert!(!d.push_event(event("a")));
    assert_eq!(d.pending(), 2);
    assert!(matches!(d.tick(false), Dispatch::Requeued(_)));
    assert_eq!(d.pending(), 2);
}

#[test]
fn an_event_for_a_full_queue_is_lost() {
    let mut d = Dispatcher::new(1);
    assert!(push_event(&mut d, event("a")));
    assert!(!push_event(&mut d, event("b")));
    assert_eq!(d.pending(), 1);
    assert_eq!(spawned(d.tick(false)).task_id().as_str(), "a");
    assert!(matches!(d.tick(false), Dispatch::Idle));
}

#[test]
fn shutdown_drains_the_queue_first() {
    let mut d = Dispatcher::new(8);
    d.push_event(event("one"));
    d.push_event(event("two"));
    d.push_event(event("three"));
    assert_eq!(spawned(d.tick(true)).task_id().as_str(), "one");
    assert_eq!(spawned(d.tick(true)).task_id().as_str(), "two");
    assert_eq!(spawned(d.tick(true)).task_id().as_str(), "three");
    assert!(matches!(d.tick(true), Dispatch::Stop));
    assert!(d.is_running(&TaskId::new("one")));
    assert!(d.is_running(&TaskId::new("two")));
    assert!(d.is_running(&TaskId::new("three")));
}

#[test]
fn shutdown_does_not_stop_while_a_busy_task_waits() {
    let mut d = Dispatcher::new(8);
    d.push_event(event("a"));
    d.push_event(event("a"));
    assert!(matches!(d.tick(true), Dispatch::Spawn(_)));
    assert!(matches!(d.tick(true), Dispatch::Requeued(_)));
    assert!(matches!(d.tick(true), Dispatch::Requeued(_)));
    d.finish(&TaskId::new("a"));
    assert!(matches!(d.tick(true), Dispatch::Spawn(_)));
    assert!(matches!(d.tick(true), Dispatch::Stop));
}

#[test]
fn never_two_workers_for_one_task() {
    let mut d = Dispatcher::new(16);
    let mut active = 0;
    for round in 0..40 {
        d.push_event(event("demo"));
        if round % 3 == 0 {
            d.push_event(event("Demo"));
        }
        match d.tick(false) {
            Dispatch::Spawn(_) => active += 1,
            Dispatch::Requeued(_) => assert_eq!(active, 1),
            other => panic!("unexpected {:?}", other),
        }
        assert!(active <= 1);
        assert_eq!(d.is_running(&TaskId::new("demo")), active == 1);
        if round % 4 == 3 && active == 1 {
            d.finish(&TaskId::new("demo"));
            active -= 1;
        }
    }
}

#[test]
fn finishing_an_idle_task_changes_nothing() {
    let mut d = Dispatcher::new(4);
    d.finish(&TaskId::new("ghost"));
    assert!(!d.is_running(&TaskId::new("ghost")));
    d.push_event(event("ghost"));
    assert!(matches!(d.tick(false), Dispatch::Spawn(_)));
}

#[test]
fn a_worker_keeps_what_it_was_made_with() {
    let e = event("x");
    let w = Worker::new(TaskId::new("X"), e.clone());
    assert_eq!(w.task_id(), &TaskId::new("x"));
    assert_eq!(w.event(), &e);
}

#[test]
fn a_worker_begins_the_sync_of_a_registered_task() {
    let task = Config {
        package: Package { name: "demo".to_string(), webhook_name: "Demo".to_string(), secret: None },
        origin: GitEndpoint { url: "https://host/a.git".to_string(), auth: None, endpoint_type: None },
        destination: GitEndpoint {
            url: "https://host/b.git".to_string(),
            auth: Some(GitAuth {
                rsa: None,
                pwd: Some(GitPasswordAuth { username: "u".to_string(), password: "p".to_string() }),
            }),
            endpoint_type: None,
        },
    };
    let registry = load_all_configs(&vec![task.clone()]);
    let known = Worker::new(TaskId::new("demo"), event("demo"));
    let sync = known.run(&registry, "repos").unwrap();
    assert_eq!(sync.task(), &task);
    assert_eq!(sync.phase(), SyncPhase::Probing);
    assert_eq!(sync.next_action(), SyncAction::ProbeRepo { path: "repos/demo".to_string() });
    let unknown = Worker::new(TaskId::new("ghost"), event("ghost"));
    assert_eq!(unknown.run(&registry, "repos").unwrap_err(), "task not found");
}
