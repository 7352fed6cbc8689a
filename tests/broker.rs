use pubsub_broker::pump::{keep_alive, step, Action, Phase, PumpEvent};
use pubsub_broker::registry::{Registry, RegistryError};
use pubsub_broker::session::{delivered, has_topic, Event};
use tokio::sync::mpsc::{unbounded_channel, UnboundedReceiver};

fn s(x: &str) -> String {
    x.to_string()
}

fn attach(reg: &mut Registry, id: &str) -> UnboundedReceiver<String> {
    let (tx, rx) = unbounded_channel();
    assert_eq!(reg.attach(&s(id), tx), Ok(()));
    rx
}

fn topic_event(topic: &str, message: &str) -> Event {
    Event { topic: s(topic), user_id: None, message: s(message) }
}

fn drain(rx: &mut UnboundedReceiver<String>) -> Vec<String> {
    let mut out = Vec::new();
    while let Ok(m) = rx.try_recv() {
        out.push(m);
    }
    out
}

#[test]
fn topic_publish_reaches_subscriber_only() {
    let mut reg = Registry::new();
    assert_eq!(reg.register_with(s("abc"), 1), s("abc"));
    let mut rx = attach(&mut reg, "abc");
    reg.update_topics(&s("abc"), vec![s("sports")]);
    let d = delivered(&reg.publish(&topic_event("sports", "goal!")));
    assert_eq!(d, vec![s("abc")]);
    assert_eq!(drain(&mut rx), vec![s("goal!")]);
    let d = delivered(&reg.publish(&topic_event("news", "x")));
    assert!(d.is_empty());
    assert!(drain(&mut rx).is_empty());
}

#[test]
fn user_publish_reaches_only_that_user() {
    let mut reg = Registry::new();
    assert_eq!(reg.register_with(s("abc"), 1), s("abc"));
    assert_eq!(reg.register_with(s("def"), 2), s("def"));
    let mut rx1 = attach(&mut reg, "abc");
    let mut rx2 = attach(&mut reg, "def");
    let ev = Event { topic: s(""), user_id: Some(2), message: s("hi") };
    assert_eq!(delivered(&reg.publish(&ev)), vec![s("def")]);
    assert!(drain(&mut rx1).is_empty());
    assert_eq!(drain(&mut rx2), vec![s("hi")]);
}

#[test]
fn user_publish_ignores_topics() {
    let mut reg = Registry::new();
    assert_eq!(reg.register_with(s("a"), 7), s("a"));
    assert_eq!(reg.register_with(s("b"), 7), s("b"));
    assert_eq!(reg.register_with(s("c"), 8), s("c"));
    let _r1 = attach(&mut reg, "a");
    let _r2 = attach(&mut reg, "b");
    let _r3 = attach(&mut reg, "c");
    reg.update_topics(&s("a"), vec![s("news")]);
    reg.update_topics(&s("c"), vec![s("news")]);
    let ev = Event { topic: s("news"), user_id: Some(7), message: s("m") };
    assert_eq!(reg.recipients(&ev), vec![0, 1]);
}

#[test]
fn topic_publish_selects_by_exact_topic() {
    let mut reg = Registry::new();
    assert_eq!(reg.register_with(s("a"), 1), s("a"));
    assert_eq!(reg.register_with(s("b"), 2), s("b"));
    assert_eq!(reg.register_with(s("c"), 3), s("c"));
    let _r1 = attach(&mut reg, "a");
    let _r2 = attach(&mut reg, "b");
    let _r3 = attach(&mut reg, "c");
    reg.update_topics(&s("a"), vec![s("news"), s("sports")]);
    reg.update_topics(&s("b"), vec![s("new")]);
    reg.update_topics(&s("c"), vec![s("sports")]);
    assert_eq!(reg.recipients(&topic_event("sports", "m")), vec![0, 2]);
    assert_eq!(reg.recipients(&topic_event("news", "m")), vec![0]);
    assert!(reg.recipients(&topic_event("ne", "m")).is_empty());
}

#[test]
fn unattached_session_is_skipped() {
    let mut reg = Registry::new();
    assert_eq!(reg.register_with(s("a"), 1), s("a"));
    reg.update_topics(&s("a"), vec![s("t")]);
    assert!(reg.recipients(&topic_event("t", "m")).is_empty());
    assert!(delivered(&reg.publish(&topic_event("t", "m"))).is_empty());
}

#[test]
fn closed_channel_is_skipped() {
    let mut reg = Registry::new();
    assert_eq!(reg.register_with(s("a"), 1), s("a"));
    assert_eq!(reg.register_with(s("b"), 1), s("b"));
    let rx1 = attach(&mut reg, "a");
    let mut rx2 = attach(&mut reg, "b");
    drop(rx1);
    let ev = Event { topic: s("t"), user_id: Some(1), message: s("m") };
    assert_eq!(reg.recipients(&ev), vec![0, 1]);
    let receipts = reg.publish(&ev);
    assert_eq!(receipts.len(), 2);
    assert_eq!(receipts[0].id(), &s("a"));
    assert!(!receipts[0].sent());
    assert_eq!(receipts[1].id(), &s("b"));
    assert!(receipts[1].sent());
    assert_eq!(receipts[1].message(), &s("m"));
    assert_eq!(delivered(&receipts), vec![s("b")]);
    assert_eq!(drain(&mut rx2), vec![s("m")]);
}

#[test]
fn receipts_cover_every_recipient() {
    let mut reg = Registry::new();
    assert_eq!(reg.register_with(s("a"), 1), s("a"));
    assert_eq!(reg.register_with(s("b"), 2), s("b"));
    assert_eq!(reg.register_with(s("c"), 3), s("c"));
    let mut ra = attach(&mut reg, "a");
    let _rb = attach(&mut reg, "b");
    let mut rc = attach(&mut reg, "c");
    reg.update_topics(&s("a"), vec![s("t")]);
    reg.update_topics(&s("c"), vec![s("u"), s("t")]);
    let receipts = reg.publish(&topic_event("t", "hello"));
    let ids: Vec<String> = receipts.iter().map(|r| r.id().clone()).collect();
    assert_eq!(ids, vec![s("a"), s("c")]);
    assert!(receipts.iter().all(|r| r.sent() && r.message() == "hello"));
    assert_eq!(drain(&mut ra), vec![s("hello")]);
    assert_eq!(drain(&mut rc), vec![s("hello")]);
}

#[test]
fn delivery_keeps_publish_order() {
    let mut reg = Registry::new();
    assert_eq!(reg.register_with(s("a"), 1), s("a"));
    let mut rx = attach(&mut reg, "a");
    reg.update_topics(&s("a"), vec![s("t")]);
    reg.publish(&topic_event("t", "a"));
    reg.publish(&topic_event("t", "b"));
    assert_eq!(drain(&mut rx), vec![s("a"), s("b")]);
}

#[test]
fn live_ids_follow_register_and_unregister() {
    let mut reg = Registry::new();
    assert_eq!(reg.register_with(s("a"), 1), s("a"));
    assert_eq!(reg.register_with(s("b"), 2), s("b"));
    reg.unregister(&s("a"));
    assert_eq!(reg.register_with(s("c"), 3), s("c"));
    assert!(!reg.contains(&s("a")));
    assert!(reg.contains(&s("b")));
    assert!(reg.contains(&s("c")));
    assert_eq!(reg.len(), 2);
    assert_eq!(reg.register_with(s("a"), 4), s("a"));
    assert!(reg.contains(&s("a")));
    assert_eq!(reg.len(), 3);
}

#[test]
fn taken_candidate_is_padded() {
    let mut reg = Registry::new();
    assert_eq!(reg.register_with(s("a"), 1), s("a"));
    assert_eq!(reg.register_with(s("a"), 2), s("a~"));
    assert_eq!(reg.register_with(s("a"), 3), s("a~~"));
    assert_eq!(reg.len(), 3);
    reg.unregister(&s("a"));
    assert_eq!(reg.register_with(s("a"), 4), s("a"));
    assert_eq!(reg.register_with(s("a~~~"), 5), s("a~~~"));
    assert_eq!(reg.register_with(s("a~"), 6), s("a~~~~"));
}

#[test]
fn drawn_ids_are_fresh() {
    let mut reg = Registry::new();
    let a = reg.register(1);
    let b = reg.register(1);
    assert_ne!(a, b);
    assert_eq!(a.len(), 32);
    assert!(a.chars().all(|c| c.is_ascii_hexdigit()));
    assert!(reg.contains(&a));
    assert!(reg.contains(&b));
    assert_eq!(reg.topics_of(&a), Some(Vec::new()));
}

#[test]
fn unregister_twice_is_like_once() {
    let mut reg = Registry::new();
    assert_eq!(reg.register_with(s("a"), 1), s("a"));
    assert_eq!(reg.register_with(s("b"), 1), s("b"));
    reg.unregister(&s("a"));
    assert_eq!(reg.len(), 1);
    reg.unregister(&s("a"));
    assert_eq!(reg.len(), 1);
    assert!(reg.contains(&s("b")));
    reg.unregister(&s("never"));
    assert_eq!(reg.len(), 1);
}

#[test]
fn stale_topic_update_changes_nothing() {
    let mut reg = Registry::new();
    assert_eq!(reg.register_with(s("a"), 1), s("a"));
    reg.update_topics(&s("a"), vec![s("x")]);
    reg.update_topics(&s("gone"), vec![s("y")]);
    assert_eq!(reg.topics_of(&s("a")), Some(vec![s("x")]));
    assert_eq!(reg.topics_of(&s("gone")), None);
    assert_eq!(reg.len(), 1);
}

#[test]
fn topic_update_replaces_whole_set() {
    let mut reg = Registry::new();
    assert_eq!(reg.register_with(s("a"), 1), s("a"));
    reg.update_topics(&s("a"), vec![s("x"), s("y")]);
    reg.update_topics(&s("a"), vec![s("z")]);
    assert_eq!(reg.topics_of(&s("a")), Some(vec![s("z")]));
}

#[test]
fn attach_errors() {
    let mut reg = Registry::new();
    let (tx, _rx) = unbounded_channel();
    assert_eq!(reg.attach(&s("a"), tx), Err(RegistryError::UnknownSession));
    assert_eq!(reg.register_with(s("a"), 1), s("a"));
    let _rx1 = attach(&mut reg, "a");
    let (tx2, _rx2) = unbounded_channel();
    assert_eq!(reg.attach(&s("a"), tx2), Err(RegistryError::AlreadyAttached));
}

#[test]
fn keep_alive_frames() {
    assert!(keep_alive(&s("ping")));
    assert!(keep_alive(&s("ping\n")));
    assert!(!keep_alive(&s("pong")));
    assert!(!keep_alive(&s("ping ")));
    assert!(!keep_alive(&s("")));
}

#[test]
fn has_topic_exact_match() {
    let t = vec![s("a"), s("bc")];
    assert!(has_topic(&t, &s("bc")));
    assert!(!has_topic(&t, &s("b")));
    assert!(!has_topic(&Vec::new(), &s("a")));
}

fn active(reg: &mut Registry, id: &str) -> UnboundedReceiver<String> {
    assert_eq!(reg.register_with(s(id), 1), s(id));
    let (tx, rx) = unbounded_channel();
    assert_eq!(step(reg, &s(id), Phase::Connecting, PumpEvent::Ready(tx)), (Phase::Active, Action::Continue));
    rx
}

#[test]
fn ping_frame_is_ignored() {
    let mut reg = Registry::new();
    let mut rx = active(&mut reg, "abc");
    reg.update_topics(&s("abc"), vec![s("t")]);
    let r = step(&mut reg, &s("abc"), Phase::Active, PumpEvent::Text(s("ping"), None));
    assert_eq!(r, (Phase::Active, Action::Continue));
    assert_eq!(reg.topics_of(&s("abc")), Some(vec![s("t")]));
    assert!(drain(&mut rx).is_empty());
}

#[test]
fn malformed_frame_keeps_connection() {
    let mut reg = Registry::new();
    let _rx = active(&mut reg, "abc");
    reg.update_topics(&s("abc"), vec![s("t")]);
    let r = step(&mut reg, &s("abc"), Phase::Active, PumpEvent::Text(s("not json"), None));
    assert_eq!(r, (Phase::Active, Action::Continue));
    assert_eq!(reg.topics_of(&s("abc")), Some(vec![s("t")]));
}

#[test]
fn subscription_frame_updates_topics() {
    let mut reg = Registry::new();
    let _rx = active(&mut reg, "abc");
    let frame = s("{\"topics\":[\"sports\"]}");
    let r = step(&mut reg, &s("abc"), Phase::Active, PumpEvent::Text(frame, Some(vec![s("sports")])));
    assert_eq!(r, (Phase::Active, Action::Continue));
    assert_eq!(reg.topics_of(&s("abc")), Some(vec![s("sports")]));
}

#[test]
fn connection_lifecycle_releases_session() {
    let mut reg = Registry::new();
    let _rx = active(&mut reg, "abc");
    assert_eq!(step(&mut reg, &s("abc"), Phase::Active, PumpEvent::Other), (Phase::Active, Action::Continue));
    assert_eq!(step(&mut reg, &s("abc"), Phase::Active, PumpEvent::Ended), (Phase::Closing, Action::Shutdown));
    assert!(reg.contains(&s("abc")));
    assert_eq!(step(&mut reg, &s("abc"), Phase::Closing, PumpEvent::Stopped), (Phase::Closed, Action::Done));
    assert!(!reg.contains(&s("abc")));
    assert_eq!(step(&mut reg, &s("abc"), Phase::Closed, PumpEvent::Stopped), (Phase::Closed, Action::Done));
    assert_eq!(reg.len(), 0);
}

#[test]
fn ready_for_unknown_session_is_refused() {
    let mut reg = Registry::new();
    let (tx, _rx) = unbounded_channel();
    assert_eq!(step(&mut reg, &s("x"), Phase::Connecting, PumpEvent::Ready(tx)), (Phase::Closed, Action::Refuse));
    assert_eq!(reg.len(), 0);
}

#[test]
fn second_connection_is_refused_without_release() {
    let mut reg = Registry::new();
    let _rx = active(&mut reg, "abc");
    let (tx, _rx2) = unbounded_channel();
    assert_eq!(step(&mut reg, &s("abc"), Phase::Connecting, PumpEvent::Ready(tx)), (Phase::Closed, Action::Refuse));
    assert!(reg.contains(&s("abc")));
}
