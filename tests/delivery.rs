use allowance_core::entities::User;
use allowance_core::events::Event;
use allowance_core::notifications::dummy;
use allowance_core::notifications::redis;
use allowance_core::notifications::{NotificationError, Notifications};
use allowance_core::notify::Notify;
use allowance_core::socket::{NotificationSocket, Reaction};
use allowance_core::{Role, UID};

fn user(value: u128, role: Role, family: UID) -> User {
    User {
        uid: UID { value },
        role,
        name: format!("User {}", value),
        email: None,
        family_uid: family,
    }
}

/// A back end that records what it is asked to publish.
struct Recorder {
    sent: Vec<(String, Event)>,
    failing: Option<String>,
}

impl Notifications for Recorder {
    fn send(&mut self, channel: &str, event: &Event) -> Result<(), NotificationError> {
        self.sent.push((channel.to_string(), event.clone()));
        if self.failing.as_deref() == Some(channel) {
            Err(NotificationError::Driver("unreachable".into()))
        } else {
            Ok(())
        }
    }
}

#[test]
fn family_event_reaches_children_only() {
    let family = UID { value: 100 };
    let parent = user(1, Role::Parent, family);
    let first = user(2, Role::Child, family);
    let second = user(3, Role::Child, family);
    let members = Some(vec![parent.clone(), first.clone(), second.clone()]);

    let n = Notify::Family { event: Event::Ping, family };
    assert_eq!(n.users(&members, &parent.uid), vec![first.uid, second.uid]);

    let n = Notify::Parents { event: Event::Ping, family };
    assert_eq!(n.users(&members, &first.uid), vec![parent.uid]);
}

#[test]
fn member_and_parents() {
    let family = UID { value: 100 };
    let parent = user(1, Role::Parent, family);
    let other = user(4, Role::Parent, family);
    let first = user(2, Role::Child, family);
    let second = user(3, Role::Child, family);
    let members = Some(vec![parent.clone(), first.clone(), second.clone(), other.clone()]);

    let n = Notify::MemberAndParents { event: Event::Ping, uid: first.uid, family };
    assert_eq!(n.users(&members, &parent.uid), vec![first.uid, other.uid]);
    assert_eq!(n.users(&members, &first.uid), vec![parent.uid, other.uid]);
}

#[test]
fn member_includes_self() {
    let me = UID { value: 7 };
    let n = Notify::Member { event: Event::Logout, user: me };
    assert_eq!(n.users(&None, &me), vec![me]);
    assert_eq!(n.family(), None);
}

#[test]
fn unreadable_family_reaches_no_one() {
    let family = UID { value: 100 };
    let n = Notify::Family { event: Event::Ping, family };
    assert_eq!(n.users(&None, &UID { value: 1 }), Vec::<UID>::new());
    assert_eq!(n.family(), Some(family));
}

#[test]
fn send_publishes_once_per_recipient() {
    let family = UID { value: 100 };
    let parent = user(1, Role::Parent, family);
    let first = user(2, Role::Child, family);
    let second = user(3, Role::Child, family);
    let members = Some(vec![parent.clone(), first, second]);
    let mut backend = Recorder { sent: Vec::new(), failing: None };

    let n = Notify::Family { event: Event::Ping, family };
    let deliveries = n.send(&mut backend, &members, &parent.uid);
    assert_eq!(deliveries.len(), 2);
    assert!(deliveries.iter().all(|d| d.result.is_ok()));
    let sent = backend.sent;
    assert_eq!(
        sent,
        vec![
            ("00000000000000000000000000000002".to_string(), Event::Ping),
            ("00000000000000000000000000000003".to_string(), Event::Ping),
        ],
    );
}

#[test]
fn send_survives_failing_backend() {
    let family = UID { value: 100 };
    let parent = user(1, Role::Parent, family);
    let child = user(2, Role::Child, family);
    let members = Some(vec![parent.clone(), child]);
    let mut backend = dummy::Notifier::<Event>::new_with_events(Vec::new());

    let n = Notify::Family { event: Event::Ping, family };
    let deliveries = n.send(&mut backend, &members, &parent.uid);
    assert_eq!(deliveries.len(), 1);
    assert_eq!(deliveries[0].channel, "00000000000000000000000000000002");
    assert_eq!(
        deliveries[0].result,
        Err(NotificationError::Driver("not implemented".into())),
    );
}

#[test]
fn direct_notification_to_the_actor() {
    let me = UID { value: 5 };
    let mut backend = Recorder { sent: Vec::new(), failing: None };
    let n = Notify::Member { event: Event::Logout, user: me };
    let deliveries = n.send(&mut backend, &None, &me);
    assert_eq!(deliveries.len(), 1);
    assert_eq!(
        backend.sent,
        vec![("00000000000000000000000000000005".to_string(), Event::Logout)],
    );
}

#[test]
fn failed_recipient_does_not_stop_the_others() {
    let family = UID { value: 100 };
    let parent = user(1, Role::Parent, family);
    let members = Some(vec![parent.clone(), user(2, Role::Child, family), user(3, Role::Child, family)]);
    let mut backend = Recorder {
        sent: Vec::new(),
        failing: Some("00000000000000000000000000000002".to_string()),
    };
    let n = Notify::Family { event: Event::Ping, family };
    let deliveries = n.send(&mut backend, &members, &parent.uid);
    assert_eq!(backend.sent.len(), 2);
    assert!(deliveries[0].result.is_err());
    assert!(deliveries[1].result.is_ok());
}

#[test]
fn fixture_refuses_publications() {
    let mut notifier = dummy::Notifier::new_with_events(vec![Event::Ping]);
    assert_eq!(
        notifier.publish("x", &Event::Logout),
        Err(NotificationError::Driver("not implemented".into())),
    );
    assert_eq!(notifier.listen("x").unwrap(), vec![Event::Ping]);
}

#[test]
fn listen() {
    let channel = "test";
    let expected = vec!["one".to_string(), "two".to_string(), "three".to_string()];
    let notifier = dummy::Notifier::new_with_events(expected.clone());

    let events = notifier.listen(channel).unwrap();

    assert_eq!(events, expected);
}

#[test]
fn dummy_starts_empty() {
    let notifier = dummy::Notifier::<Event>::new(&dummy::Configuration).ok().unwrap();
    assert_eq!(notifier.listen("x").unwrap(), Vec::<Event>::new());
}

#[test]
fn broker_channel_names() {
    let configuration = redis::Configuration {
        connection_string: "redis://localhost".into(),
        channel_prefix: "allowance".into(),
    };
    let notifier = redis::Notifier::new(&configuration);
    assert_eq!(notifier.channel("abc"), "allowance.abc");
}

#[test]
fn propagating() {
    let mut socket = NotificationSocket::new();
    let forwarded = socket.handle_all(vec![Ok(Event::Ping), Ok(Event::Ping), Ok(Event::Ping)]);
    assert_eq!(forwarded, vec![Event::Ping, Event::Ping, Event::Ping]);
    assert!(socket.open());
}

#[test]
fn logout_closes_and_stops_forwarding() {
    let mut socket = NotificationSocket::new();
    let forwarded = socket.handle_all(vec![
        Ok(Event::Ping),
        Err(NotificationError::Serialization("bad payload".into())),
        Ok(Event::Logout),
        Ok(Event::Ping),
        Ok(Event::Ping),
    ]);
    assert_eq!(forwarded, vec![Event::Ping]);
    assert!(!socket.open());
    assert!(matches!(socket.handle(Ok(Event::Ping)), Reaction::Ignore));
}

#[test]
fn stream_errors_are_dropped() {
    let mut socket = NotificationSocket::new();
    let e = NotificationError::Serialization("bad".into());
    assert!(matches!(socket.handle(Err(e)), Reaction::Drop(_)));
    assert!(socket.open());
    assert!(matches!(socket.handle(Ok(Event::Ping)), Reaction::Forward(Event::Ping)));
    assert!(matches!(socket.handle(Ok(Event::Logout)), Reaction::Close));
    assert!(!socket.open());
}
