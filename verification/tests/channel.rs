use bulma_notifications::NotificationAgent;
use bulma_notifications::NotificationAgentInput;
use bulma_notifications::NotificationAgentOutput;
use bulma_notifications::NotificationProps;
use bulma_notifications::NotificationService;

fn plain_props() -> NotificationProps {
    NotificationProps::new(String::from("body"))
}

#[test]
fn broadcast_reaches_every_registered_consumer_once() {
    let mut agent = NotificationAgent::create();
    assert!(agent.handle_input(NotificationAgentInput::RegisterConsumer, 1).is_none());
    assert!(agent.handle_input(NotificationAgentInput::RegisterConsumer, 2).is_none());
    // Re-registration is idempotent.
    assert!(agent.handle_input(NotificationAgentInput::RegisterConsumer, 1).is_none());
    let (recipients, _) = agent
        .handle_input(NotificationAgentInput::New(plain_props()), 1)
        .unwrap();
    assert_eq!(recipients, vec![1, 2]);
}

#[test]
fn broadcast_with_no_consumers_is_silently_dropped() {
    let mut agent = NotificationAgent::create();
    let (recipients, _) = agent
        .handle_input(NotificationAgentInput::New(plain_props()), 9)
        .unwrap();
    assert!(recipients.is_empty());
}

#[test]
fn broadcast_rewrites_standalone_and_keeps_the_rest() {
    let mut agent = NotificationAgent::create();
    agent.handle_input(NotificationAgentInput::RegisterConsumer, 4);
    let mut props = plain_props();
    props.header = Some(String::from("hi"));
    props.standalone = true;
    props.on_closed = Some(11);
    let (_, out) = agent
        .handle_input(NotificationAgentInput::New(props), 4)
        .unwrap();
    match out {
        NotificationAgentOutput::New(p) => {
            assert!(!p.standalone);
            assert_eq!(p.header, Some(String::from("hi")));
            assert_eq!(p.children, String::from("body"));
            assert_eq!(p.on_closed, Some(11));
            assert!(p.can_close);
        }
        _ => panic!("expected a new-notification broadcast"),
    }
}

#[test]
fn tagged_broadcast_carries_the_tag() {
    let mut agent = NotificationAgent::create();
    agent.handle_input(NotificationAgentInput::RegisterConsumer, 4);
    let (_, out) = agent
        .handle_input(
            NotificationAgentInput::NewTagged(plain_props(), String::from("job-7")),
            4,
        )
        .unwrap();
    match out {
        NotificationAgentOutput::NewTagged(p, tag) => {
            assert!(!p.standalone);
            assert_eq!(tag, String::from("job-7"));
        }
        _ => panic!("expected a tagged broadcast"),
    }
    let (_, out) = agent
        .handle_input(NotificationAgentInput::CloseTagged(String::from("job-7")), 4)
        .unwrap();
    match out {
        NotificationAgentOutput::CloseTagged(tag) => assert_eq!(tag, String::from("job-7")),
        _ => panic!("expected a close broadcast"),
    }
}

#[test]
fn disconnected_consumer_gets_nothing_further() {
    let mut agent = NotificationAgent::create();
    agent.handle_input(NotificationAgentInput::RegisterConsumer, 1);
    agent.handle_input(NotificationAgentInput::RegisterConsumer, 2);
    agent.handle_input(NotificationAgentInput::RegisterConsumer, 3);
    agent.disconnected(2);
    let (recipients, _) = agent
        .handle_input(NotificationAgentInput::New(plain_props()), 1)
        .unwrap();
    assert_eq!(recipients, vec![1, 3]);
}

#[test]
fn disconnecting_an_unknown_consumer_is_a_no_op() {
    let mut agent = NotificationAgent::create();
    agent.handle_input(NotificationAgentInput::RegisterConsumer, 1);
    agent.disconnected(9);
    let (recipients, _) = agent
        .handle_input(NotificationAgentInput::New(plain_props()), 1)
        .unwrap();
    assert_eq!(recipients, vec![1]);
}

#[test]
fn service_queues_messages_in_send_order() {
    let mut service = NotificationService::new();
    assert!(service.take_pending().is_empty());
    let mut props = plain_props();
    props.header = Some(String::from("first"));
    service.spawn(props);
    service.spawn_with_id(plain_props(), String::from("tag-a"));
    service.close_id(String::from("tag-a"));
    let pending = service.take_pending();
    assert_eq!(pending.len(), 3);
    match &pending[0] {
        NotificationAgentInput::New(p) => assert_eq!(p.header, Some(String::from("first"))),
        _ => panic!("expected a spawn message first"),
    }
    match &pending[1] {
        NotificationAgentInput::NewTagged(_, tag) => assert_eq!(tag, &String::from("tag-a")),
        _ => panic!("expected a tagged spawn second"),
    }
    match &pending[2] {
        NotificationAgentInput::CloseTagged(tag) => assert_eq!(tag, &String::from("tag-a")),
        _ => panic!("expected a close message third"),
    }
    // The queue is drained.
    assert!(service.take_pending().is_empty());
}

#[test]
fn default_service_is_empty() {
    let mut service = NotificationService::default();
    assert!(service.take_pending().is_empty());
}
