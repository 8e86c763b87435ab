use bulma_notifications::NotificationAgentOutput;
use bulma_notifications::NotificationConsumer;
use bulma_notifications::NotificationProps;
use bulma_notifications::Position;
use bulma_notifications::consumer::Msg;

fn props_at(position: Position) -> NotificationProps {
    let mut p = NotificationProps::new(String::from("body"));
    p.position = position;
    p.standalone = false;
    p
}

#[test]
fn three_spawns_then_remove_middle_id() {
    let mut consumer = NotificationConsumer::create();
    for _ in 0..3 {
        let e = consumer.update(Msg::ServiceMsg(NotificationAgentOutput::New(props_at(
            Position::TopLeft,
        ))));
        assert!(e.render);
        assert_eq!(e.invoke, None);
    }
    let ids: Vec<usize> = consumer
        .notifications()
        .snapshot(Position::TopLeft)
        .iter()
        .map(|e| e.id)
        .collect();
    assert_eq!(ids, vec![0, 1, 2]);

    let e = consumer.update(Msg::Closed(Position::TopLeft, 1, None));
    assert!(e.render);
    assert_eq!(e.invoke, None);
    let ids: Vec<usize> = consumer
        .notifications()
        .snapshot(Position::TopLeft)
        .iter()
        .map(|e| e.id)
        .collect();
    assert_eq!(ids, vec![0, 2]);
}

#[test]
fn close_by_tag_spans_corners() {
    let mut consumer = NotificationConsumer::create();
    let mut record_a = props_at(Position::TopLeft);
    record_a.header = Some(String::from("A"));
    consumer.update(Msg::ServiceMsg(NotificationAgentOutput::NewTagged(
        record_a,
        String::from("x"),
    )));
    let mut record_b = props_at(Position::BottomRight);
    record_b.header = Some(String::from("B"));
    consumer.update(Msg::ServiceMsg(NotificationAgentOutput::NewTagged(
        record_b,
        String::from("x"),
    )));
    assert_eq!(consumer.notifications().snapshot(Position::TopLeft).len(), 1);
    assert_eq!(consumer.notifications().snapshot(Position::BottomRight).len(), 1);

    let e = consumer.update(Msg::ServiceMsg(NotificationAgentOutput::CloseTagged(
        String::from("x"),
    )));
    assert!(e.render);
    assert!(consumer.notifications().snapshot(Position::TopLeft).is_empty());
    assert!(consumer.notifications().snapshot(Position::BottomRight).is_empty());
}

#[test]
fn close_by_tag_keeps_other_tags_and_untagged() {
    let mut consumer = NotificationConsumer::create();
    consumer.update(Msg::ServiceMsg(NotificationAgentOutput::NewTagged(
        props_at(Position::TopLeft),
        String::from("x"),
    )));
    consumer.update(Msg::ServiceMsg(NotificationAgentOutput::NewTagged(
        props_at(Position::TopLeft),
        String::from("y"),
    )));
    consumer.update(Msg::ServiceMsg(NotificationAgentOutput::New(props_at(
        Position::TopLeft,
    ))));
    consumer.update(Msg::ServiceMsg(NotificationAgentOutput::CloseTagged(
        String::from("x"),
    )));
    let snapshot = consumer.notifications().snapshot(Position::TopLeft);
    assert_eq!(snapshot.len(), 2);
    assert_eq!(snapshot[0].tag, Some(String::from("y")));
    assert_eq!(snapshot[0].id, 1);
    assert_eq!(snapshot[1].tag, None);
    assert_eq!(snapshot[1].id, 2);
}

#[test]
fn removal_event_hands_back_the_callback_handle() {
    let mut consumer = NotificationConsumer::create();
    let mut p = props_at(Position::TopRight);
    p.on_closed = Some(42);
    consumer.update(Msg::ServiceMsg(NotificationAgentOutput::New(p)));
    let e = consumer.update(Msg::Closed(Position::TopRight, 0, Some(42)));
    assert!(e.render);
    assert_eq!(e.invoke, Some(42));
    assert!(consumer.notifications().snapshot(Position::TopRight).is_empty());

    let mut p = props_at(Position::BottomLeft);
    p.on_timeout = Some(7);
    consumer.update(Msg::ServiceMsg(NotificationAgentOutput::New(p)));
    let e = consumer.update(Msg::TimedOut(Position::BottomLeft, 0, Some(7)));
    assert_eq!(e.invoke, Some(7));
    assert!(consumer.notifications().snapshot(Position::BottomLeft).is_empty());
}

#[test]
fn removing_an_already_gone_id_is_idempotent() {
    let mut consumer = NotificationConsumer::create();
    consumer.update(Msg::ServiceMsg(NotificationAgentOutput::New(props_at(
        Position::TopLeft,
    ))));
    consumer.update(Msg::Closed(Position::TopLeft, 0, None));
    let e = consumer.update(Msg::Closed(Position::TopLeft, 0, Some(3)));
    assert!(e.render);
    assert_eq!(e.invoke, Some(3));
    assert!(consumer.notifications().snapshot(Position::TopLeft).is_empty());
}

#[test]
fn corner_ids_are_independent_across_spawns() {
    let mut consumer = NotificationConsumer::create();
    consumer.update(Msg::ServiceMsg(NotificationAgentOutput::New(props_at(
        Position::TopLeft,
    ))));
    consumer.update(Msg::ServiceMsg(NotificationAgentOutput::New(props_at(
        Position::BottomRight,
    ))));
    consumer.update(Msg::ServiceMsg(NotificationAgentOutput::New(props_at(
        Position::TopLeft,
    ))));
    let tl: Vec<usize> = consumer
        .notifications()
        .snapshot(Position::TopLeft)
        .iter()
        .map(|e| e.id)
        .collect();
    let br: Vec<usize> = consumer
        .notifications()
        .snapshot(Position::BottomRight)
        .iter()
        .map(|e| e.id)
        .collect();
    assert_eq!(tl, vec![0, 1]);
    assert_eq!(br, vec![0]);
}
