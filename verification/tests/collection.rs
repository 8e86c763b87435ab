use bulma_notifications::NotificationProps;
use bulma_notifications::Position;
use bulma_notifications::collection::NotificationCollection;
use bulma_notifications::collection::NotificationList;

fn props_at(position: Position) -> NotificationProps {
    let mut p = NotificationProps::new(String::from("body"));
    p.position = position;
    p
}

#[test]
fn fresh_collection_is_empty() {
    let c = NotificationCollection::new();
    assert!(c.snapshot(Position::TopLeft).is_empty());
    assert!(c.snapshot(Position::TopRight).is_empty());
    assert!(c.snapshot(Position::BottomLeft).is_empty());
    assert!(c.snapshot(Position::BottomRight).is_empty());
}

#[test]
fn ids_count_up_from_zero_per_corner() {
    let mut c = NotificationCollection::new();
    assert_eq!(c.next_id(Position::TopLeft), 0);
    assert_eq!(c.next_id(Position::TopLeft), 1);
    assert_eq!(c.next_id(Position::TopLeft), 2);
    // Other corners' counters are independent.
    assert_eq!(c.next_id(Position::BottomRight), 0);
    assert_eq!(c.next_id(Position::BottomRight), 1);
    assert_eq!(c.next_id(Position::TopRight), 0);
    assert_eq!(c.next_id(Position::BottomLeft), 0);
    assert_eq!(c.next_id(Position::TopLeft), 3);
}

#[test]
fn counter_never_reuses_after_removal() {
    let mut c = NotificationCollection::new();
    let id = c.next_id(Position::TopRight);
    c.insert(id, None, Position::TopRight, props_at(Position::TopRight));
    c.remove_id(Position::TopRight, id);
    assert!(c.snapshot(Position::TopRight).is_empty());
    assert_eq!(c.next_id(Position::TopRight), 1);
}

#[test]
fn remove_id_takes_first_match_and_keeps_order() {
    let mut l = NotificationList::new();
    l.insert(0, None, props_at(Position::TopLeft));
    l.insert(1, Some(String::from("a")), props_at(Position::TopLeft));
    l.insert(1, Some(String::from("b")), props_at(Position::TopLeft));
    l.insert(2, None, props_at(Position::TopLeft));
    l.remove_id(1);
    let ids: Vec<usize> = l.items().iter().map(|e| e.id).collect();
    assert_eq!(ids, vec![0, 1, 2]);
    // The earliest entry with id 1 is the one that went.
    assert_eq!(l.items()[1].tag, Some(String::from("b")));
}

#[test]
fn remove_absent_id_is_a_no_op() {
    let mut l = NotificationList::new();
    l.insert(0, None, props_at(Position::TopLeft));
    l.insert(1, None, props_at(Position::TopLeft));
    l.remove_id(9);
    let ids: Vec<usize> = l.items().iter().map(|e| e.id).collect();
    assert_eq!(ids, vec![0, 1]);
}

#[test]
fn remove_tag_is_exhaustive_within_a_list() {
    let mut l = NotificationList::new();
    l.insert(0, Some(String::from("x")), props_at(Position::TopLeft));
    l.insert(1, Some(String::from("y")), props_at(Position::TopLeft));
    l.insert(2, Some(String::from("x")), props_at(Position::TopLeft));
    l.insert(3, None, props_at(Position::TopLeft));
    l.remove_tag(&String::from("x"));
    let ids: Vec<usize> = l.items().iter().map(|e| e.id).collect();
    assert_eq!(ids, vec![1, 3]);
    assert_eq!(l.items()[0].tag, Some(String::from("y")));
    assert_eq!(l.items()[1].tag, None);
}

#[test]
fn remove_tag_spans_all_four_corners() {
    let mut c = NotificationCollection::new();
    for position in [
        Position::TopLeft,
        Position::TopRight,
        Position::BottomLeft,
        Position::BottomRight,
    ] {
        let id = c.next_id(position);
        c.insert(id, Some(String::from("gone")), position, props_at(position));
        let id = c.next_id(position);
        c.insert(id, Some(String::from("kept")), position, props_at(position));
    }
    c.remove_tag(&String::from("gone"));
    for position in [
        Position::TopLeft,
        Position::TopRight,
        Position::BottomLeft,
        Position::BottomRight,
    ] {
        let snapshot = c.snapshot(position);
        assert_eq!(snapshot.len(), 1);
        assert_eq!(snapshot[0].tag, Some(String::from("kept")));
        assert_eq!(snapshot[0].id, 1);
    }
}

#[test]
fn by_position_orders_corners() {
    let mut c = NotificationCollection::new();
    let id = c.next_id(Position::BottomLeft);
    c.insert(id, None, Position::BottomLeft, props_at(Position::BottomLeft));
    let (tl, tr, bl, br) = c.by_position();
    assert!(tl.is_empty());
    assert!(tr.is_empty());
    assert!(!bl.is_empty());
    assert!(br.is_empty());
    assert_eq!(bl.items().len(), 1);
}

#[test]
fn entries_keep_their_records() {
    let mut c = NotificationCollection::new();
    let mut p = props_at(Position::TopLeft);
    p.header = Some(String::from("greeting"));
    p.children = String::from("hello there");
    let id = c.next_id(Position::TopLeft);
    c.insert(id, None, Position::TopLeft, p);
    let snapshot = c.snapshot(Position::TopLeft);
    assert_eq!(snapshot[0].props.header, Some(String::from("greeting")));
    assert_eq!(snapshot[0].props.children, String::from("hello there"));
}
