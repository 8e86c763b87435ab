//! The rendering consumer's event handler: it owns one
//! [`NotificationCollection`], assigns each incoming record a
//! corner-scoped id, and removes entries when a notification's exit
//! completes or a close-by-tag broadcast matches.
//!
//! The embedding layer bridges the broadcast channel to
//! [`NotificationConsumer::update`], wraps each stored record's terminal
//! callbacks so that they feed `Msg::Closed` / `Msg::TimedOut` back here,
//! and re-renders whenever an update asks for it.

use vstd::prelude::*;

use crate::agent::NotificationAgentOutput;
use crate::collection::CollectionView;
use crate::collection::ListView;
use crate::collection::NotificationCollection;
use crate::collection::corner;
use crate::collection::empty_collection_view;
use crate::collection::remove_first_id;
use crate::collection::spawned;
use crate::collection::with_corner;
use crate::collection::without_tag;
use crate::properties::Position;

verus! {

/// An event for the consumer: a broadcast arrived, or a notification in a
/// given corner, with a given id, finished closing or timing out and is
/// to be removed, after which the carried callback handle (the record's
/// original terminal callback, if any) is to be invoked.
pub enum Msg {
    ServiceMsg(NotificationAgentOutput),
    Closed(Position, usize, Option<u64>),
    TimedOut(Position, usize, Option<u64>),
}

/// What one consumer update asks the embedding layer to do: re-render,
/// and possibly invoke a callback by its handle.
#[derive(Clone, Copy, PartialEq, Eq, Structural, Debug)]
pub struct ConsumerEffects {
    pub render: bool,
    pub invoke: Option<u64>,
}

/// The consumer-side store: one collection of live notifications. Its
/// view is the collection's.
pub struct NotificationConsumer {
    notifications: NotificationCollection,
}

impl View for NotificationConsumer {
    type V = CollectionView;

    closed spec fn view(&self) -> CollectionView {
        self.notifications@
    }
}

impl NotificationConsumer {
    /// A consumer with an empty collection. The embedding layer registers
    /// it with the broadcast channel on creation and unregisters it on
    /// teardown.
    pub fn create() -> (c: Self)
        ensures
            c@ == empty_collection_view(),
    {
        NotificationConsumer { notifications: NotificationCollection::new() }
    }

    /// The owned collection, for rendering the per-corner snapshots.
    pub fn notifications(&self) -> (r: &NotificationCollection)
        ensures
            r@ == self@,
    {
        &self.notifications
    }

    /// Handle one event.
    ///
    /// A new record is assigned the next id of its target corner and
    /// appended there, tagged or untagged. A close-by-tag broadcast
    /// removes every matching entry in every corner, immediately and
    /// without waiting for an exit animation. A finished close or
    /// timeout removes the first entry with the given id from the given
    /// corner — a silent no-op if it is already gone — and hands back the
    /// callback handle to invoke. Every event asks for a re-render.
    pub fn update(&mut self, msg: Msg) -> (r: ConsumerEffects)
        requires
            match msg {
                Msg::ServiceMsg(NotificationAgentOutput::New(p)) => corner(
                    old(self)@,
                    p.position,
                ).next_id < usize::MAX,
                Msg::ServiceMsg(NotificationAgentOutput::NewTagged(p, _)) => corner(
                    old(self)@,
                    p.position,
                ).next_id < usize::MAX,
                _ => true,
            },
        ensures
            r.render,
            match msg {
                Msg::ServiceMsg(NotificationAgentOutput::New(p)) => {
                    &&& final(self)@ == spawned(old(self)@, p.position, None, p@)
                    &&& r.invoke is None
                },
                Msg::ServiceMsg(NotificationAgentOutput::NewTagged(p, t)) => {
                    &&& final(self)@ == spawned(old(self)@, p.position, Some(t@), p@)
                    &&& r.invoke is None
                },
                Msg::ServiceMsg(NotificationAgentOutput::CloseTagged(t)) => {
                    &&& forall|q: Position| #[trigger] corner(final(self)@, q).items
                        == without_tag(corner(old(self)@, q).items, t@)
                    &&& forall|q: Position| #[trigger] corner(final(self)@, q).next_id == corner(
                        old(self)@,
                        q,
                    ).next_id
                    &&& r.invoke is None
                },
                Msg::Closed(position, id, callback) => {
                    &&& final(self)@ == with_corner(
                        old(self)@,
                        position,
                        ListView {
                            next_id: corner(old(self)@, position).next_id,
                            items: remove_first_id(corner(old(self)@, position).items, id as nat),
                        },
                    )
                    &&& r.invoke == callback
                },
                Msg::TimedOut(position, id, callback) => {
                    &&& final(self)@ == with_corner(
                        old(self)@,
                        position,
                        ListView {
                            next_id: corner(old(self)@, position).next_id,
                            items: remove_first_id(corner(old(self)@, position).items, id as nat),
                        },
                    )
                    &&& r.invoke == callback
                },
            },
    {
        match msg {
            Msg::ServiceMsg(out) => match out {
                NotificationAgentOutput::New(props) => {
                    let position = props.position;
                    let ghost pre = self@;
                    let id = self.notifications.next_id(position);
                    self.notifications.insert(id, None, position, props);
                    proof {
                        lemma_with_corner_twice(pre, position);
                    }
                    ConsumerEffects { render: true, invoke: None }
                },
                NotificationAgentOutput::NewTagged(props, tag) => {
                    let position = props.position;
                    let ghost pre = self@;
                    let id = self.notifications.next_id(position);
                    self.notifications.insert(id, Some(tag), position, props);
                    proof {
                        lemma_with_corner_twice(pre, position);
                    }
                    ConsumerEffects { render: true, invoke: None }
                },
                NotificationAgentOutput::CloseTagged(tag) => {
                    self.notifications.remove_tag(&tag);
                    ConsumerEffects { render: true, invoke: None }
                },
            },
            Msg::Closed(position, id, callback) => {
                self.notifications.remove_id(position, id);
                ConsumerEffects { render: true, invoke: callback }
            },
            Msg::TimedOut(position, id, callback) => {
                self.notifications.remove_id(position, id);
                ConsumerEffects { render: true, invoke: callback }
            },
        }
    }
}

/// Replacing a corner twice keeps only the second replacement, and the
/// intermediate corner is read back unchanged.
proof fn lemma_with_corner_twice(c: CollectionView, p: Position)
    ensures
        forall|l1: ListView, l2: ListView| #[trigger] with_corner(with_corner(c, p, l1), p, l2)
            == with_corner(c, p, l2),
        forall|l1: ListView| #[trigger] corner(with_corner(c, p, l1), p) == l1,
{
    match p {
        Position::TopLeft => {},
        Position::TopRight => {},
        Position::BottomLeft => {},
        Position::BottomRight => {},
    }
}

} // verus!
