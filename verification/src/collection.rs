//! The consumer-side store of live notifications: four independent ordered
//! lists, one per screen corner, each with its own monotonic id counter.
//!
//! Insertion appends; removal by id takes the first match in insertion
//! order; removal by tag is exhaustive across all four corners. Removing
//! an absent id or tag is a silent no-op.

use vstd::prelude::*;

use crate::notification::NotificationProps;
use crate::notification::PropsView;
use crate::properties::Position;

verus! {

/// One tracked notification instance inside a corner's list: its
/// corner-scoped id, its caller-chosen (non-unique) tag, and its record.
pub struct Entry {
    pub id: usize,
    pub tag: Option<String>,
    pub props: NotificationProps,
}

/// The mathematical view of an [`Entry`].
pub ghost struct EntryView {
    pub id: nat,
    pub tag: Option<Seq<char>>,
    pub props: PropsView,
}

/// The view of an optional tag as an optional character sequence.
pub open spec fn tag_view(t: Option<String>) -> Option<Seq<char>> {
    match t {
        Some(s) => Some(s@),
        None => None,
    }
}

impl View for Entry {
    type V = EntryView;

    open spec fn view(&self) -> EntryView {
        EntryView { id: self.id as nat, tag: tag_view(self.tag), props: self.props@ }
    }
}

/// The view of a sequence of entries.
pub open spec fn entries_view(s: Seq<Entry>) -> Seq<EntryView> {
    s.map_values(|e: Entry| e@)
}

/// Remove the first entry with the given id, if any; the rest keep their
/// relative order.
pub open spec fn remove_first_id(s: Seq<EntryView>, id: nat) -> Seq<EntryView>
    decreases s.len(),
{
    if s.len() == 0 {
        s
    } else if s[0].id == id {
        s.drop_first()
    } else {
        seq![s[0]] + remove_first_id(s.drop_first(), id)
    }
}

/// Whether some entry carries the given id.
pub open spec fn has_id(s: Seq<EntryView>, id: nat) -> bool {
    exists|i: int| 0 <= i < s.len() && s[i].id == id
}

/// Remove every entry whose tag equals the given tag; the rest keep their
/// relative order.
pub open spec fn without_tag(s: Seq<EntryView>, t: Seq<char>) -> Seq<EntryView>
    decreases s.len(),
{
    if s.len() == 0 {
        s
    } else if s[0].tag == Some(t) {
        without_tag(s.drop_first(), t)
    } else {
        seq![s[0]] + without_tag(s.drop_first(), t)
    }
}

/// Removing a present id removes exactly the earliest entry carrying it
/// and leaves all others in their original relative order: when the first
/// match sits at index `i`, the result is the sequence with index `i`
/// deleted.
pub proof fn lemma_remove_first_id_at(s: Seq<EntryView>, id: nat, i: int)
    requires
        0 <= i < s.len(),
        forall|k: int| 0 <= k < i ==> s[k].id != id,
        s[i].id == id,
    ensures
        remove_first_id(s, id) == s.remove(i),
    decreases i,
{
    if i == 0 {
        assert(remove_first_id(s, id) =~= s.remove(0));
    } else {
        assert(s[0].id != id);
        assert(forall|k: int| 0 <= k < i - 1 ==> s.drop_first()[k].id != id);
        lemma_remove_first_id_at(s.drop_first(), id, i - 1);
        assert(seq![s[0]] + s.drop_first().remove(i - 1) =~= s.remove(i));
    }
}

/// Removing an absent id changes nothing.
pub proof fn lemma_remove_first_id_absent(s: Seq<EntryView>, id: nat)
    requires
        !has_id(s, id),
    ensures
        remove_first_id(s, id) == s,
    decreases s.len(),
{
    if s.len() > 0 {
        assert(s[0].id != id);
        assert(!has_id(s.drop_first(), id)) by {
            if has_id(s.drop_first(), id) {
                let i = choose|i: int|
                    0 <= i < s.drop_first().len() && s.drop_first()[i].id == id;
                assert(s[i + 1].id == id);
            }
        }
        lemma_remove_first_id_absent(s.drop_first(), id);
        assert(seq![s[0]] + s.drop_first() =~= s);
    }
}

/// No entry with the removed tag survives [`without_tag`].
pub proof fn lemma_without_tag_no_match(s: Seq<EntryView>, t: Seq<char>)
    ensures
        forall|i: int|
            0 <= i < without_tag(s, t).len() ==> #[trigger] without_tag(s, t)[i].tag != Some(t),
    decreases s.len(),
{
    if s.len() > 0 {
        lemma_without_tag_no_match(s.drop_first(), t);
        if s[0].tag != Some(t) {
            assert forall|i: int|
                0 <= i < without_tag(s, t).len() implies #[trigger] without_tag(s, t)[i].tag
                != Some(t) by {
                if i > 0 {
                    assert(without_tag(s, t)[i] == without_tag(s.drop_first(), t)[i - 1]);
                }
            }
        }
    }
}

/// [`without_tag`] keeps exactly the entries whose tag differs from the
/// removed tag, in their original relative order: it equals a filter of
/// the original sequence.
pub proof fn lemma_without_tag_is_filter(s: Seq<EntryView>, t: Seq<char>)
    ensures
        without_tag(s, t) == s.filter(|e: EntryView| e.tag != Some(t)),
    decreases s.len(),
{
    let pred = |e: EntryView| e.tag != Some(t);
    reveal_with_fuel(Seq::filter, 2);
    if s.len() == 0 {
        assert(s.filter(pred) =~= s);
    } else {
        lemma_without_tag_is_filter(s.drop_first(), t);
        assert(s =~= seq![s[0]] + s.drop_first());
        Seq::<EntryView>::filter_distributes_over_add(seq![s[0]], s.drop_first(), pred);
        assert(seq![s[0]].drop_last() =~= Seq::<EntryView>::empty());
        if pred(s[0]) {
            assert(seq![s[0]].filter(pred) =~= seq![s[0]]);
        } else {
            assert(seq![s[0]].filter(pred) =~= Seq::<EntryView>::empty());
            assert(without_tag(s, t) =~= s.filter(pred));
        }
    }
}

/// The mathematical view of a [`NotificationList`]: the counter and the
/// entries in insertion order.
pub ghost struct ListView {
    pub next_id: nat,
    pub items: Seq<EntryView>,
}

/// One corner's ordered list of live notifications together with its
/// monotonic id counter. The counter never resets and never reuses a
/// value.
pub struct NotificationList {
    next_id: usize,
    items: Vec<Entry>,
}

impl View for NotificationList {
    type V = ListView;

    closed spec fn view(&self) -> ListView {
        ListView { next_id: self.next_id as nat, items: entries_view(self.items@) }
    }
}

impl NotificationList {
    /// An empty list with its counter at zero.
    pub fn new() -> (l: Self)
        ensures
            l@.next_id == 0,
            l@.items == Seq::<EntryView>::empty(),
    {
        let l = NotificationList { next_id: 0, items: Vec::new() };
        proof {
            assert(l@.items =~= Seq::<EntryView>::empty());
        }
        l
    }

    /// Return the next free id and advance the counter.
    pub fn next_id(&mut self) -> (id: usize)
        requires
            old(self)@.next_id < usize::MAX,
        ensures
            id == old(self)@.next_id,
            final(self)@.next_id == old(self)@.next_id + 1,
            final(self)@.items == old(self)@.items,
    {
        let id = self.next_id;
        self.next_id = self.next_id + 1;
        id
    }

    /// Append an entry. Tags are not required to be unique; colliding tags
    /// are explicitly allowed.
    pub fn insert(&mut self, id: usize, tag: Option<String>, props: NotificationProps)
        ensures
            final(self)@.next_id == old(self)@.next_id,
            final(self)@.items == old(self)@.items.push(
                EntryView { id: id as nat, tag: tag_view(tag), props: props@ },
            ),
    {
        let ghost entry_view = EntryView { id: id as nat, tag: tag_view(tag), props: props@ };
        self.items.push(Entry { id, tag, props });
        proof {
            assert(self@.items =~= old(self)@.items.push(entry_view));
        }
    }

    /// Remove the first entry whose id matches; a no-op if the id is
    /// absent.
    pub fn remove_id(&mut self, id: usize)
        ensures
            final(self)@.next_id == old(self)@.next_id,
            final(self)@.items == remove_first_id(old(self)@.items, id as nat),
    {
        proof {
            assert(self@.items.subrange(0, self@.items.len() as int) =~= self@.items);
            assert(self@.items.subrange(0, 0) =~= Seq::<EntryView>::empty());
            assert(Seq::<EntryView>::empty() + remove_first_id(self@.items, id as nat)
                =~= remove_first_id(self@.items, id as nat));
        }
        let mut i: usize = 0;
        while i < self.items.len()
            invariant
                i <= self.items.len(),
                self.next_id == old(self).next_id,
                remove_first_id(old(self)@.items, id as nat) == self@.items.subrange(0, i as int)
                    + remove_first_id(
                    self@.items.subrange(i as int, self@.items.len() as int),
                    id as nat,
                ),
            decreases self.items.len() - i,
        {
            let ghost pre = self@.items;
            let ghost suffix = pre.subrange(i as int, pre.len() as int);
            proof {
                assert(suffix[0] == pre[i as int]);
                assert(suffix.drop_first() =~= pre.subrange(i as int + 1, pre.len() as int));
            }
            if self.items[i].id == id {
                proof {
                    assert(suffix[0].id == id as nat);
                }
                self.items.remove(i);
                proof {
                    assert(self@.items =~= pre.remove(i as int));
                    assert(self@.items =~= pre.subrange(0, i as int) + suffix.drop_first());
                }
                return ;
            }
            proof {
                assert(seq![suffix[0]] + suffix.drop_first() =~= suffix);
                assert(pre.subrange(0, i as int).push(pre[i as int]) =~= pre.subrange(
                    0,
                    i as int + 1,
                ));
                assert(pre.subrange(0, i as int) + (seq![suffix[0]] + remove_first_id(
                    suffix.drop_first(),
                    id as nat,
                )) =~= pre.subrange(0, i as int + 1) + remove_first_id(
                    suffix.drop_first(),
                    id as nat,
                ));
            }
            i = i + 1;
        }
        proof {
            assert(self@.items.subrange(i as int, self@.items.len() as int)
                =~= Seq::<EntryView>::empty());
            assert(self@.items.subrange(0, i as int) =~= self@.items);
            assert(remove_first_id(old(self)@.items, id as nat) =~= self@.items);
        }
    }

    /// Remove every entry whose tag equals the given tag, exhaustively;
    /// entries with other tags, or none, keep their relative order.
    pub fn remove_tag(&mut self, tag: &String)
        ensures
            final(self)@.next_id == old(self)@.next_id,
            final(self)@.items == without_tag(old(self)@.items, tag@),
    {
        proof {
            assert(self@.items.subrange(0, self@.items.len() as int) =~= self@.items);
            assert(self@.items.subrange(0, 0) =~= Seq::<EntryView>::empty());
            assert(Seq::<EntryView>::empty() + without_tag(self@.items, tag@) =~= without_tag(
                self@.items,
                tag@,
            ));
        }
        let mut i: usize = 0;
        while i < self.items.len()
            invariant
                i <= self.items.len(),
                self.next_id == old(self).next_id,
                without_tag(old(self)@.items, tag@) == self@.items.subrange(0, i as int)
                    + without_tag(
                    self@.items.subrange(i as int, self@.items.len() as int),
                    tag@,
                ),
            decreases self.items.len() - i,
        {
            let ghost pre = self@.items;
            let ghost suffix = pre.subrange(i as int, pre.len() as int);
            proof {
                assert(suffix[0] == pre[i as int]);
                assert(suffix.drop_first() =~= pre.subrange(i as int + 1, pre.len() as int));
            }
            let matches_tag = match &self.items[i].tag {
                Some(t) => t.eq(tag),
                None => false,
            };
            if matches_tag {
                proof {
                    assert(pre[i as int].tag == Some(tag@));
                    assert(suffix[0].tag == Some(tag@));
                    assert(without_tag(suffix, tag@) == without_tag(suffix.drop_first(), tag@));
                }
                self.items.remove(i);
                proof {
                    assert(self@.items =~= pre.remove(i as int));
                    assert(self@.items =~= pre.subrange(0, i as int) + suffix.drop_first());
                    assert(self@.items.subrange(0, i as int) =~= pre.subrange(0, i as int));
                    assert(self@.items.subrange(i as int, self@.items.len() as int)
                        =~= suffix.drop_first());
                }
            } else {
                proof {
                    assert(seq![suffix[0]] + suffix.drop_first() =~= suffix);
                    assert(pre.subrange(0, i as int).push(pre[i as int]) =~= pre.subrange(
                        0,
                        i as int + 1,
                    ));
                    assert(pre.subrange(0, i as int) + (seq![suffix[0]] + without_tag(
                        suffix.drop_first(),
                        tag@,
                    )) =~= pre.subrange(0, i as int + 1) + without_tag(
                        suffix.drop_first(),
                        tag@,
                    ));
                }
                i = i + 1;
            }
        }
        proof {
            assert(self@.items.subrange(i as int, self@.items.len() as int)
                =~= Seq::<EntryView>::empty());
            assert(self@.items.subrange(0, i as int) =~= self@.items);
            assert(without_tag(old(self)@.items, tag@) =~= self@.items);
        }
    }

    /// The entries in insertion order, for rendering.
    pub fn items(&self) -> (r: &Vec<Entry>)
        ensures
            entries_view(r@) == self@.items,
    {
        &self.items
    }

    /// The counter's current value: the id the next assignment will hand
    /// out.
    pub fn counter(&self) -> (n: usize)
        ensures
            n as nat == self@.next_id,
    {
        self.next_id
    }

    /// Whether the list holds no entries; an empty corner renders nothing.
    pub fn is_empty(&self) -> (b: bool)
        ensures
            b == (self@.items.len() == 0),
    {
        self.items.len() == 0
    }
}

/// The mathematical view of a [`NotificationCollection`]: one list view
/// per corner.
pub ghost struct CollectionView {
    pub tl: ListView,
    pub tr: ListView,
    pub bl: ListView,
    pub br: ListView,
}

/// The list view of one corner.
pub open spec fn corner(c: CollectionView, p: Position) -> ListView {
    match p {
        Position::TopLeft => c.tl,
        Position::TopRight => c.tr,
        Position::BottomLeft => c.bl,
        Position::BottomRight => c.br,
    }
}

/// The collection with one corner's list replaced.
pub open spec fn with_corner(c: CollectionView, p: Position, l: ListView) -> CollectionView {
    match p {
        Position::TopLeft => CollectionView { tl: l, ..c },
        Position::TopRight => CollectionView { tr: l, ..c },
        Position::BottomLeft => CollectionView { bl: l, ..c },
        Position::BottomRight => CollectionView { br: l, ..c },
    }
}

/// An empty list view with its counter at zero.
pub open spec fn empty_list_view() -> ListView {
    ListView { next_id: 0, items: Seq::<EntryView>::empty() }
}

/// The view of a fresh collection: four empty corners.
pub open spec fn empty_collection_view() -> CollectionView {
    CollectionView {
        tl: empty_list_view(),
        tr: empty_list_view(),
        bl: empty_list_view(),
        br: empty_list_view(),
    }
}

/// The collection after one spawn to a corner: that corner's counter
/// advances and an entry carrying the old counter value is appended; the
/// other corners are untouched.
pub open spec fn spawned(
    c: CollectionView,
    p: Position,
    tag: Option<Seq<char>>,
    props: PropsView,
) -> CollectionView {
    with_corner(
        c,
        p,
        ListView {
            next_id: corner(c, p).next_id + 1,
            items: corner(c, p).items.push(
                EntryView { id: corner(c, p).next_id, tag: tag, props: props },
            ),
        },
    )
}

/// The store of live notifications: four independent ordered lists, one
/// per corner, each with its own monotonic id counter.
pub struct NotificationCollection {
    tl: NotificationList,
    tr: NotificationList,
    bl: NotificationList,
    br: NotificationList,
}

impl View for NotificationCollection {
    type V = CollectionView;

    closed spec fn view(&self) -> CollectionView {
        CollectionView { tl: self.tl@, tr: self.tr@, bl: self.bl@, br: self.br@ }
    }
}

impl NotificationCollection {
    /// A collection with four empty corners and all counters at zero.
    pub fn new() -> (c: Self)
        ensures
            c@ == empty_collection_view(),
    {
        NotificationCollection {
            tl: NotificationList::new(),
            tr: NotificationList::new(),
            bl: NotificationList::new(),
            br: NotificationList::new(),
        }
    }

    /// Return the next free id of one corner and advance that corner's
    /// counter; the other corners' counters are independent and untouched.
    pub fn next_id(&mut self, position: Position) -> (id: usize)
        requires
            corner(old(self)@, position).next_id < usize::MAX,
        ensures
            id == corner(old(self)@, position).next_id,
            final(self)@ == with_corner(
                old(self)@,
                position,
                ListView {
                    next_id: corner(old(self)@, position).next_id + 1,
                    items: corner(old(self)@, position).items,
                },
            ),
    {
        match position {
            Position::TopLeft => self.tl.next_id(),
            Position::TopRight => self.tr.next_id(),
            Position::BottomLeft => self.bl.next_id(),
            Position::BottomRight => self.br.next_id(),
        }
    }

    /// Append an entry to one corner's list. Tags may collide; no
    /// uniqueness is enforced.
    pub fn insert(
        &mut self,
        id: usize,
        tag: Option<String>,
        position: Position,
        props: NotificationProps,
    )
        ensures
            final(self)@ == with_corner(
                old(self)@,
                position,
                ListView {
                    next_id: corner(old(self)@, position).next_id,
                    items: corner(old(self)@, position).items.push(
                        EntryView { id: id as nat, tag: tag_view(tag), props: props@ },
                    ),
                },
            ),
    {
        match position {
            Position::TopLeft => self.tl.insert(id, tag, props),
            Position::TopRight => self.tr.insert(id, tag, props),
            Position::BottomLeft => self.bl.insert(id, tag, props),
            Position::BottomRight => self.br.insert(id, tag, props),
        }
    }

    /// Remove the first entry with the given id from one corner's list; a
    /// silent no-op if the id is absent there.
    pub fn remove_id(&mut self, position: Position, id: usize)
        ensures
            final(self)@ == with_corner(
                old(self)@,
                position,
                ListView {
                    next_id: corner(old(self)@, position).next_id,
                    items: remove_first_id(corner(old(self)@, position).items, id as nat),
                },
            ),
    {
        match position {
            Position::TopLeft => self.tl.remove_id(id),
            Position::TopRight => self.tr.remove_id(id),
            Position::BottomLeft => self.bl.remove_id(id),
            Position::BottomRight => self.br.remove_id(id),
        }
    }

    /// Remove every entry whose tag equals the given tag, across all four
    /// corners, exhaustively; entries with other tags, or none, keep their
    /// relative order, and every counter is untouched.
    pub fn remove_tag(&mut self, tag: &String)
        ensures
            forall|q: Position| #[trigger] corner(final(self)@, q).items == without_tag(
                corner(old(self)@, q).items,
                tag@,
            ),
            forall|q: Position| #[trigger] corner(final(self)@, q).next_id == corner(
                old(self)@,
                q,
            ).next_id,
    {
        self.tl.remove_tag(tag);
        self.tr.remove_tag(tag);
        self.bl.remove_tag(tag);
        self.br.remove_tag(tag);
        proof {
            assert forall|q: Position| #[trigger] corner(self@, q).items == without_tag(
                corner(old(self)@, q).items,
                tag@,
            ) by {
                match q {
                    Position::TopLeft => {},
                    Position::TopRight => {},
                    Position::BottomLeft => {},
                    Position::BottomRight => {},
                }
            }
        }
    }

    /// The four corners' lists in fixed order: top-left, top-right,
    /// bottom-left, bottom-right.
    pub fn by_position(&self) -> (r: (
        &NotificationList,
        &NotificationList,
        &NotificationList,
        &NotificationList,
    ))
        ensures
            r.0@ == corner(self@, Position::TopLeft),
            r.1@ == corner(self@, Position::TopRight),
            r.2@ == corner(self@, Position::BottomLeft),
            r.3@ == corner(self@, Position::BottomRight),
    {
        (&self.tl, &self.tr, &self.bl, &self.br)
    }

    /// One corner's counter: the id the next insertion there will be
    /// assigned.
    pub fn counter(&self, position: Position) -> (n: usize)
        ensures
            n as nat == corner(self@, position).next_id,
    {
        match position {
            Position::TopLeft => self.tl.counter(),
            Position::TopRight => self.tr.counter(),
            Position::BottomLeft => self.bl.counter(),
            Position::BottomRight => self.br.counter(),
        }
    }

    /// One corner's entries in insertion order, for rendering; an empty
    /// corner renders nothing.
    pub fn snapshot(&self, position: Position) -> (r: &Vec<Entry>)
        ensures
            entries_view(r@) == corner(self@, position).items,
    {
        match position {
            Position::TopLeft => self.tl.items(),
            Position::TopRight => self.tr.items(),
            Position::BottomLeft => self.bl.items(),
            Position::BottomRight => self.br.items(),
        }
    }
}

/// Each corner's ids count up from zero in insertion order and its
/// counter equals its length: the shape every spawn-only history keeps.
pub open spec fn ids_are_indices(c: CollectionView) -> bool {
    &&& forall|p: Position| #[trigger] corner(c, p).next_id == corner(c, p).items.len()
    &&& forall|p: Position, j: int|
        0 <= j < corner(c, p).items.len() ==> #[trigger] corner(c, p).items[j].id == j
}

/// A fresh collection has the spawn-only shape.
pub proof fn lemma_empty_collection_ids()
    ensures
        ids_are_indices(empty_collection_view()),
{
}

/// A spawn assigns the target corner's counter value as the new entry's
/// id, keeps the spawn-only shape, and leaves every other corner — list
/// and counter alike — untouched. So over any sequence of spawns, each
/// corner's ids are exactly 0, 1, 2, ... in insertion order, independent
/// of the other corners.
pub proof fn lemma_spawn_assigns_sequential_ids(
    c: CollectionView,
    p: Position,
    tag: Option<Seq<char>>,
    props: PropsView,
)
    requires
        ids_are_indices(c),
    ensures
        ids_are_indices(spawned(c, p, tag, props)),
        corner(spawned(c, p, tag, props), p).items.len() == corner(c, p).items.len() + 1,
        corner(spawned(c, p, tag, props), p).items.last().id == corner(c, p).next_id,
        forall|q: Position| q != p ==> #[trigger] corner(spawned(c, p, tag, props), q) == corner(
            c,
            q,
        ),
{
    let c2 = spawned(c, p, tag, props);
    assert forall|q: Position| #[trigger] corner(c2, q).next_id == corner(c2, q).items.len() by {
        if q != p {
            assert(corner(c2, q) == corner(c, q));
        }
    }
    assert forall|q: Position, j: int|
        0 <= j < corner(c2, q).items.len() implies #[trigger] corner(c2, q).items[j].id == j by {
        if q == p {
            if j < corner(c, p).items.len() {
                assert(corner(c2, p).items[j] == corner(c, p).items[j]);
            } else {
                assert(corner(c2, p).items[j].id == corner(c, p).next_id);
            }
        } else {
            assert(corner(c2, q) == corner(c, q));
        }
    }
}

/// One spawn request: a target corner, an optional tag, and a record.
pub ghost struct SpawnRequest {
    pub position: Position,
    pub tag: Option<Seq<char>>,
    pub props: PropsView,
}

/// Fold a sequence of spawns over a collection, oldest first.
pub open spec fn apply_spawns(c: CollectionView, reqs: Seq<SpawnRequest>) -> CollectionView
    decreases reqs.len(),
{
    if reqs.len() == 0 {
        c
    } else {
        apply_spawns(
            spawned(c, reqs[0].position, reqs[0].tag, reqs[0].props),
            reqs.drop_first(),
        )
    }
}

/// Any sequence of spawns keeps the spawn-only shape.
pub proof fn lemma_apply_spawns_keeps_shape(c: CollectionView, reqs: Seq<SpawnRequest>)
    requires
        ids_are_indices(c),
    ensures
        ids_are_indices(apply_spawns(c, reqs)),
    decreases reqs.len(),
{
    if reqs.len() > 0 {
        lemma_spawn_assigns_sequential_ids(c, reqs[0].position, reqs[0].tag, reqs[0].props);
        lemma_apply_spawns_keeps_shape(
            spawned(c, reqs[0].position, reqs[0].tag, reqs[0].props),
            reqs.drop_first(),
        );
    }
}

/// For every sequence of spawn calls into a fresh collection, each
/// corner's ids are exactly 0, 1, 2, ... in insertion order — strictly
/// increasing starting at zero, each corner counting for itself.
pub proof fn lemma_spawn_only_ids_sequential(reqs: Seq<SpawnRequest>)
    ensures
        ids_are_indices(apply_spawns(empty_collection_view(), reqs)),
        forall|p: Position, i: int, j: int|
            0 <= i < j < corner(apply_spawns(empty_collection_view(), reqs), p).items.len()
                ==> corner(apply_spawns(empty_collection_view(), reqs), p).items[i].id < corner(
                apply_spawns(empty_collection_view(), reqs),
                p,
            ).items[j].id,
{
    lemma_empty_collection_ids();
    lemma_apply_spawns_keeps_shape(empty_collection_view(), reqs);
    assert forall|p: Position, i: int, j: int|
        0 <= i < j < corner(apply_spawns(empty_collection_view(), reqs), p).items.len() implies
        corner(apply_spawns(empty_collection_view(), reqs), p).items[i].id < corner(
        apply_spawns(empty_collection_view(), reqs),
        p,
    ).items[j].id by {
        lemma_sequential_ids_strictly_increasing(apply_spawns(empty_collection_view(), reqs), p);
    }
}

/// In the spawn-only shape, every corner's ids are strictly increasing
/// starting at zero.
pub proof fn lemma_sequential_ids_strictly_increasing(c: CollectionView, p: Position)
    requires
        ids_are_indices(c),
    ensures
        forall|i: int, j: int|
            0 <= i < j < corner(c, p).items.len() ==> corner(c, p).items[i].id < corner(
                c,
                p,
            ).items[j].id,
        corner(c, p).items.len() > 0 ==> corner(c, p).items[0].id == 0,
{
}

} // verus!
