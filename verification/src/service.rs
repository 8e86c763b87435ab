//! The producer handle: a thin client of the broadcast channel. Spawning
//! and closing queue channel messages; all effects are asynchronous, so
//! the embedding layer drains the queue and dispatches each message to
//! the hub, in order.

use vstd::prelude::*;

use crate::agent::InputView;
use crate::agent::NotificationAgentInput;
use crate::notification::NotificationProps;

verus! {

/// A producer's handle on the broadcast channel. Its view is the queue of
/// messages awaiting dispatch, oldest first.
pub struct NotificationService {
    pending: Vec<NotificationAgentInput>,
}

impl View for NotificationService {
    type V = Seq<InputView>;

    closed spec fn view(&self) -> Seq<InputView> {
        self.pending@.map_values(|m: NotificationAgentInput| m@)
    }
}

impl Default for NotificationService {
    /// A handle with nothing awaiting dispatch.
    fn default() -> (s: Self)
        ensures
            s@ == Seq::<InputView>::empty(),
    {
        let s = NotificationService { pending: Vec::new() };
        proof {
            assert(s@ =~= Seq::<InputView>::empty());
        }
        s
    }
}

impl NotificationService {
    /// A handle with nothing awaiting dispatch.
    pub fn new() -> (s: Self)
        ensures
            s@ == Seq::<InputView>::empty(),
    {
        Self::default()
    }

    /// Queue a new-notification message for the given record.
    pub fn spawn(&mut self, props: NotificationProps)
        ensures
            final(self)@ == old(self)@.push(InputView::New(props@)),
    {
        let ghost m = InputView::New(props@);
        self.pending.push(NotificationAgentInput::New(props));
        proof {
            assert(self@ =~= old(self)@.push(m));
        }
    }

    /// Queue a new-notification message for the given record under a
    /// caller-chosen tag, so that it can later be closed by that tag.
    /// Tags need not be unique; a later close by this tag removes every
    /// notification carrying it.
    pub fn spawn_with_id(&mut self, props: NotificationProps, id: String)
        ensures
            final(self)@ == old(self)@.push(InputView::NewTagged(props@, id@)),
    {
        let ghost m = InputView::NewTagged(props@, id@);
        self.pending.push(NotificationAgentInput::NewTagged(props, id));
        proof {
            assert(self@ =~= old(self)@.push(m));
        }
    }

    /// Queue a close message for every notification tagged with the given
    /// tag.
    pub fn close_id(&mut self, id: String)
        ensures
            final(self)@ == old(self)@.push(InputView::CloseTagged(id@)),
    {
        let ghost m = InputView::CloseTagged(id@);
        self.pending.push(NotificationAgentInput::CloseTagged(id));
        proof {
            assert(self@ =~= old(self)@.push(m));
        }
    }

    /// Hand the queued messages, oldest first, to the embedding layer for
    /// dispatch, leaving the queue empty.
    pub fn take_pending(&mut self) -> (v: Vec<NotificationAgentInput>)
        ensures
            v@.map_values(|m: NotificationAgentInput| m@) == old(self)@,
            final(self)@ == Seq::<InputView>::empty(),
    {
        let mut out: Vec<NotificationAgentInput> = Vec::new();
        core::mem::swap(&mut out, &mut self.pending);
        proof {
            assert(self@ =~= Seq::<InputView>::empty());
        }
        out
    }
}

} // verus!
