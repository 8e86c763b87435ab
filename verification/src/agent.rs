//! The broadcast channel: a process-wide pub/sub hub. Producers send
//! new-notification and close-by-tag messages; the hub rewrites each
//! record as collection-managed (`standalone = false`) and fans it out to
//! every registered consumer.
//!
//! Delivery itself — handing an outbound message to a consumer — is the
//! embedding layer's job: [`NotificationAgent::handle_input`] returns the
//! recipients and the outbound message, and holds no notification state
//! beyond the registered-consumer set.

use vstd::prelude::*;

use crate::notification::NotificationProps;
use crate::notification::PropsView;

verus! {

/// A message a producer sends to the hub.
pub enum NotificationAgentInput {
    RegisterConsumer,
    New(NotificationProps),
    NewTagged(NotificationProps, String),
    CloseTagged(String),
}

/// A message the hub broadcasts to every registered consumer.
pub enum NotificationAgentOutput {
    New(NotificationProps),
    NewTagged(NotificationProps, String),
    CloseTagged(String),
}

/// The mathematical view of a [`NotificationAgentInput`].
pub ghost enum InputView {
    RegisterConsumer,
    New(PropsView),
    NewTagged(PropsView, Seq<char>),
    CloseTagged(Seq<char>),
}

/// The mathematical view of a [`NotificationAgentOutput`].
pub ghost enum OutputView {
    New(PropsView),
    NewTagged(PropsView, Seq<char>),
    CloseTagged(Seq<char>),
}

impl View for NotificationAgentInput {
    type V = InputView;

    open spec fn view(&self) -> InputView {
        match self {
            NotificationAgentInput::RegisterConsumer => InputView::RegisterConsumer,
            NotificationAgentInput::New(p) => InputView::New(p@),
            NotificationAgentInput::NewTagged(p, t) => InputView::NewTagged(p@, t@),
            NotificationAgentInput::CloseTagged(t) => InputView::CloseTagged(t@),
        }
    }
}

impl View for NotificationAgentOutput {
    type V = OutputView;

    open spec fn view(&self) -> OutputView {
        match self {
            NotificationAgentOutput::New(p) => OutputView::New(p@),
            NotificationAgentOutput::NewTagged(p, t) => OutputView::NewTagged(p@, t@),
            NotificationAgentOutput::CloseTagged(t) => OutputView::CloseTagged(t@),
        }
    }
}

/// A record as every consumer sees it: the broadcast path rewrites
/// `standalone` to false — positioning becomes the collection's job — and
/// passes everything else through unchanged.
pub open spec fn delivered(p: PropsView) -> PropsView {
    PropsView { standalone: false, ..p }
}

/// The registered-consumer set after a registration: idempotent set
/// insertion, keeping registration order.
pub open spec fn registered(s: Seq<u64>, id: u64) -> Seq<u64> {
    if s.contains(id) {
        s
    } else {
        s.push(id)
    }
}

/// Remove the first occurrence of a consumer id, if any.
pub open spec fn unregistered(s: Seq<u64>, id: u64) -> Seq<u64>
    decreases s.len(),
{
    if s.len() == 0 {
        s
    } else if s[0] == id {
        s.drop_first()
    } else {
        seq![s[0]] + unregistered(s.drop_first(), id)
    }
}

/// The pub/sub hub. Its view is the sequence of registered consumer ids
/// in registration order.
pub struct NotificationAgent {
    consumers: Vec<u64>,
}

impl View for NotificationAgent {
    type V = Seq<u64>;

    closed spec fn view(&self) -> Seq<u64> {
        self.consumers@
    }
}

impl NotificationAgent {
    /// No consumer id is registered twice, so each broadcast reaches a
    /// consumer at most once.
    pub open spec fn wf(&self) -> bool {
        forall|i: int, j: int| 0 <= i < j < self@.len() ==> self@[i] != self@[j]
    }

    /// A hub with no registered consumers.
    pub fn create() -> (a: Self)
        ensures
            a@ == Seq::<u64>::empty(),
            a.wf(),
    {
        let a = NotificationAgent { consumers: Vec::new() };
        proof {
            assert(a@ =~= Seq::<u64>::empty());
        }
        a
    }

    /// Whether a consumer id is currently registered.
    fn is_registered(&self, id: u64) -> (b: bool)
        ensures
            b == self@.contains(id),
    {
        let mut i: usize = 0;
        while i < self.consumers.len()
            invariant
                i <= self.consumers.len(),
                forall|k: int| 0 <= k < i ==> self@[k] != id,
            decreases self.consumers.len() - i,
        {
            if self.consumers[i] == id {
                return true;
            }
            i = i + 1;
        }
        false
    }

    /// The current recipients of a broadcast: every registered consumer,
    /// in registration order.
    fn recipients(&self) -> (r: Vec<u64>)
        ensures
            r@ == self@,
    {
        let mut out: Vec<u64> = Vec::new();
        let mut i: usize = 0;
        while i < self.consumers.len()
            invariant
                i <= self.consumers.len(),
                out@ == self@.subrange(0, i as int),
            decreases self.consumers.len() - i,
        {
            out.push(self.consumers[i]);
            proof {
                assert(out@ =~= self@.subrange(0, i + 1 as int));
            }
            i = i + 1;
        }
        proof {
            assert(self@.subrange(0, i as int) =~= self@);
        }
        out
    }

    /// Handle one producer message, `id` being the sender's consumer id.
    ///
    /// A registration inserts the sender into the consumer set,
    /// idempotently, and broadcasts nothing. Every other message leaves
    /// the consumer set untouched and yields the recipients together with
    /// the outbound message: the record rewritten as collection-managed,
    /// and any tag passed through unchanged.
    pub fn handle_input(&mut self, msg: NotificationAgentInput, id: u64) -> (r: Option<
        (Vec<u64>, NotificationAgentOutput),
    >)
        ensures
            old(self).wf() ==> final(self).wf(),
            match msg@ {
                InputView::RegisterConsumer => {
                    &&& final(self)@ == registered(old(self)@, id)
                    &&& r is None
                },
                InputView::New(p) => {
                    &&& final(self)@ == old(self)@
                    &&& r matches Some(out) && out.0@ == old(self)@ && out.1@ == OutputView::New(
                        delivered(p),
                    )
                },
                InputView::NewTagged(p, t) => {
                    &&& final(self)@ == old(self)@
                    &&& r matches Some(out) && out.0@ == old(self)@ && out.1@
                        == OutputView::NewTagged(delivered(p), t)
                },
                InputView::CloseTagged(t) => {
                    &&& final(self)@ == old(self)@
                    &&& r matches Some(out) && out.0@ == old(self)@ && out.1@
                        == OutputView::CloseTagged(t)
                },
            },
    {
        match msg {
            NotificationAgentInput::RegisterConsumer => {
                if !self.is_registered(id) {
                    self.consumers.push(id);
                }
                None
            },
            NotificationAgentInput::New(mut props) => {
                props.standalone = false;
                Some((self.recipients(), NotificationAgentOutput::New(props)))
            },
            NotificationAgentInput::NewTagged(mut props, tag) => {
                props.standalone = false;
                Some((self.recipients(), NotificationAgentOutput::NewTagged(props, tag)))
            },
            NotificationAgentInput::CloseTagged(tag) => {
                Some((self.recipients(), NotificationAgentOutput::CloseTagged(tag)))
            },
        }
    }

    /// Forget a consumer: no further broadcast names it as a recipient.
    pub fn disconnected(&mut self, id: u64)
        ensures
            final(self)@ == unregistered(old(self)@, id),
            old(self).wf() ==> final(self).wf(),
    {
        let ghost orig = self@;
        proof {
            assert(orig.subrange(0, orig.len() as int) =~= orig);
            assert(orig.subrange(0, 0) =~= Seq::<u64>::empty());
            assert(Seq::<u64>::empty() + unregistered(orig, id) =~= unregistered(orig, id));
        }
        let mut i: usize = 0;
        while i < self.consumers.len()
            invariant
                i <= self.consumers.len(),
                orig == old(self)@,
                unregistered(orig, id) == self@.subrange(0, i as int) + unregistered(
                    self@.subrange(i as int, self@.len() as int),
                    id,
                ),
                self@.len() <= orig.len(),
                old(self).wf() ==> forall|a: int, b: int|
                    0 <= a < b < self@.len() ==> self@[a] != self@[b],
            decreases self.consumers.len() - i,
        {
            let ghost pre = self@;
            let ghost suffix = pre.subrange(i as int, pre.len() as int);
            proof {
                assert(suffix[0] == pre[i as int]);
                assert(suffix.drop_first() =~= pre.subrange(i as int + 1, pre.len() as int));
            }
            if self.consumers[i] == id {
                proof {
                    assert(suffix[0] == id);
                    assert(unregistered(suffix, id) == suffix.drop_first());
                }
                self.consumers.remove(i);
                proof {
                    assert(self@ =~= pre.remove(i as int));
                    assert(self@ =~= pre.subrange(0, i as int) + suffix.drop_first());
                    assert(old(self).wf() ==> forall|a: int, b: int|
                        0 <= a < b < self@.len() ==> self@[a] != self@[b]) by {
                        if old(self).wf() {
                            assert forall|a: int, b: int|
                                0 <= a < b < self@.len() implies self@[a] != self@[b] by {
                                if b < i {
                                    assert(self@[a] == pre[a] && self@[b] == pre[b]);
                                } else if a < i {
                                    assert(self@[a] == pre[a] && self@[b] == pre[b + 1]);
                                } else {
                                    assert(self@[a] == pre[a + 1] && self@[b] == pre[b + 1]);
                                }
                            }
                        }
                    }
                }
                return ;
            }
            proof {
                assert(pre.subrange(0, i as int).push(pre[i as int]) =~= pre.subrange(
                    0,
                    i as int + 1,
                ));
                assert(pre.subrange(0, i as int) + (seq![suffix[0]] + unregistered(
                    suffix.drop_first(),
                    id,
                )) =~= pre.subrange(0, i as int + 1) + unregistered(suffix.drop_first(), id));
            }
            i = i + 1;
        }
        proof {
            assert(self@.subrange(i as int, self@.len() as int) =~= Seq::<u64>::empty());
            assert(self@.subrange(0, i as int) =~= self@);
            assert(unregistered(orig, id) =~= self@);
        }
    }
}

} // verus!
