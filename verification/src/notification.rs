//! The notification record and the per-instance lifecycle state machine.
//!
//! A record describes one notification's display intent. The state machine
//! drives a notification through entry animation, steady visibility, a
//! user-close or timer-timeout exit branch, exit animation, and removal.
//! The embedding layer owns timers, rendering and real callbacks; callbacks
//! are carried here as opaque numeric handles, and every timer or animation
//! event reaches the machine as a [`Msg`].

use vstd::prelude::*;

use crate::properties::Color;
use crate::properties::Position;
use crate::properties::Size;
use crate::properties::animate_in_spec;
use crate::properties::animate_out_spec;
use crate::properties::color_class_spec;
use crate::properties::position_style_spec;
use crate::properties::size_class_spec;
use crate::properties::str_opt_view;

verus! {

/// Display intent for one notification.
///
/// `children` is the opaque renderable body content, passed through
/// unchanged. `on_timeout` and `on_closed` are opaque handles to
/// zero-argument callbacks owned by the embedding layer. `timeout` is in
/// milliseconds.
#[derive(Clone, Debug)]
pub struct NotificationProps {
    pub header: Option<String>,
    pub children: String,
    pub can_close: bool,
    pub timeout: Option<u64>,
    pub on_timeout: Option<u64>,
    pub on_closed: Option<u64>,
    pub color: Color,
    pub size: Size,
    pub position: Position,
    /// True only for a directly embedded single notification that no
    /// collection manages; the broadcast channel rewrites this to false
    /// before any consumer sees the record.
    pub standalone: bool,
}

/// The mathematical view of a [`NotificationProps`].
pub ghost struct PropsView {
    pub header: Option<Seq<char>>,
    pub children: Seq<char>,
    pub can_close: bool,
    pub timeout: Option<u64>,
    pub on_timeout: Option<u64>,
    pub on_closed: Option<u64>,
    pub color: Color,
    pub size: Size,
    pub position: Position,
    pub standalone: bool,
}

impl View for NotificationProps {
    type V = PropsView;

    open spec fn view(&self) -> PropsView {
        PropsView {
            header: match self.header {
                Some(h) => Some(h@),
                None => None,
            },
            children: self.children@,
            can_close: self.can_close,
            timeout: self.timeout,
            on_timeout: self.on_timeout,
            on_closed: self.on_closed,
            color: self.color,
            size: self.size,
            position: self.position,
            standalone: self.standalone,
        }
    }
}

/// The default display intent for given body content: no header, closeable,
/// no timeout, no callbacks, default color, normal size, bottom-right
/// corner, standalone.
pub open spec fn default_props_view(children: Seq<char>) -> PropsView {
    PropsView {
        header: None,
        children: children,
        can_close: true,
        timeout: None,
        on_timeout: None,
        on_closed: None,
        color: Color::Default,
        size: Size::Normal,
        position: Position::BottomRight,
        standalone: true,
    }
}

impl NotificationProps {
    /// A record with the given body content and every other field at its
    /// default.
    pub fn new(children: String) -> (p: Self)
        ensures
            p@ == default_props_view(children@),
    {
        NotificationProps {
            header: None,
            children: children,
            can_close: true,
            timeout: None,
            on_timeout: None,
            on_closed: None,
            color: Color::Default,
            size: Size::Normal,
            position: Position::BottomRight,
            standalone: true,
        }
    }
}

/// Which branch an exiting notification is leaving through.
#[derive(Clone, Copy, PartialEq, Eq, Structural, Debug)]
pub enum ExitKind {
    ByClose,
    ByTimeout,
}

/// The lifecycle phase of one notification.
///
/// `AnimatingIn` is the transient entry phase taken immediately at
/// creation; it settles into `Visible`. A user close enters `Closing`, a
/// timer firing enters `TimingOut`; both continue into `AnimatingOut` once
/// the exit animation has been rendered, and `Removed` is terminal.
#[derive(Clone, Copy, PartialEq, Eq, Structural, Debug)]
pub enum NotificationState {
    AnimatingIn,
    Visible,
    Closing,
    TimingOut,
    AnimatingOut(ExitKind),
    Removed,
}

/// An event delivered to a notification's state machine: the timer fired,
/// the user clicked close, a render completed, or an animation ended.
#[derive(Clone, Copy, PartialEq, Eq, Structural, Debug)]
pub enum Msg {
    TimedOut,
    Closed,
    Rendered,
    TimeoutAnimated,
    CloseAnimated,
    DisplayAnimated,
}

/// What one transition asks the embedding layer to do: re-render, and
/// possibly report that an exit branch has completed. A completed branch
/// means the exit animation finished, so the matching callback (if any) is
/// to be invoked and the notification removed.
#[derive(Clone, Copy, PartialEq, Eq, Structural, Debug)]
pub struct StepEffects {
    pub render: bool,
    pub close_completed: bool,
    pub timeout_completed: bool,
}

/// The transition function of the lifecycle state machine.
///
/// A close event counts only while the notification still shows and only
/// when it is closeable; a timer event counts only while it still shows
/// and only when a timeout was configured. Whichever of the two arrives
/// first picks the exit branch; the other is inert from then on. A render
/// event moves an exit branch into its animation phase, and the matching
/// animation-end event reaches `Removed`.
pub open spec fn step_state(
    s: NotificationState,
    msg: Msg,
    can_close: bool,
    has_timeout: bool,
) -> NotificationState {
    match msg {
        Msg::DisplayAnimated => if s is AnimatingIn {
            NotificationState::Visible
        } else {
            s
        },
        Msg::Closed => if can_close && (s is AnimatingIn || s is Visible) {
            NotificationState::Closing
        } else {
            s
        },
        Msg::TimedOut => if has_timeout && (s is AnimatingIn || s is Visible) {
            NotificationState::TimingOut
        } else {
            s
        },
        Msg::Rendered => match s {
            NotificationState::Closing => NotificationState::AnimatingOut(ExitKind::ByClose),
            NotificationState::TimingOut => NotificationState::AnimatingOut(ExitKind::ByTimeout),
            _ => s,
        },
        Msg::CloseAnimated => if s == NotificationState::AnimatingOut(ExitKind::ByClose) {
            NotificationState::Removed
        } else {
            s
        },
        Msg::TimeoutAnimated => if s == NotificationState::AnimatingOut(ExitKind::ByTimeout) {
            NotificationState::Removed
        } else {
            s
        },
    }
}

/// Whether this event completes the close branch: the exit animation ended
/// while leaving through a user close.
pub open spec fn close_completes(s: NotificationState, msg: Msg) -> bool {
    msg is CloseAnimated && s == NotificationState::AnimatingOut(ExitKind::ByClose)
}

/// Whether this event completes the timeout branch.
pub open spec fn timeout_completes(s: NotificationState, msg: Msg) -> bool {
    msg is TimeoutAnimated && s == NotificationState::AnimatingOut(ExitKind::ByTimeout)
}

/// The mathematical view of a [`Notification`].
pub ghost struct NotificationView {
    pub props: PropsView,
    pub state: NotificationState,
}

/// One live notification: its record and its lifecycle phase.
pub struct Notification {
    props: NotificationProps,
    state: NotificationState,
}

impl View for Notification {
    type V = NotificationView;

    closed spec fn view(&self) -> NotificationView {
        NotificationView { props: self.props@, state: self.state }
    }
}

impl Notification {
    /// A fresh notification for the given record, in its entry-animation
    /// phase. If the record has a timeout, the embedding layer must arm a
    /// cancelable timer for [`Self::timer_duration`] milliseconds that
    /// feeds `Msg::TimedOut` back when it fires.
    pub fn create(props: NotificationProps) -> (n: Notification)
        ensures
            n@.props == props@,
            n@.state == NotificationState::AnimatingIn,
    {
        Notification { props, state: NotificationState::AnimatingIn }
    }

    /// The duration, in milliseconds, the creation timer is to be armed
    /// for; no timer is armed when this is `None`.
    pub fn timer_duration(&self) -> (d: Option<u64>)
        ensures
            d == self@.props.timeout,
    {
        self.props.timeout
    }

    /// The record this notification displays.
    pub fn props(&self) -> (r: &NotificationProps)
        ensures
            r@ == self@.props,
    {
        &self.props
    }

    /// The current lifecycle phase.
    pub fn state(&self) -> (s: NotificationState)
        ensures
            s == self@.state,
    {
        self.state
    }

    /// Feed one event to the state machine. The state advances by
    /// [`step_state`]; the returned effects ask for a re-render exactly
    /// when the state changed, and report a completed exit branch exactly
    /// when its animation-end event arrived in that branch's animation
    /// phase.
    pub fn update(&mut self, msg: Msg) -> (e: StepEffects)
        ensures
            final(self)@.props == old(self)@.props,
            final(self)@.state == step_state(
                old(self)@.state,
                msg,
                old(self)@.props.can_close,
                old(self)@.props.timeout is Some,
            ),
            e.close_completed == close_completes(old(self)@.state, msg),
            e.timeout_completed == timeout_completes(old(self)@.state, msg),
            e.render == (final(self)@.state != old(self)@.state),
    {
        let showing = match self.state {
            NotificationState::AnimatingIn => true,
            NotificationState::Visible => true,
            _ => false,
        };
        let old_state = self.state;
        let mut close_completed = false;
        let mut timeout_completed = false;
        match msg {
            Msg::DisplayAnimated => {
                if let NotificationState::AnimatingIn = self.state {
                    self.state = NotificationState::Visible;
                }
            },
            Msg::Closed => {
                if self.props.can_close && showing {
                    self.state = NotificationState::Closing;
                }
            },
            Msg::TimedOut => {
                if self.props.timeout.is_some() && showing {
                    self.state = NotificationState::TimingOut;
                }
            },
            Msg::Rendered => {
                match self.state {
                    NotificationState::Closing => {
                        self.state = NotificationState::AnimatingOut(ExitKind::ByClose);
                    },
                    NotificationState::TimingOut => {
                        self.state = NotificationState::AnimatingOut(ExitKind::ByTimeout);
                    },
                    _ => {},
                }
            },
            Msg::CloseAnimated => {
                if let NotificationState::AnimatingOut(ExitKind::ByClose) = self.state {
                    self.state = NotificationState::Removed;
                    close_completed = true;
                }
            },
            Msg::TimeoutAnimated => {
                if let NotificationState::AnimatingOut(ExitKind::ByTimeout) = self.state {
                    self.state = NotificationState::Removed;
                    timeout_completed = true;
                }
            },
        }
        let render = !(old_state == self.state);
        StepEffects { render, close_completed, timeout_completed }
    }
}

/// The view of a sequence of owned strings as character sequences.
pub open spec fn strings_view(s: Seq<String>) -> Seq<Seq<char>> {
    s.map_values(|x: String| x@)
}

/// The animation style class a notification carries in each phase: the
/// corner's entry animation while animating in, its exit animation on
/// either exit branch, and none while steadily visible or removed.
pub open spec fn animation_class_spec(s: NotificationState, p: Position) -> Option<Seq<char>> {
    match s {
        NotificationState::AnimatingIn => Some(animate_in_spec(p)),
        NotificationState::Visible => None,
        NotificationState::Closing => Some(animate_out_spec(p)),
        NotificationState::TimingOut => Some(animate_out_spec(p)),
        NotificationState::AnimatingOut(_) => Some(animate_out_spec(p)),
        NotificationState::Removed => None,
    }
}

/// The style classes of the message box: the base classes, the color and
/// size classes when the variants have one, the corner class when the
/// notification is standalone, and the phase's animation class.
pub open spec fn message_classes_spec(n: NotificationView) -> Seq<Seq<char>> {
    let with_base = seq!["message"@, "ybn-body"@];
    let with_color = match color_class_spec(n.props.color) {
        Some(c) => with_base.push(c),
        None => with_base,
    };
    let with_size = match size_class_spec(n.props.size) {
        Some(c) => with_color.push(c),
        None => with_color,
    };
    let with_position = if n.props.standalone {
        with_size.push(position_style_spec(n.props.position))
    } else {
        with_size
    };
    match animation_class_spec(n.state, n.props.position) {
        Some(c) => with_position.push(c),
        None => with_position,
    }
}

/// The style classes of the close button: the base class and the size
/// class when the size has one.
pub open spec fn delete_classes_spec(n: NotificationView) -> Seq<Seq<char>> {
    match size_class_spec(n.props.size) {
        Some(c) => seq!["delete"@, c],
        None => seq!["delete"@],
    }
}

impl Notification {
    /// The animation style class for the current phase, if any.
    pub fn animation_class(&self) -> (r: Option<&'static str>)
        ensures
            str_opt_view(r) == animation_class_spec(self@.state, self@.props.position),
    {
        match self.state {
            NotificationState::AnimatingIn => Some(self.props.position.animate_in_style()),
            NotificationState::Visible => None,
            NotificationState::Closing => Some(self.props.position.animate_out_style()),
            NotificationState::TimingOut => Some(self.props.position.animate_out_style()),
            NotificationState::AnimatingOut(_) => Some(self.props.position.animate_out_style()),
            NotificationState::Removed => None,
        }
    }

    /// The event an animation-end report should feed back to [`Self::update`]
    /// in the current phase: the entry animation settles the notification,
    /// an exit animation completes its branch.
    pub fn animation_end_msg(&self) -> (m: Option<Msg>)
        ensures
            m == animation_end_msg_spec(self@.state),
    {
        match self.state {
            NotificationState::AnimatingIn => Some(Msg::DisplayAnimated),
            NotificationState::Visible => None,
            NotificationState::Closing => Some(Msg::CloseAnimated),
            NotificationState::TimingOut => Some(Msg::TimeoutAnimated),
            NotificationState::AnimatingOut(ExitKind::ByClose) => Some(Msg::CloseAnimated),
            NotificationState::AnimatingOut(ExitKind::ByTimeout) => Some(Msg::TimeoutAnimated),
            NotificationState::Removed => None,
        }
    }

    /// The style classes of the message box in the current phase.
    pub fn message_classes(&self) -> (r: Vec<String>)
        ensures
            strings_view(r@) == message_classes_spec(self@),
    {
        let mut classes: Vec<String> = Vec::new();
        classes.push("message".to_owned());
        classes.push("ybn-body".to_owned());
        if let Some(c) = self.props.color.class() {
            classes.push(c.to_owned());
        }
        if let Some(c) = self.props.size.class() {
            classes.push(c.to_owned());
        }
        if self.props.standalone {
            classes.push(self.props.position.style().to_owned());
        }
        if let Some(c) = self.animation_class() {
            classes.push(c.to_owned());
        }
        proof {
            assert(strings_view(classes@) =~= message_classes_spec(self@));
        }
        classes
    }

    /// The style classes of the close button.
    pub fn delete_classes(&self) -> (r: Vec<String>)
        ensures
            strings_view(r@) == delete_classes_spec(self@),
    {
        let mut classes: Vec<String> = Vec::new();
        classes.push("delete".to_owned());
        if let Some(c) = self.props.size.class() {
            classes.push(c.to_owned());
        }
        proof {
            assert(strings_view(classes@) =~= delete_classes_spec(self@));
        }
        classes
    }

    /// Whether the header row is shown: there is header text, or a close
    /// button must be offered.
    pub fn shows_header(&self) -> (b: bool)
        ensures
            b == (self@.props.header is Some || self@.props.can_close),
    {
        self.props.header.is_some() || self.props.can_close
    }

    /// Whether the close button is shown.
    pub fn shows_close_button(&self) -> (b: bool)
        ensures
            b == self@.props.can_close,
    {
        self.props.can_close
    }
}

/// The cumulative outcome of feeding a sequence of events to the state
/// machine: the final phase and how often each exit branch completed.
pub ghost struct RunResult {
    pub state: NotificationState,
    pub close_completions: nat,
    pub timeout_completions: nat,
}

/// Fold [`step_state`] over a sequence of events, counting the completions
/// of each exit branch along the way.
pub open spec fn run(
    s: NotificationState,
    can_close: bool,
    has_timeout: bool,
    msgs: Seq<Msg>,
) -> RunResult
    decreases msgs.len(),
{
    if msgs.len() == 0 {
        RunResult { state: s, close_completions: 0, timeout_completions: 0 }
    } else {
        let head = msgs[0];
        let rest = run(step_state(s, head, can_close, has_timeout), can_close, has_timeout, msgs.drop_first());
        RunResult {
            state: rest.state,
            close_completions: (if close_completes(s, head) {
                1nat
            } else {
                0nat
            }) + rest.close_completions,
            timeout_completions: (if timeout_completes(s, head) {
                1nat
            } else {
                0nat
            }) + rest.timeout_completions,
        }
    }
}

/// Removal is terminal and exit branches are exclusive: over any events,
/// starting outside `Removed`, the two branches together complete exactly
/// once when the run ends in `Removed` and never otherwise; and from
/// `Removed` nothing moves or completes again.
pub proof fn lemma_completions_match_removal(
    s: NotificationState,
    can_close: bool,
    has_timeout: bool,
    msgs: Seq<Msg>,
)
    ensures
        ({
            let r = run(s, can_close, has_timeout, msgs);
            &&& r.close_completions + r.timeout_completions == (if s is Removed {
                0int
            } else if r.state is Removed {
                1int
            } else {
                0int
            })
            &&& (s is Removed ==> r.state is Removed)
        }),
    decreases msgs.len(),
{
    if msgs.len() > 0 {
        let head = msgs[0];
        lemma_completions_match_removal(
            step_state(s, head, can_close, has_timeout),
            can_close,
            has_timeout,
            msgs.drop_first(),
        );
    }
}

/// The phases of the close exit branch: entered only by a close event,
/// left only into `Removed`.
pub open spec fn in_close_branch(s: NotificationState) -> bool {
    s is Closing || s == NotificationState::AnimatingOut(ExitKind::ByClose)
}

/// The phases of the timeout exit branch.
pub open spec fn in_timeout_branch(s: NotificationState) -> bool {
    s is TimingOut || s == NotificationState::AnimatingOut(ExitKind::ByTimeout)
}

/// Without a close event the close branch is never entered and never
/// completes.
pub proof fn lemma_no_close_event_no_close_completion(
    s: NotificationState,
    can_close: bool,
    has_timeout: bool,
    msgs: Seq<Msg>,
)
    requires
        !in_close_branch(s),
        !msgs.contains(Msg::Closed),
    ensures
        run(s, can_close, has_timeout, msgs).close_completions == 0,
        !in_close_branch(run(s, can_close, has_timeout, msgs).state),
    decreases msgs.len(),
{
    if msgs.len() > 0 {
        let head = msgs[0];
        assert(msgs.contains(msgs[0])) by {
            assert(msgs[0] == msgs[0]);
        }
        let rest = msgs.drop_first();
        assert(!rest.contains(Msg::Closed)) by {
            if rest.contains(Msg::Closed) {
                let i = choose|i: int| 0 <= i < rest.len() && rest[i] == Msg::Closed;
                assert(msgs[i + 1] == Msg::Closed);
            }
        }
        lemma_no_close_event_no_close_completion(
            step_state(s, head, can_close, has_timeout),
            can_close,
            has_timeout,
            rest,
        );
    }
}

/// A notification created with no timeout never leaves the entry or
/// visible phase except through an explicit close: over any events that
/// contain no close, it stays in `AnimatingIn` or `Visible` and neither
/// exit branch ever completes.
pub proof fn lemma_no_timeout_stays_visible(s: NotificationState, can_close: bool, msgs: Seq<Msg>)
    requires
        s is AnimatingIn || s is Visible,
        !msgs.contains(Msg::Closed),
    ensures
        ({
            let r = run(s, can_close, false, msgs);
            &&& r.state is AnimatingIn || r.state is Visible
            &&& r.close_completions == 0
            &&& r.timeout_completions == 0
        }),
    decreases msgs.len(),
{
    if msgs.len() > 0 {
        let head = msgs[0];
        assert(msgs.contains(msgs[0])) by {
            assert(msgs[0] == msgs[0]);
        }
        let rest = msgs.drop_first();
        assert(!rest.contains(Msg::Closed)) by {
            if rest.contains(Msg::Closed) {
                let i = choose|i: int| 0 <= i < rest.len() && rest[i] == Msg::Closed;
                assert(msgs[i + 1] == Msg::Closed);
            }
        }
        lemma_no_timeout_stays_visible(step_state(s, head, can_close, false), can_close, rest);
    }
}

/// A notification that can not be closed and has no timeout has no
/// user-initiated or timer-initiated removal path at all: over any events
/// whatsoever it stays in `AnimatingIn` or `Visible` and neither exit
/// branch ever completes.
pub proof fn lemma_unclosable_untimed_is_permanent(s: NotificationState, msgs: Seq<Msg>)
    requires
        s is AnimatingIn || s is Visible,
    ensures
        ({
            let r = run(s, false, false, msgs);
            &&& r.state is AnimatingIn || r.state is Visible
            &&& r.close_completions == 0
            &&& r.timeout_completions == 0
        }),
    decreases msgs.len(),
{
    if msgs.len() > 0 {
        lemma_unclosable_untimed_is_permanent(
            step_state(s, msgs[0], false, false),
            msgs.drop_first(),
        );
    }
}

/// A notification with a timeout that is never closed: the close branch
/// never runs, the timeout branch completes at most once, and it completes
/// exactly once precisely when the notification reaches removal.
pub proof fn lemma_timeout_branch_exactly_once(can_close: bool, msgs: Seq<Msg>)
    requires
        !msgs.contains(Msg::Closed),
    ensures
        ({
            let r = run(NotificationState::AnimatingIn, can_close, true, msgs);
            &&& r.close_completions == 0
            &&& r.timeout_completions <= 1
            &&& (r.state is Removed <==> r.timeout_completions == 1)
        }),
{
    lemma_completions_match_removal(NotificationState::AnimatingIn, can_close, true, msgs);
    lemma_no_close_event_no_close_completion(
        NotificationState::AnimatingIn,
        can_close,
        true,
        msgs,
    );
}

/// Every timer event is preceded, strictly earlier, by a close event.
pub open spec fn timer_fires_only_after_close(msgs: Seq<Msg>) -> bool {
    forall|k: int|
        0 <= k < msgs.len() && #[trigger] msgs[k] == Msg::TimedOut ==> (exists|j: int|
            0 <= j < k && #[trigger] msgs[j] == Msg::Closed)
}

/// Helper for [`lemma_close_preempts_timer`]: once the machine is out of
/// the timeout branch, and the timer can first fire only after a close,
/// the timeout branch is never entered and never completes.
proof fn lemma_timer_after_close_helper(s: NotificationState, has_timeout: bool, msgs: Seq<Msg>)
    requires
        !in_timeout_branch(s),
        (s is AnimatingIn || s is Visible) ==> timer_fires_only_after_close(msgs),
    ensures
        run(s, true, has_timeout, msgs).timeout_completions == 0,
        !in_timeout_branch(run(s, true, has_timeout, msgs).state),
    decreases msgs.len(),
{
    if msgs.len() > 0 {
        let head = msgs[0];
        let rest = msgs.drop_first();
        let s2 = step_state(s, head, true, has_timeout);
        if s is AnimatingIn || s is Visible {
            assert(head != Msg::TimedOut);
            if head == Msg::Closed {
                assert(s2 is Closing);
            } else {
                assert(s2 is AnimatingIn || s2 is Visible);
                assert(timer_fires_only_after_close(rest)) by {
                    assert forall|k: int|
                        0 <= k < rest.len() && #[trigger] rest[k] == Msg::TimedOut implies (exists|
                        j: int,
                    |
                        0 <= j < k && #[trigger] rest[j] == Msg::Closed) by {
                        assert(msgs[k + 1] == Msg::TimedOut);
                        let j = choose|j: int| 0 <= j < k + 1 && msgs[j] == Msg::Closed;
                        assert(rest[j - 1] == Msg::Closed);
                    }
                }
            }
        }
        lemma_timer_after_close_helper(s2, has_timeout, rest);
    }
}

/// If close is triggered before the timer fires, the close branch
/// completes at most once — exactly once precisely when the notification
/// reaches removal — and a later timer firing has no observable effect:
/// the timeout branch never runs.
pub proof fn lemma_close_preempts_timer(has_timeout: bool, msgs: Seq<Msg>)
    requires
        timer_fires_only_after_close(msgs),
    ensures
        ({
            let r = run(NotificationState::AnimatingIn, true, has_timeout, msgs);
            &&& r.timeout_completions == 0
            &&& r.close_completions <= 1
            &&& (r.state is Removed <==> r.close_completions == 1)
        }),
{
    lemma_completions_match_removal(NotificationState::AnimatingIn, true, has_timeout, msgs);
    lemma_timer_after_close_helper(NotificationState::AnimatingIn, has_timeout, msgs);
}

/// The animation-end event each phase expects, if any.
pub open spec fn animation_end_msg_spec(s: NotificationState) -> Option<Msg> {
    match s {
        NotificationState::AnimatingIn => Some(Msg::DisplayAnimated),
        NotificationState::Visible => None,
        NotificationState::Closing => Some(Msg::CloseAnimated),
        NotificationState::TimingOut => Some(Msg::TimeoutAnimated),
        NotificationState::AnimatingOut(ExitKind::ByClose) => Some(Msg::CloseAnimated),
        NotificationState::AnimatingOut(ExitKind::ByTimeout) => Some(Msg::TimeoutAnimated),
        NotificationState::Removed => None,
    }
}

} // verus!
