//! HID consumer-control input reports and the press-then-release cycle that
//! one key event takes on the link.

use crate::decoder::RotationEvent;
use vstd::prelude::*;

verus! {

/// Report identifier that leads every input report.
pub const HID_REPORT_INPUT_ID: u8 = 1;

/// Time between the press report and the release report, in milliseconds.
pub const KEY_HOLD_MILLIS: u64 = 50;

/// A key of the consumer-control report; `Released` stands for no key.
#[derive(Debug, Clone, Copy, PartialEq, Eq, Structural)]
pub enum KeyPressed {
    VolUp,
    VolDown,
    Mute,
    Released,
}

/// What the link reports back to a task that notifies and waits.
#[derive(Debug, Clone, Copy, PartialEq, Eq, Structural)]
pub enum LinkEvent {
    /// The notification that was asked for has been handed to the peer.
    Notified,
    /// The notification could not be sent: the link is gone.
    NotifyFailed,
    /// The delay that was asked for has passed.
    Elapsed,
}

/// What a key cycle asks of its driver next.
#[derive(Debug, Clone, Copy, PartialEq, Eq, Structural)]
pub enum SendAction {
    /// Notify the input report of this key, then report `Notified` or
    /// `NotifyFailed`.
    Notify(KeyPressed),
    /// Wait this many milliseconds, then report `Elapsed`.
    Wait(u64),
    /// The cycle is over and both reports went out.
    Complete,
    /// The cycle is over because a notification failed.
    Fail,
    /// The event was not the one awaited: keep waiting for that one.
    Nothing,
}

/// Progress of one press-then-release cycle.
#[derive(Debug, Clone, Copy, PartialEq, Eq, Structural)]
pub enum KeySend {
    /// The press report is on its way.
    Pressing,
    /// The press report went out; the hold time is running.
    Holding,
    /// The release report is on its way.
    Releasing,
    /// Both reports went out.
    Delivered,
    /// A notification failed.
    Failed,
}

impl KeyPressed {
    /// The bit that stands for this key in the report.
    pub open spec fn bits(self) -> u8 {
        match self {
            KeyPressed::VolUp => 0b001,
            KeyPressed::VolDown => 0b010,
            KeyPressed::Mute => 0b100,
            KeyPressed::Released => 0b000,
        }
    }

    /// The bytes of the input report for this key.
    pub open spec fn report(self) -> Seq<u8> {
        seq![HID_REPORT_INPUT_ID, self.bits()]
    }

    /// The two-byte input report: the report identifier, then one bit per key.
    pub fn as_report(&self) -> (report: [u8; 2])
        ensures
            report@ == self.report(),
    {
        let value: u8 = match self {
            KeyPressed::VolUp => 0b0000_0001,
            KeyPressed::VolDown => 0b0000_0010,
            KeyPressed::Mute => 0b0000_0100,
            KeyPressed::Released => 0b0000_0000,
        };
        let report: [u8; 2] = [HID_REPORT_INPUT_ID, value];
        assert(report@ =~= self.report());
        report
    }

    /// Everything that one call of `send` asks for while `events` come in:
    /// the notification of this key first, then one request for each event.
    pub open spec fn requests(self, events: Seq<LinkEvent>) -> Seq<SendAction> {
        seq![SendAction::Notify(self)] + KeySend::Pressing.actions(events)
    }

    /// The key that a rotation stands for: a detent to the left turns the
    /// volume down, one to the right turns it up.
    pub open spec fn of_rotation(rotation: RotationEvent) -> Option<KeyPressed> {
        match rotation {
            RotationEvent::Left => Some(KeyPressed::VolDown),
            RotationEvent::Right => Some(KeyPressed::VolUp),
            RotationEvent::Still => None,
        }
    }

    /// The key to press for a rotation, if it is one.
    pub fn for_rotation(rotation: RotationEvent) -> (key: Option<KeyPressed>)
        ensures
            key == KeyPressed::of_rotation(rotation),
    {
        match rotation {
            RotationEvent::Left => Some(KeyPressed::VolDown),
            RotationEvent::Right => Some(KeyPressed::VolUp),
            RotationEvent::Still => None,
        }
    }

    /// Starts the press-then-release cycle for this key: the cycle begins in
    /// `Pressing` and its first request is the notification of this key's
    /// report.
    pub fn send(&self) -> (start: (KeySend, SendAction))
        ensures
            start == (KeySend::Pressing, SendAction::Notify(*self)),
            self.requests(Seq::empty()) == seq![start.1],
    {
        assert(self.requests(Seq::empty()) =~= seq![SendAction::Notify(*self)]);
        (KeySend::Pressing, SendAction::Notify(*self))
    }
}

impl KeySend {
    /// The transition table of the cycle. The press is followed by the hold
    /// time, the hold time by the release; a failed notification ends the
    /// cycle at once; an event that is not awaited changes nothing.
    pub open spec fn next(self, event: LinkEvent) -> (KeySend, SendAction) {
        match (self, event) {
            (KeySend::Pressing, LinkEvent::Notified) => (
                KeySend::Holding,
                SendAction::Wait(KEY_HOLD_MILLIS),
            ),
            (KeySend::Pressing, LinkEvent::NotifyFailed) => (KeySend::Failed, SendAction::Fail),
            (KeySend::Holding, LinkEvent::Elapsed) => (
                KeySend::Releasing,
                SendAction::Notify(KeyPressed::Released),
            ),
            (KeySend::Releasing, LinkEvent::Notified) => (
                KeySend::Delivered,
                SendAction::Complete,
            ),
            (KeySend::Releasing, LinkEvent::NotifyFailed) => (KeySend::Failed, SendAction::Fail),
            _ => (self, SendAction::Nothing),
        }
    }

    /// Whether the cycle is over.
    pub open spec fn finished(self) -> bool {
        self == KeySend::Delivered || self == KeySend::Failed
    }

    /// The state after the first `n` of `events`.
    pub open spec fn after(self, events: Seq<LinkEvent>, n: int) -> KeySend
        decreases n,
    {
        if n <= 0 {
            self
        } else {
            self.after(events, n - 1).next(events[n - 1]).0
        }
    }

    /// The requests that a run of events draws, one for each event.
    pub open spec fn actions(self, events: Seq<LinkEvent>) -> Seq<SendAction> {
        Seq::new(events.len(), |i: int| self.after(events, i).next(events[i]).1)
    }

    /// How many notifications the cycle may still ask for.
    pub open spec fn owed(self) -> nat {
        match self {
            KeySend::Pressing | KeySend::Holding => 1,
            _ => 0,
        }
    }

    /// Takes the cycle one event further and says what to do next.
    pub fn step(self, event: LinkEvent) -> (r: (KeySend, SendAction))
        ensures
            r == self.next(event),
    {
        match self {
            KeySend::Pressing => match event {
                LinkEvent::Notified => (KeySend::Holding, SendAction::Wait(KEY_HOLD_MILLIS)),
                LinkEvent::NotifyFailed => (KeySend::Failed, SendAction::Fail),
                LinkEvent::Elapsed => (self, SendAction::Nothing),
            },
            KeySend::Holding => match event {
                LinkEvent::Elapsed => (
                    KeySend::Releasing,
                    SendAction::Notify(KeyPressed::Released),
                ),
                _ => (self, SendAction::Nothing),
            },
            KeySend::Releasing => match event {
                LinkEvent::Notified => (KeySend::Delivered, SendAction::Complete),
                LinkEvent::NotifyFailed => (KeySend::Failed, SendAction::Fail),
                LinkEvent::Elapsed => (self, SendAction::Nothing),
            },
            _ => (self, SendAction::Nothing),
        }
    }

    /// Whether the cycle is over.
    pub fn is_finished(&self) -> (done: bool)
        ensures
            done == self.finished(),
    {
        match self {
            KeySend::Delivered | KeySend::Failed => true,
            _ => false,
        }
    }
}

/// The same key always gives the same report, and each key its own bit
/// behind the report identifier.
pub proof fn report_is_function_of_key(first: KeyPressed, second: KeyPressed)
    ensures
        first == second ==> first.report() == second.report(),
        first.report() == second.report() ==> first == second,
        KeyPressed::VolUp.report() == seq![HID_REPORT_INPUT_ID, 0b001u8],
        KeyPressed::VolDown.report() == seq![HID_REPORT_INPUT_ID, 0b010u8],
        KeyPressed::Mute.report() == seq![HID_REPORT_INPUT_ID, 0b100u8],
        KeyPressed::Released.report() == seq![HID_REPORT_INPUT_ID, 0b000u8],
{
    if first.report() == second.report() {
        assert(first.report()[1] == second.report()[1]);
    }
}

/// How many of these requests are notifications.
pub open spec fn notify_count(requests: Seq<SendAction>) -> nat
    decreases requests.len(),
{
    if requests.len() == 0 {
        0
    } else {
        notify_count(requests.drop_last()) + if requests.last() is Notify {
            1nat
        } else {
            0nat
        }
    }
}

/// On a link that delivers, one call of `send` asks for exactly two
/// notifications: the report of the key, then, once the hold time has
/// passed, the report of `Released`; after that the cycle is complete.
pub proof fn send_notifies_press_then_release(key: KeyPressed)
    ensures
        ({
            let delivering = seq![LinkEvent::Notified, LinkEvent::Elapsed, LinkEvent::Notified];
            &&& key.requests(delivering) == seq![
                SendAction::Notify(key),
                SendAction::Wait(KEY_HOLD_MILLIS),
                SendAction::Notify(KeyPressed::Released),
                SendAction::Complete,
            ]
            &&& notify_count(key.requests(delivering)) == 2
            &&& KeySend::Pressing.after(delivering, 3) == KeySend::Delivered
        }),
{
    reveal_with_fuel(KeySend::after, 4);
    reveal_with_fuel(notify_count, 5);
    let delivering = seq![LinkEvent::Notified, LinkEvent::Elapsed, LinkEvent::Notified];
    assert(KeySend::Pressing.after(delivering, 1) == KeySend::Holding);
    assert(KeySend::Pressing.after(delivering, 2) == KeySend::Releasing);
    let all = seq![
        SendAction::Notify(key),
        SendAction::Wait(KEY_HOLD_MILLIS),
        SendAction::Notify(KeyPressed::Released),
        SendAction::Complete,
    ];
    assert(key.requests(delivering) =~= all);
    assert(all.drop_last() =~= seq![
        SendAction::Notify(key),
        SendAction::Wait(KEY_HOLD_MILLIS),
        SendAction::Notify(KeyPressed::Released),
    ]);
    assert(all.drop_last().drop_last() =~= seq![
        SendAction::Notify(key),
        SendAction::Wait(KEY_HOLD_MILLIS),
    ]);
    assert(all.drop_last().drop_last().drop_last() =~= seq![SendAction::Notify(key)]);
    assert(all.drop_last().drop_last().drop_last().drop_last() =~= Seq::<SendAction>::empty());
}

/// Whatever the link reports and in whatever order, one call of `send`
/// asks for at most two notifications, and every one after the first is
/// the report of `Released`.
pub proof fn send_never_notifies_more_than_twice(key: KeyPressed, events: Seq<LinkEvent>)
    ensures
        notify_count(key.requests(events)) <= 2,
        forall|i: int|
            1 <= i < key.requests(events).len() && #[trigger] key.requests(events)[i] is Notify
                ==> key.requests(events)[i] == SendAction::Notify(KeyPressed::Released),
{
    let first = seq![SendAction::Notify(key)];
    let rest = KeySend::Pressing.actions(events);
    lemma_owed_bounds_notifications(KeySend::Pressing, events, events.len() as int);
    assert(events.take(events.len() as int) =~= events);
    lemma_notify_count_concat(first, rest);
    assert(first.drop_last() =~= Seq::<SendAction>::empty());
    reveal_with_fuel(notify_count, 2);
    assert(notify_count(first) == 1);
}

proof fn lemma_notify_count_concat(left: Seq<SendAction>, right: Seq<SendAction>)
    ensures
        notify_count(left + right) == notify_count(left) + notify_count(right),
    decreases right.len(),
{
    if right.len() == 0 {
        assert(left + right =~= left);
    } else {
        lemma_notify_count_concat(left, right.drop_last());
        assert((left + right).drop_last() =~= left + right.drop_last());
    }
}

proof fn lemma_after_prefix(state: KeySend, events: Seq<LinkEvent>, n: int, i: int)
    requires
        0 <= i <= n <= events.len(),
    ensures
        state.after(events.take(n), i) == state.after(events, i),
    decreases i,
{
    if i > 0 {
        lemma_after_prefix(state, events, n, i - 1);
    }
}

proof fn lemma_owed_bounds_notifications(state: KeySend, events: Seq<LinkEvent>, n: int)
    requires
        0 <= n <= events.len(),
    ensures
        notify_count(state.actions(events.take(n))) + state.after(events, n).owed()
            <= state.owed(),
    decreases n,
{
    let now = state.actions(events.take(n));
    if n > 0 {
        let before = state.actions(events.take(n - 1));
        lemma_owed_bounds_notifications(state, events, n - 1);
        assert forall|i: int| 0 <= i < n - 1 implies now.drop_last()[i] == before[i] by {
            lemma_after_prefix(state, events, n, i);
            lemma_after_prefix(state, events, n - 1, i);
            assert(events.take(n)[i] == events[i]);
            assert(events.take(n - 1)[i] == events[i]);
        }
        lemma_after_prefix(state, events, n, n - 1);
        assert(now.drop_last() =~= before);
        assert(now.last() == state.after(events, n - 1).next(events[n - 1]).1);
    }
}

/// A failed notification ends the cycle at once, and a finished cycle asks
/// for nothing more.
pub proof fn send_stops_on_failure(state: KeySend, event: LinkEvent)
    ensures
        !state.finished() && event == LinkEvent::NotifyFailed && state != KeySend::Holding
            ==> state.next(event) == (KeySend::Failed, SendAction::Fail),
        state.finished() ==> state.next(event) == (state, SendAction::Nothing),
{
}

} // verus!
