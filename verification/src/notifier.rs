//! The application notifier of a session: it presses a key, waits, and
//! presses the other one, for as long as the link delivers.

use crate::hid::{KeyPressed, KeySend, LinkEvent, SendAction};
use vstd::prelude::*;

verus! {

/// Time between two key cycles, in milliseconds.
pub const NOTIFY_PERIOD_MILLIS: u64 = 2000;

/// What the notifier asks of its driver next.
#[derive(Debug, Clone, Copy, PartialEq, Eq, Structural)]
pub enum NotifierAction {
    /// Notify the input report of this key, then report `Notified` or
    /// `NotifyFailed`.
    Notify(KeyPressed),
    /// Wait this many milliseconds, then report `Elapsed`.
    Wait(u64),
    /// The link is gone: the task ends.
    Stop,
    /// The event was not the one awaited: keep waiting for that one.
    Nothing,
}

/// Where the notifier stands.
#[derive(Debug, Clone, Copy, PartialEq, Eq, Structural)]
pub enum NotifierPhase {
    /// A key cycle is running.
    Sending(KeySend),
    /// The pause between two cycles is running.
    Pausing,
    /// A notification failed; the task has ended.
    Stopped,
}

/// The notifier: its phase, and which of the two keys is next.
#[derive(Debug, Clone, Copy, PartialEq, Eq, Structural)]
pub struct Notifier {
    pub phase: NotifierPhase,
    pub up_next: bool,
}

/// The key that a cycle presses: volume up and volume down in turn.
pub open spec fn key_for(up: bool) -> KeyPressed {
    if up {
        KeyPressed::VolUp
    } else {
        KeyPressed::VolDown
    }
}

impl Notifier {
    /// The notifier at the start of a session: the first cycle presses
    /// volume up.
    pub open spec fn initial() -> Notifier {
        Notifier { phase: NotifierPhase::Sending(KeySend::Pressing), up_next: true }
    }

    /// The notifier and the request that follow one event. While a cycle
    /// runs, its requests are passed on; when it completes, the other key
    /// is due after the pause; when it fails, the task stops for good.
    pub open spec fn next(self, event: LinkEvent) -> (Notifier, NotifierAction) {
        match self.phase {
            NotifierPhase::Sending(cycle) => {
                let (cycle, action) = cycle.next(event);
                match action {
                    SendAction::Notify(key) => (
                        Notifier { phase: NotifierPhase::Sending(cycle), ..self },
                        NotifierAction::Notify(key),
                    ),
                    SendAction::Wait(millis) => (
                        Notifier { phase: NotifierPhase::Sending(cycle), ..self },
                        NotifierAction::Wait(millis),
                    ),
                    SendAction::Complete => (
                        Notifier { phase: NotifierPhase::Pausing, up_next: !self.up_next },
                        NotifierAction::Wait(NOTIFY_PERIOD_MILLIS),
                    ),
                    SendAction::Fail => (
                        Notifier { phase: NotifierPhase::Stopped, ..self },
                        NotifierAction::Stop,
                    ),
                    SendAction::Nothing => (self, NotifierAction::Nothing),
                }
            },
            NotifierPhase::Pausing => if event == LinkEvent::Elapsed {
                (
                    Notifier { phase: NotifierPhase::Sending(KeySend::Pressing), ..self },
                    NotifierAction::Notify(key_for(self.up_next)),
                )
            } else {
                (self, NotifierAction::Nothing)
            },
            NotifierPhase::Stopped => (self, NotifierAction::Nothing),
        }
    }

    /// The notifier after the first `n` of `events`.
    pub open spec fn after(self, events: Seq<LinkEvent>, n: int) -> Notifier
        decreases n,
    {
        if n <= 0 {
            self
        } else {
            self.after(events, n - 1).next(events[n - 1]).0
        }
    }

    /// The requests that a run of events draws, one for each event.
    pub open spec fn actions(self, events: Seq<LinkEvent>) -> Seq<NotifierAction> {
        Seq::new(events.len(), |i: int| self.after(events, i).next(events[i]).1)
    }

    /// Starts the notifier of a new session: it asks at once for the
    /// notification of volume up.
    pub fn start() -> (r: (Notifier, NotifierAction))
        ensures
            r == (Notifier::initial(), NotifierAction::Notify(KeyPressed::VolUp)),
    {
        let (cycle, _) = KeyPressed::VolUp.send();
        (
            Notifier { phase: NotifierPhase::Sending(cycle), up_next: true },
            NotifierAction::Notify(KeyPressed::VolUp),
        )
    }

    /// Takes the notifier one event further and says what to do next.
    pub fn step(&mut self, event: LinkEvent) -> (action: NotifierAction)
        ensures
            (*final(self), action) == old(self).next(event),
    {
        match self.phase {
            NotifierPhase::Sending(cycle) => {
                let (cycle, action) = cycle.step(event);
                match action {
                    SendAction::Notify(key) => {
                        self.phase = NotifierPhase::Sending(cycle);
                        NotifierAction::Notify(key)
                    },
                    SendAction::Wait(millis) => {
                        self.phase = NotifierPhase::Sending(cycle);
                        NotifierAction::Wait(millis)
                    },
                    SendAction::Complete => {
                        self.phase = NotifierPhase::Pausing;
                        self.up_next = !self.up_next;
                        NotifierAction::Wait(NOTIFY_PERIOD_MILLIS)
                    },
                    SendAction::Fail => {
                        self.phase = NotifierPhase::Stopped;
                        NotifierAction::Stop
                    },
                    SendAction::Nothing => NotifierAction::Nothing,
                }
            },
            NotifierPhase::Pausing => match event {
                LinkEvent::Elapsed => {
                    let key = if self.up_next {
                        KeyPressed::VolUp
                    } else {
                        KeyPressed::VolDown
                    };
                    let (cycle, _) = key.send();
                    self.phase = NotifierPhase::Sending(cycle);
                    NotifierAction::Notify(key)
                },
                _ => NotifierAction::Nothing,
            },
            NotifierPhase::Stopped => NotifierAction::Nothing,
        }
    }

    /// Whether the task has ended.
    pub fn is_stopped(&self) -> (stopped: bool)
        ensures
            stopped == (self.phase == NotifierPhase::Stopped),
    {
        match self.phase {
            NotifierPhase::Stopped => true,
            _ => false,
        }
    }
}

/// On a link that delivers, one round of the notifier is the key cycle
/// followed by the pause, and the next round presses the other key.
pub proof fn notifier_alternates_keys(up: bool)
    ensures
        ({
            let begin = Notifier { phase: NotifierPhase::Sending(KeySend::Pressing), up_next: up };
            let round = seq![
                LinkEvent::Notified,
                LinkEvent::Elapsed,
                LinkEvent::Notified,
                LinkEvent::Elapsed,
            ];
            &&& begin.actions(round) == seq![
                NotifierAction::Wait(crate::hid::KEY_HOLD_MILLIS),
                NotifierAction::Notify(KeyPressed::Released),
                NotifierAction::Wait(NOTIFY_PERIOD_MILLIS),
                NotifierAction::Notify(key_for(!up)),
            ]
            &&& begin.after(round, 4) == (Notifier {
                phase: NotifierPhase::Sending(KeySend::Pressing),
                up_next: !up,
            })
        }),
{
    reveal_with_fuel(Notifier::after, 5);
    let begin = Notifier { phase: NotifierPhase::Sending(KeySend::Pressing), up_next: up };
    let round = seq![
        LinkEvent::Notified,
        LinkEvent::Elapsed,
        LinkEvent::Notified,
        LinkEvent::Elapsed,
    ];
    assert(begin.after(round, 1).phase == NotifierPhase::Sending(KeySend::Holding));
    assert(begin.after(round, 2).phase == NotifierPhase::Sending(KeySend::Releasing));
    assert(begin.after(round, 3) == (Notifier { phase: NotifierPhase::Pausing, up_next: !up }));
    assert(begin.actions(round) =~= seq![
        NotifierAction::Wait(crate::hid::KEY_HOLD_MILLIS),
        NotifierAction::Notify(KeyPressed::Released),
        NotifierAction::Wait(NOTIFY_PERIOD_MILLIS),
        NotifierAction::Notify(key_for(!up)),
    ]);
}

/// The first notification that fails stops the notifier, and a stopped
/// notifier asks for nothing more.
pub proof fn notifier_stops_when_link_fails(notifier: Notifier, event: LinkEvent)
    ensures
        notifier.next(event).1 == NotifierAction::Stop <==> (event == LinkEvent::NotifyFailed && (
        notifier.phase == NotifierPhase::Sending(KeySend::Pressing) || notifier.phase
            == NotifierPhase::Sending(KeySend::Releasing))),
        notifier.next(event).1 == NotifierAction::Stop ==> notifier.next(event).0.phase
            == NotifierPhase::Stopped,
        notifier.phase == NotifierPhase::Stopped ==> notifier.next(event) == (
            notifier,
            NotifierAction::Nothing,
        ),
{
}

} // verus!
