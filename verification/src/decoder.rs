//! Quadrature decoding over a three-sample history of both encoder channels.
//!
//! The encoder rests with both channels at the same level. One detent takes
//! it to the opposite level in two edges, and the channel that moves first
//! tells the direction. The decoder keeps the last three samples of each
//! channel and reports a rotation on the edge that completes a detent; any
//! other edge, a bounce or a reversal, reports nothing. A new decoder holds
//! the levels read at start in all three places, so that nothing is reported
//! before a detent has been seen in full.

use vstd::prelude::*;

verus! {

/// The low history bits that take part in pattern matching: three samples.
pub const MASK: u8 = 0b111;

/// Channel `a` after a left detent from rest at high: high, low, low.
pub const LEFT_P1: u8 = 0b100;

/// Channel `b` after a left detent from rest at high: high, high, low.
pub const LEFT_P2: u8 = 0b110;

/// Channel `a` after a left detent from rest at low.
pub const LEFT_P1_INV: u8 = 0b011;

/// Channel `b` after a left detent from rest at low.
pub const LEFT_P2_INV: u8 = 0b001;

/// Channel `a` after a right detent from rest at high: high, high, low.
pub const RIGHT_P1: u8 = 0b110;

/// Channel `b` after a right detent from rest at high: high, low, low.
pub const RIGHT_P2: u8 = 0b100;

/// Channel `a` after a right detent from rest at low.
pub const RIGHT_P1_INV: u8 = 0b001;

/// Channel `b` after a right detent from rest at low.
pub const RIGHT_P2_INV: u8 = 0b011;

/// Direction reported for one edge; `Still` when the edge completes no detent.
#[derive(Clone, Copy, Debug, PartialEq, Eq, Structural)]
pub enum RotationEvent {
    Left,
    Right,
    Still,
}

/// Levels of the two channels at one instant.
pub struct Levels {
    pub a: bool,
    pub b: bool,
}

/// The three most recent samples of both channels.
pub struct Window {
    pub oldest: Levels,
    pub middle: Levels,
    pub newest: Levels,
}

/// Both channels at the same level: the position between two detents.
pub open spec fn rest(high: bool) -> Levels {
    Levels { a: high, b: high }
}

impl Levels {
    /// The same instant with the two channels exchanged.
    pub open spec fn exchanged(self) -> Levels {
        Levels { a: self.b, b: self.a }
    }

    /// The same instant with both levels inverted.
    pub open spec fn inverted(self) -> Levels {
        Levels { a: !self.a, b: !self.b }
    }
}

impl RotationEvent {
    /// The rotation in the other direction; `Still` stays `Still`.
    pub open spec fn reversed(self) -> RotationEvent {
        match self {
            RotationEvent::Left => RotationEvent::Right,
            RotationEvent::Right => RotationEvent::Left,
            RotationEvent::Still => RotationEvent::Still,
        }
    }
}

/// The window that a left detent leaves behind, starting from rest at
/// `high`: channel `a` moves first, then channel `b` follows.
pub open spec fn left_window(high: bool) -> Window {
    Window { oldest: rest(high), middle: Levels { a: !high, b: high }, newest: rest(!high) }
}

/// The window that a right detent leaves behind, starting from rest at
/// `high`: channel `b` moves first, then channel `a` follows.
pub open spec fn right_window(high: bool) -> Window {
    Window { oldest: rest(high), middle: Levels { a: high, b: !high }, newest: rest(!high) }
}

impl Window {
    /// The window of a knob that has not moved: the same levels three times.
    pub open spec fn settled(s: Levels) -> Window {
        Window { oldest: s, middle: s, newest: s }
    }

    /// The same window with the two channels exchanged.
    pub open spec fn exchanged(self) -> Window {
        Window {
            oldest: self.oldest.exchanged(),
            middle: self.middle.exchanged(),
            newest: self.newest.exchanged(),
        }
    }

    /// The same window with all levels inverted.
    pub open spec fn inverted(self) -> Window {
        Window {
            oldest: self.oldest.inverted(),
            middle: self.middle.inverted(),
            newest: self.newest.inverted(),
        }
    }

    /// The window after one more sample: the oldest one falls out.
    pub open spec fn push(self, s: Levels) -> Window {
        Window { oldest: self.middle, middle: self.newest, newest: s }
    }

    /// A completed left detent, in either polarity.
    pub open spec fn is_left(self) -> bool {
        self == left_window(true) || self == left_window(false)
    }

    /// A completed right detent, in either polarity.
    pub open spec fn is_right(self) -> bool {
        self == right_window(true) || self == right_window(false)
    }

    /// The rotation that a window stands for.
    pub open spec fn classify(self) -> RotationEvent {
        if self.is_left() {
            RotationEvent::Left
        } else if self.is_right() {
            RotationEvent::Right
        } else {
            RotationEvent::Still
        }
    }
}

/// The window after the first `n` of `samples` have been taken in.
pub open spec fn window_after(w: Window, samples: Seq<Levels>, n: int) -> Window
    decreases n,
{
    if n <= 0 {
        w
    } else {
        window_after(w, samples, n - 1).push(samples[n - 1])
    }
}

/// The events that a run of edges produces, one for each sample.
pub open spec fn events(w: Window, samples: Seq<Levels>) -> Seq<RotationEvent> {
    Seq::new(samples.len(), |i: int| window_after(w, samples, i + 1).classify())
}

/// The two edges of a left detent that starts from rest at `high`.
pub open spec fn left_turn(high: bool) -> Seq<Levels> {
    seq![Levels { a: !high, b: high }, rest(!high)]
}

/// The two edges of a right detent that starts from rest at `high`.
pub open spec fn right_turn(high: bool) -> Seq<Levels> {
    seq![Levels { a: high, b: !high }, rest(!high)]
}

/// A left detent from rest, in either polarity and whatever came before the
/// rest position, produces nothing on its first edge and `Left` on its
/// second: one `Left`, no `Right`, and nothing on a strict prefix.
pub proof fn left_turn_emits_left_once(w: Window, high: bool)
    requires
        w.newest == rest(high),
    ensures
        events(w, left_turn(high)) == seq![RotationEvent::Still, RotationEvent::Left],
        events(w, left_turn(high).take(1)) == seq![RotationEvent::Still],
        events(w, left_turn(high).take(0)) == Seq::<RotationEvent>::empty(),
        w.push(left_turn(high)[0]).classify() == RotationEvent::Still,
        w.push(left_turn(high)[0]).push(left_turn(high)[1]).classify() == RotationEvent::Left,
{
    reveal_with_fuel(window_after, 3);
    let turn = left_turn(high);
    assert(window_after(w, turn, 2) == left_window(high));
    assert(window_after(w, turn.take(1), 1) == window_after(w, turn, 1));
    assert(events(w, turn) =~= seq![RotationEvent::Still, RotationEvent::Left]);
    assert(events(w, turn.take(1)) =~= seq![RotationEvent::Still]);
    assert(events(w, turn.take(0)) =~= Seq::<RotationEvent>::empty());
}

/// A right detent from rest, in either polarity and whatever came before the
/// rest position, produces nothing on its first edge and `Right` on its
/// second: one `Right`, no `Left`, and nothing on a strict prefix.
pub proof fn right_turn_emits_right_once(w: Window, high: bool)
    requires
        w.newest == rest(high),
    ensures
        events(w, right_turn(high)) == seq![RotationEvent::Still, RotationEvent::Right],
        events(w, right_turn(high).take(1)) == seq![RotationEvent::Still],
        events(w, right_turn(high).take(0)) == Seq::<RotationEvent>::empty(),
        w.push(right_turn(high)[0]).classify() == RotationEvent::Still,
        w.push(right_turn(high)[0]).push(right_turn(high)[1]).classify() == RotationEvent::Right,
{
    reveal_with_fuel(window_after, 3);
    let turn = right_turn(high);
    assert(window_after(w, turn, 2) == right_window(high));
    assert(window_after(w, turn.take(1), 1) == window_after(w, turn, 1));
    assert(events(w, turn) =~= seq![RotationEvent::Still, RotationEvent::Right]);
    assert(events(w, turn.take(1)) =~= seq![RotationEvent::Still]);
    assert(events(w, turn.take(0)) =~= Seq::<RotationEvent>::empty());
}

/// The two directions are told apart: no window is both a left and a right
/// detent, so a window is reported as `Left` exactly when it is a left
/// detent and as `Right` exactly when it is a right one.
pub proof fn directions_are_distinct(w: Window)
    ensures
        !(w.is_left() && w.is_right()),
        w.classify() == RotationEvent::Left <==> w.is_left(),
        w.classify() == RotationEvent::Right <==> w.is_right(),
        w.classify() == RotationEvent::Still <==> !w.is_left() && !w.is_right(),
{
}

/// A rotation is reported only for a full detent: the encoder was at rest
/// two edges ago, is at the opposite rest now, and exactly one channel had
/// moved in between. The channel that moved first tells the direction.
pub proof fn rotation_needs_full_detent(w: Window)
    requires
        w.classify() != RotationEvent::Still,
    ensures
        w.oldest.a == w.oldest.b,
        w.newest == rest(!w.oldest.a),
        w.middle.a != w.middle.b,
        w.classify() == RotationEvent::Left <==> w.middle.a != w.oldest.a,
        w.classify() == RotationEvent::Right <==> w.middle.b != w.oldest.b,
{
}

/// The first edge after start reports nothing, whatever the levels at
/// start and whatever the levels after the edge: one phase change is not a
/// detent.
pub proof fn first_edge_emits_nothing(s: Levels, x: Levels)
    ensures
        Window::settled(s).push(x).classify() == RotationEvent::Still,
        events(Window::settled(s), seq![x]) == seq![RotationEvent::Still],
{
    reveal_with_fuel(window_after, 2);
    assert(window_after(Window::settled(s), seq![x], 1) == Window::settled(s).push(x));
    assert(events(Window::settled(s), seq![x]) =~= seq![RotationEvent::Still]);
}

/// From start, a rotation is reported on the second edge exactly when the
/// knob stood at rest, one channel moved on the first edge and the other
/// followed on the second; before the second edge nothing is reported.
pub proof fn second_edge_needs_rest_at_start(s: Levels, x: Levels, y: Levels)
    ensures
        events(Window::settled(s), seq![x, y]) == seq![
            RotationEvent::Still,
            (Window { oldest: s, middle: x, newest: y }).classify(),
        ],
        (Window { oldest: s, middle: x, newest: y }).classify() != RotationEvent::Still ==> s.a
            == s.b && x.a != x.b && y == rest(!s.a),
{
    reveal_with_fuel(window_after, 3);
    let w = Window::settled(s);
    assert(window_after(w, seq![x, y], 1) == w.push(x));
    assert(window_after(w, seq![x, y], 2) == w.push(x).push(y));
    assert(events(w, seq![x, y]) =~= seq![
        RotationEvent::Still,
        (Window { oldest: s, middle: x, newest: y }).classify(),
    ]);
}

/// Exchanging the two channels reverses every rotation of a run and
/// changes nothing else: what was `Left` is `Right`, what was `Right` is
/// `Left`, and `Still` stays `Still`, at every step.
pub proof fn exchanging_channels_reverses_rotations(w: Window, samples: Seq<Levels>)
    ensures
        events(w.exchanged(), samples.map_values(|s: Levels| s.exchanged())) == events(
            w,
            samples,
        ).map_values(|e: RotationEvent| e.reversed()),
{
    let mirrored = samples.map_values(|s: Levels| s.exchanged());
    assert forall|i: int| 0 <= i < samples.len() implies #[trigger] events(
        w.exchanged(),
        mirrored,
    )[i] == events(w, samples)[i].reversed() by {
        lemma_exchanged_window(w, samples, i + 1);
    }
    assert(events(w.exchanged(), mirrored) =~= events(w, samples).map_values(
        |e: RotationEvent| e.reversed(),
    ));
}

/// Inverting both levels at every instant changes no event of a run: the
/// decoder tells the direction from the order in which the channels move,
/// not from their polarity.
pub proof fn inverting_levels_keeps_rotations(w: Window, samples: Seq<Levels>)
    ensures
        events(w.inverted(), samples.map_values(|s: Levels| s.inverted())) == events(w, samples),
{
    let flipped = samples.map_values(|s: Levels| s.inverted());
    assert forall|i: int| 0 <= i < samples.len() implies #[trigger] events(w.inverted(), flipped)[i]
        == events(w, samples)[i] by {
        lemma_inverted_window(w, samples, i + 1);
    }
    assert(events(w.inverted(), flipped) =~= events(w, samples));
}

/// Both symmetries hold from start on: a knob wired with its channels
/// exchanged reports every rotation reversed, and a knob wired with
/// inverted levels reports the same rotations, from the first edge.
pub proof fn symmetries_hold_from_start(start: Levels, samples: Seq<Levels>)
    ensures
        events(
            Window::settled(start.exchanged()),
            samples.map_values(|s: Levels| s.exchanged()),
        ) == events(Window::settled(start), samples).map_values(|e: RotationEvent| e.reversed()),
        events(Window::settled(start.inverted()), samples.map_values(|s: Levels| s.inverted()))
            == events(Window::settled(start), samples),
{
    exchanging_channels_reverses_rotations(Window::settled(start), samples);
    inverting_levels_keeps_rotations(Window::settled(start), samples);
    assert(Window::settled(start).exchanged() == Window::settled(start.exchanged()));
    assert(Window::settled(start).inverted() == Window::settled(start.inverted()));
}

proof fn lemma_exchanged_window(w: Window, samples: Seq<Levels>, n: int)
    requires
        0 <= n <= samples.len(),
    ensures
        window_after(w.exchanged(), samples.map_values(|s: Levels| s.exchanged()), n)
            == window_after(w, samples, n).exchanged(),
        window_after(w, samples, n).exchanged().classify() == window_after(
            w,
            samples,
            n,
        ).classify().reversed(),
    decreases n,
{
    if n > 0 {
        lemma_exchanged_window(w, samples, n - 1);
    }
}

proof fn lemma_inverted_window(w: Window, samples: Seq<Levels>, n: int)
    requires
        0 <= n <= samples.len(),
    ensures
        window_after(w.inverted(), samples.map_values(|s: Levels| s.inverted()), n)
            == window_after(w, samples, n).inverted(),
        window_after(w, samples, n).inverted().classify() == window_after(
            w,
            samples,
            n,
        ).classify(),
    decreases n,
{
    if n > 0 {
        lemma_inverted_window(w, samples, n - 1);
    }
}

/// A run of edges in which no three successive samples make up a detent
/// produces `Still` at every step.
pub proof fn unrecognized_edges_emit_nothing(w: Window, samples: Seq<Levels>)
    requires
        forall|n: int|
            1 <= n <= samples.len() ==> !(#[trigger] window_after(w, samples, n)).is_left()
                && !window_after(w, samples, n).is_right(),
    ensures
        events(w, samples) == Seq::new(samples.len(), |i: int| RotationEvent::Still),
{
    assert forall|i: int| 0 <= i < samples.len() implies events(w, samples)[i]
        == RotationEvent::Still by {
        let x = window_after(w, samples, i + 1);
        assert(!x.is_left() && !x.is_right());
    }
    assert(events(w, samples) =~= Seq::new(samples.len(), |i: int| RotationEvent::Still));
}

/// Bounce: from rest, one edge to any levels followed by an edge back to
/// the same rest position produces nothing at either step.
pub proof fn bounce_emits_nothing(w: Window, high: bool, away: Levels)
    requires
        w.newest == rest(high),
    ensures
        events(w, seq![away, rest(high)]) == seq![RotationEvent::Still, RotationEvent::Still],
        w.push(away).classify() == RotationEvent::Still,
        w.push(away).push(rest(high)).classify() == RotationEvent::Still,
{
    reveal_with_fuel(window_after, 3);
    let samples = seq![away, rest(high)];
    assert(window_after(w, samples, 1) == w.push(away));
    assert(window_after(w, samples, 2) == w.push(away).push(rest(high)));
    assert(events(w, samples) =~= seq![RotationEvent::Still, RotationEvent::Still]);
}

/// What a run of edges has produced so far does not depend on the edges
/// that follow.
pub proof fn events_of_prefix(w: Window, samples: Seq<Levels>, n: int)
    requires
        0 <= n <= samples.len(),
    ensures
        events(w, samples.take(n)) == events(w, samples).take(n),
{
    assert forall|i: int| 0 <= i <= n implies window_after(w, samples.take(n), i) == window_after(
        w,
        samples,
        i,
    ) by {
        lemma_window_of_prefix(w, samples, n, i);
    }
    assert(events(w, samples.take(n)) =~= events(w, samples).take(n));
}

proof fn lemma_window_of_prefix(w: Window, samples: Seq<Levels>, n: int, i: int)
    requires
        0 <= i <= n <= samples.len(),
    ensures
        window_after(w, samples.take(n), i) == window_after(w, samples, i),
    decreases i,
{
    if i > 0 {
        lemma_window_of_prefix(w, samples, n, i - 1);
    }
}

/// Bit `i` of a history register.
pub open spec fn bit(h: u8, i: u8) -> bool {
    (h >> i) & 1 == 1
}

/// Rolling history of both encoder channels, newest sample in bit 0.
pub struct QuadratureDecoder {
    history_a: u8,
    history_b: u8,
}

impl View for QuadratureDecoder {
    type V = Window;

    closed spec fn view(&self) -> Window {
        Window {
            oldest: Levels { a: bit(self.history_a, 2), b: bit(self.history_b, 2) },
            middle: Levels { a: bit(self.history_a, 1), b: bit(self.history_b, 1) },
            newest: Levels { a: bit(self.history_a, 0), b: bit(self.history_b, 0) },
        }
    }
}

proof fn lemma_shift_in(h: u8, level: bool, l: u8, n: u8)
    requires
        l == (if level { 1u8 } else { 0u8 }),
        n == ((h << 1) | l) & MASK,
    ensures
        n <= 7,
        bit(n, 0) == level,
        bit(n, 1) == bit(h, 0),
        bit(n, 2) == bit(h, 1),
{
    assert(l <= 1);
    assert((((h << 1) | l) & 7) <= 7) by (bit_vector);
    assert(((((h << 1) | l) & 7) >> 0) & 1 == l) by (bit_vector)
        requires
            l <= 1,
    ;
    assert(((((h << 1) | l) & 7) >> 1) & 1 == (h >> 0) & 1) by (bit_vector)
        requires
            l <= 1,
    ;
    assert(((((h << 1) | l) & 7) >> 2) & 1 == (h >> 1) & 1) by (bit_vector)
        requires
            l <= 1,
    ;
}

proof fn lemma_pattern_bits(p: u8)
    requires
        p <= 7,
    ensures
        p == 0b100 <==> bit(p, 2) && !bit(p, 1) && !bit(p, 0),
        p == 0b110 <==> bit(p, 2) && bit(p, 1) && !bit(p, 0),
        p == 0b011 <==> !bit(p, 2) && bit(p, 1) && bit(p, 0),
        p == 0b001 <==> !bit(p, 2) && !bit(p, 1) && bit(p, 0),
{
    assert(p <= 7 ==> (p == 0b100 <==> ((p >> 2) & 1 == 1) && !((p >> 1) & 1 == 1) && !((p >> 0) & 1
        == 1))) by (bit_vector);
    assert(p <= 7 ==> (p == 0b110 <==> ((p >> 2) & 1 == 1) && ((p >> 1) & 1 == 1) && !((p >> 0) & 1
        == 1))) by (bit_vector);
    assert(p <= 7 ==> (p == 0b011 <==> !((p >> 2) & 1 == 1) && ((p >> 1) & 1 == 1) && ((p >> 0) & 1
        == 1))) by (bit_vector);
    assert(p <= 7 ==> (p == 0b001 <==> !((p >> 2) & 1 == 1) && !((p >> 1) & 1 == 1) && ((p >> 0) & 1
        == 1))) by (bit_vector);
}

impl QuadratureDecoder {
    /// A decoder for a knob whose levels at start are `a` and `b`. The
    /// history holds these levels in all three places, as if the knob had
    /// stood there all along: the first edge reports nothing, and a rotation
    /// is reported only once both of its edges have been seen.
    pub fn new(a: bool, b: bool) -> (decoder: Self)
        ensures
            decoder@ == Window::settled(Levels { a, b }),
    {
        let ha: u8 = if a { MASK } else { 0 };
        let hb: u8 = if b { MASK } else { 0 };
        proof {
            assert((0b111u8 >> 2) & 1 == 1 && (0b111u8 >> 1) & 1 == 1 && (0b111u8 >> 0) & 1 == 1)
                by (bit_vector);
            assert((0u8 >> 2) & 1 == 0 && (0u8 >> 1) & 1 == 0 && (0u8 >> 0) & 1 == 0)
                by (bit_vector);
        }
        QuadratureDecoder { history_a: ha, history_b: hb }
    }

    /// Takes in the levels read after an edge on either channel and says
    /// which rotation, if any, the last three samples complete.
    pub fn on_edge(&mut self, a: bool, b: bool) -> (event: RotationEvent)
        ensures
            final(self)@ == old(self)@.push(Levels { a, b }),
            event == final(self)@.classify(),
    {
        let la: u8 = if a { 1 } else { 0 };
        let lb: u8 = if b { 1 } else { 0 };
        let pa: u8 = ((self.history_a << 1) | la) & MASK;
        let pb: u8 = ((self.history_b << 1) | lb) & MASK;
        proof {
            lemma_shift_in(self.history_a, a, la, pa);
            lemma_shift_in(self.history_b, b, lb, pb);
            lemma_pattern_bits(pa);
            lemma_pattern_bits(pb);
        }
        self.history_a = pa;
        self.history_b = pb;
        let ghost w = self@;
        if pa == LEFT_P1 && pb == LEFT_P2 || pa == LEFT_P1_INV && pb == LEFT_P2_INV {
            proof {
                let high = pa == LEFT_P1;
                assert(w == left_window(high));
            }
            RotationEvent::Left
        } else if pa == RIGHT_P1 && pb == RIGHT_P2 || pa == RIGHT_P1_INV && pb == RIGHT_P2_INV {
            proof {
                let high = pa == RIGHT_P1;
                assert(w == right_window(high));
                assert(!w.is_left());
            }
            RotationEvent::Right
        } else {
            proof {
                assert(!w.is_left());
                assert(!w.is_right());
            }
            RotationEvent::Still
        }
    }
}

} // verus!
