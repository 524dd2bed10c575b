//! Pointer state machine: last known position, three button flags, an
//! inside-window flag, a wheel-delta accumulator drained into discrete notch
//! events, and one bounded FIFO of pointer events.

use vstd::prelude::*;

use crate::keyboard::{trimmed, push_evict, trim_buffer, MAX_BUFFER_SIZE};

verus! {

/// Raw wheel units per discrete notch.
pub const WHEEL_DELTA: i16 = 120;

/// What is left in the accumulator after every full notch has been drained:
/// the unique value congruent to `t` modulo one notch whose magnitude is
/// below a notch, with the sign of what remains.
pub open spec fn wheel_rem(t: int) -> int
    decreases (if t >= 0 { t } else { -t }),
{
    if t >= WHEEL_DELTA as int {
        wheel_rem(t - WHEEL_DELTA as int)
    } else if t <= -(WHEEL_DELTA as int) {
        wheel_rem(t + WHEEL_DELTA as int)
    } else {
        t
    }
}

/// How many full notches an accumulated delta of `t` drains: positive for
/// wheel-up notches, negative for wheel-down notches.
pub open spec fn wheel_notches(t: int) -> int
    decreases (if t >= 0 { t } else { -t }),
{
    if t >= WHEEL_DELTA as int {
        1 + wheel_notches(t - WHEEL_DELTA as int)
    } else if t <= -(WHEEL_DELTA as int) {
        wheel_notches(t + WHEEL_DELTA as int) - 1
    } else {
        0
    }
}

/// The notch events an accumulated delta of `t` drains into, in emission
/// order: one `up` per positive notch or one `down` per negative notch.
pub open spec fn wheel_events(up: MouseEvent, down: MouseEvent, t: int) -> Seq<MouseEvent>
    decreases (if t >= 0 { t } else { -t }),
{
    if t >= WHEEL_DELTA as int {
        seq![up] + wheel_events(up, down, t - WHEEL_DELTA as int)
    } else if t <= -(WHEEL_DELTA as int) {
        seq![down] + wheel_events(up, down, t + WHEEL_DELTA as int)
    } else {
        Seq::empty()
    }
}

/// One recorded pointer event: the transition plus a full snapshot of button
/// state and position at the time of the event.
#[derive(Debug, Clone, Copy, PartialEq, Eq, Structural)]
pub struct MouseEvent {
    pub mouse_state: MouseState,
    pub left_pressed: bool,
    pub right_pressed: bool,
    pub wheel_pressed: bool,
    pub x: i16,
    pub y: i16,
}

/// The kind of pointer transition an event records.
#[derive(Debug, Clone, Copy, PartialEq, Eq, Structural)]
pub enum MouseState {
    LPress,
    LRelease,
    RPress,
    RRelease,
    WheelUp,
    WheelDown,
    WheelPress,
    WheelRelease,
    Move,
    Enter,
    Leave,
}

/// The mathematical state of a [`Mouse`]: the event queue as a sequence, the
/// wheel accumulator as an unbounded integer, and the remaining fields as
/// they are.
pub ghost struct MouseModel {
    pub events: Seq<MouseEvent>,
    pub is_in_window: bool,
    pub wheel_delta_carry: int,
    pub left_pressed: bool,
    pub right_pressed: bool,
    pub wheel_pressed: bool,
    pub x: i16,
    pub y: i16,
}

impl MouseModel {
    pub open spec fn wf(self) -> bool {
        &&& self.events.len() <= MAX_BUFFER_SIZE as int
        &&& -(WHEEL_DELTA as int) < self.wheel_delta_carry < WHEEL_DELTA as int
    }

    /// The state every pointer starts in.
    pub open spec fn initial() -> MouseModel {
        MouseModel {
            events: Seq::empty(),
            is_in_window: false,
            wheel_delta_carry: 0,
            left_pressed: false,
            right_pressed: false,
            wheel_pressed: false,
            x: 0,
            y: 0,
        }
    }

    /// The self-contained event recording transition `s` at position
    /// `(x, y)` under the current button flags.
    pub open spec fn snapshot_at(self, s: MouseState, x: i16, y: i16) -> MouseEvent {
        MouseEvent {
            mouse_state: s,
            left_pressed: self.left_pressed,
            right_pressed: self.right_pressed,
            wheel_pressed: self.wheel_pressed,
            x,
            y,
        }
    }

    /// The event recording transition `s` at the current position.
    pub open spec fn snapshot(self, s: MouseState) -> MouseEvent {
        self.snapshot_at(s, self.x, self.y)
    }

    /// Appending one event to the bounded queue.
    pub open spec fn with_event(self, e: MouseEvent) -> MouseModel {
        MouseModel { events: push_evict(self.events, e), ..self }
    }

    /// The state after a motion sample: position updated, one move event.
    pub open spec fn moved(self, x: i16, y: i16) -> MouseModel {
        let m = MouseModel { x, y, ..self };
        m.with_event(m.snapshot(MouseState::Move))
    }

    /// The state after the pointer entered the window.
    pub open spec fn entered(self) -> MouseModel {
        let m = MouseModel { is_in_window: true, ..self };
        m.with_event(m.snapshot(MouseState::Enter))
    }

    /// The state after the pointer left the window.
    pub open spec fn departed(self) -> MouseModel {
        let m = MouseModel { is_in_window: false, ..self };
        m.with_event(m.snapshot(MouseState::Leave))
    }

    /// The state after a left-button transition.
    pub open spec fn left_button(self, down: bool) -> MouseModel {
        let m = MouseModel { left_pressed: down, ..self };
        m.with_event(
            m.snapshot(if down { MouseState::LPress } else { MouseState::LRelease }),
        )
    }

    /// The state after a right-button transition.
    pub open spec fn right_button(self, down: bool) -> MouseModel {
        let m = MouseModel { right_pressed: down, ..self };
        m.with_event(
            m.snapshot(if down { MouseState::RPress } else { MouseState::RRelease }),
        )
    }

    /// The state after a wheel-button transition.
    pub open spec fn wheel_button(self, down: bool) -> MouseModel {
        let m = MouseModel { wheel_pressed: down, ..self };
        m.with_event(
            m.snapshot(if down { MouseState::WheelPress } else { MouseState::WheelRelease }),
        )
    }

    /// The state after a raw wheel rotation at `(x, y)`: the delta joins the
    /// accumulator, every full notch is drained into a discrete event, and
    /// less than one notch remains.
    pub open spec fn wheeled(self, x: i16, y: i16, delta: i16) -> MouseModel {
        let t = self.wheel_delta_carry + delta;
        MouseModel {
            wheel_delta_carry: wheel_rem(t),
            events: trimmed(
                self.events + wheel_events(
                    self.snapshot_at(MouseState::WheelUp, x, y),
                    self.snapshot_at(MouseState::WheelDown, x, y),
                    t,
                ),
            ),
            ..self
        }
    }

    /// The state after popping the oldest event.
    pub open spec fn popped(self) -> MouseModel {
        MouseModel { events: self.events.drop_first(), ..self }
    }
}

/// The pointer half of the input layer.
pub struct Mouse {
    /// FIFO of recent pointer events, oldest first.
    pub event_queue: Vec<MouseEvent>,
    /// True only between an enter event and the next leave event.
    pub is_in_window: bool,
    /// Sub-notch wheel units not yet drained; always below one notch in
    /// magnitude.
    pub wheel_delta_carry: i16,
    pub left_pressed: bool,
    pub right_pressed: bool,
    pub wheel_pressed: bool,
    /// Last known pointer position.
    pub x: i16,
    pub y: i16,
}

impl View for Mouse {
    type V = MouseModel;

    open spec fn view(&self) -> MouseModel {
        MouseModel {
            events: self.event_queue@,
            is_in_window: self.is_in_window,
            wheel_delta_carry: self.wheel_delta_carry as int,
            left_pressed: self.left_pressed,
            right_pressed: self.right_pressed,
            wheel_pressed: self.wheel_pressed,
            x: self.x,
            y: self.y,
        }
    }
}

impl Mouse {
    pub open spec fn wf(&self) -> bool {
        self@.wf()
    }

    /// A pointer at the origin, outside the window, with nothing pressed and
    /// an empty accumulator and queue.
    pub fn new() -> (m: Mouse)
        ensures
            m.wf(),
            m@ == MouseModel::initial(),
    {
        let m = Mouse {
            event_queue: Vec::new(),
            is_in_window: false,
            wheel_delta_carry: 0,
            left_pressed: false,
            right_pressed: false,
            wheel_pressed: false,
            x: 0,
            y: 0,
        };
        proof {
            assert(m@.events =~= MouseModel::initial().events);
        }
        m
    }

    /// Clear the event queue; position, buttons and accumulator persist.
    pub fn reset(&mut self)
        ensures
            final(self)@ == (MouseModel { events: Seq::empty(), ..old(self)@ }),
    {
        self.event_queue = Vec::new();
        proof {
            assert(self@.events =~= Seq::<MouseEvent>::empty());
        }
    }

    fn push_event(&mut self, e: MouseEvent)
        ensures
            final(self)@ == old(self)@.with_event(e),
    {
        self.event_queue.push(e);
        trim_buffer(&mut self.event_queue);
    }

    fn on_wheel_up(&mut self, x: i16, y: i16)
        ensures
            final(self)@ == old(self)@.with_event(
                old(self)@.snapshot_at(MouseState::WheelUp, x, y),
            ),
    {
        let e = MouseEvent {
            mouse_state: MouseState::WheelUp,
            left_pressed: self.left_pressed,
            right_pressed: self.right_pressed,
            wheel_pressed: self.wheel_pressed,
            x,
            y,
        };
        self.push_event(e);
    }

    fn on_wheel_down(&mut self, x: i16, y: i16)
        ensures
            final(self)@ == old(self)@.with_event(
                old(self)@.snapshot_at(MouseState::WheelDown, x, y),
            ),
    {
        let e = MouseEvent {
            mouse_state: MouseState::WheelDown,
            left_pressed: self.left_pressed,
            right_pressed: self.right_pressed,
            wheel_pressed: self.wheel_pressed,
            x,
            y,
        };
        self.push_event(e);
    }

    /// Feed a raw wheel rotation: accumulate, then drain full notches into
    /// discrete wheel-up or wheel-down events.
    pub fn on_wheel_delta(&mut self, x: i16, y: i16, delta: i16)
        requires
            old(self).wf(),
        ensures
            final(self).wf(),
            final(self)@ == old(self)@.wheeled(x, y, delta),
    {
        let ghost m0 = old(self)@;
        let ghost e_up = m0.snapshot_at(MouseState::WheelUp, x, y);
        let ghost e_down = m0.snapshot_at(MouseState::WheelDown, x, y);
        let ghost t = m0.wheel_delta_carry + delta;
        let mut carry: i32 = self.wheel_delta_carry as i32 + delta as i32;
        let ghost mut emitted: Seq<MouseEvent> = Seq::empty();

        assert(wheel_events(e_up, e_down, t) =~= emitted + wheel_events(e_up, e_down, t));

        while carry >= WHEEL_DELTA as i32
            invariant
                -(WHEEL_DELTA as int) - i16::MAX <= carry <= i16::MAX + WHEEL_DELTA as int,
                wheel_rem(carry as int) == wheel_rem(t),
                e_up == m0.snapshot_at(MouseState::WheelUp, x, y),
                e_down == m0.snapshot_at(MouseState::WheelDown, x, y),
                wheel_events(e_up, e_down, t) == emitted + wheel_events(e_up, e_down, carry as int),
                self@ == (MouseModel {
                    events: trimmed(m0.events + emitted),
                    wheel_delta_carry: m0.wheel_delta_carry,
                    ..m0
                }),
                m0.events.len() <= MAX_BUFFER_SIZE as int,
            decreases carry,
        {
            carry = carry - WHEEL_DELTA as i32;
            self.on_wheel_up(x, y);
            proof {
                lemma_push_evict_of_trimmed(m0.events + emitted, e_up);
                assert((m0.events + emitted).push(e_up) =~= m0.events + emitted.push(e_up));
                assert(emitted + (seq![e_up] + wheel_events(e_up, e_down, carry as int))
                    =~= emitted.push(e_up) + wheel_events(e_up, e_down, carry as int));
                emitted = emitted.push(e_up);
            }
        }

        while carry <= -(WHEEL_DELTA as i32)
            invariant
                -(WHEEL_DELTA as int) - i16::MAX <= carry < WHEEL_DELTA as int,
                wheel_rem(carry as int) == wheel_rem(t),
                e_up == m0.snapshot_at(MouseState::WheelUp, x, y),
                e_down == m0.snapshot_at(MouseState::WheelDown, x, y),
                wheel_events(e_up, e_down, t) == emitted + wheel_events(e_up, e_down, carry as int),
                self@ == (MouseModel {
                    events: trimmed(m0.events + emitted),
                    wheel_delta_carry: m0.wheel_delta_carry,
                    ..m0
                }),
                m0.events.len() <= MAX_BUFFER_SIZE as int,
            decreases -carry,
        {
            carry = carry + WHEEL_DELTA as i32;
            self.on_wheel_down(x, y);
            proof {
                lemma_push_evict_of_trimmed(m0.events + emitted, e_down);
                assert((m0.events + emitted).push(e_down) =~= m0.events + emitted.push(e_down));
                assert(emitted + (seq![e_down] + wheel_events(e_up, e_down, carry as int))
                    =~= emitted.push(e_down) + wheel_events(e_up, e_down, carry as int));
                emitted = emitted.push(e_down);
            }
        }

        self.wheel_delta_carry = carry as i16;
        proof {
            assert(wheel_events(e_up, e_down, carry as int) =~= Seq::<MouseEvent>::empty());
            assert(emitted =~= wheel_events(e_up, e_down, t));
        }
    }

    /// Record the left button going down.
    pub fn on_left_press(&mut self)
        ensures
            final(self)@ == old(self)@.left_button(true),
    {
        self.left_pressed = true;
        let e = MouseEvent {
            mouse_state: MouseState::LPress,
            left_pressed: self.left_pressed,
            right_pressed: self.right_pressed,
            wheel_pressed: self.wheel_pressed,
            x: self.x,
            y: self.y,
        };
        self.push_event(e);
    }

    /// Record the right button going down.
    pub fn on_right_press(&mut self)
        ensures
            final(self)@ == old(self)@.right_button(true),
    {
        self.right_pressed = true;
        let e = MouseEvent {
            mouse_state: MouseState::RPress,
            left_pressed: self.left_pressed,
            right_pressed: self.right_pressed,
            wheel_pressed: self.wheel_pressed,
            x: self.x,
            y: self.y,
        };
        self.push_event(e);
    }

    /// Record the left button going up.
    pub fn on_left_release(&mut self)
        ensures
            final(self)@ == old(self)@.left_button(false),
    {
        self.left_pressed = false;
        let e = MouseEvent {
            mouse_state: MouseState::LRelease,
            left_pressed: self.left_pressed,
            right_pressed: self.right_pressed,
            wheel_pressed: self.wheel_pressed,
            x: self.x,
            y: self.y,
        };
        self.push_event(e);
    }

    /// Record the wheel button going down.
    pub fn on_wheel_press(&mut self)
        ensures
            final(self)@ == old(self)@.wheel_button(true),
    {
        self.wheel_pressed = true;
        let e = MouseEvent {
            mouse_state: MouseState::WheelPress,
            left_pressed: self.left_pressed,
            right_pressed: self.right_pressed,
            wheel_pressed: self.wheel_pressed,
            x: self.x,
            y: self.y,
        };
        self.push_event(e);
    }

    /// Record the wheel button going up.
    pub fn on_wheel_release(&mut self)
        ensures
            final(self)@ == old(self)@.wheel_button(false),
    {
        self.wheel_pressed = false;
        let e = MouseEvent {
            mouse_state: MouseState::WheelRelease,
            left_pressed: self.left_pressed,
            right_pressed: self.right_pressed,
            wheel_pressed: self.wheel_pressed,
            x: self.x,
            y: self.y,
        };
        self.push_event(e);
    }

    /// Record the right button going up.
    pub fn on_right_release(&mut self)
        ensures
            final(self)@ == old(self)@.right_button(false),
    {
        self.right_pressed = false;
        let e = MouseEvent {
            mouse_state: MouseState::RRelease,
            left_pressed: self.left_pressed,
            right_pressed: self.right_pressed,
            wheel_pressed: self.wheel_pressed,
            x: self.x,
            y: self.y,
        };
        self.push_event(e);
    }

    /// Record a motion sample: update the position and queue a move event.
    pub fn on_mouse_move(&mut self, x: i16, y: i16)
        ensures
            final(self)@ == old(self)@.moved(x, y),
    {
        self.x = x;
        self.y = y;
        let e = MouseEvent {
            mouse_state: MouseState::Move,
            left_pressed: self.left_pressed,
            right_pressed: self.right_pressed,
            wheel_pressed: self.wheel_pressed,
            x: self.x,
            y: self.y,
        };
        self.push_event(e);
    }

    /// Record the pointer leaving the window. Calling this while already
    /// outside is a caller contract violation: the translator owns edge
    /// detection.
    pub fn on_mouse_leave(&mut self)
        requires
            old(self)@.is_in_window,
        ensures
            final(self)@ == old(self)@.departed(),
    {
        self.is_in_window = false;
        let e = MouseEvent {
            mouse_state: MouseState::Leave,
            left_pressed: self.left_pressed,
            right_pressed: self.right_pressed,
            wheel_pressed: self.wheel_pressed,
            x: self.x,
            y: self.y,
        };
        self.push_event(e);
    }

    /// Record the pointer entering the window. Calling this while already
    /// inside is a caller contract violation: the translator owns edge
    /// detection.
    pub fn on_mouse_enter(&mut self)
        requires
            !old(self)@.is_in_window,
        ensures
            final(self)@ == old(self)@.entered(),
    {
        self.is_in_window = true;
        let e = MouseEvent {
            mouse_state: MouseState::Enter,
            left_pressed: self.left_pressed,
            right_pressed: self.right_pressed,
            wheel_pressed: self.wheel_pressed,
            x: self.x,
            y: self.y,
        };
        self.push_event(e);
    }

    /// The last known pointer position.
    pub fn get_pos(&self) -> (r: (i16, i16))
        ensures
            r.0 == self@.x,
            r.1 == self@.y,
    {
        (self.x, self.y)
    }

    /// Pop the oldest pointer event, or nothing when the queue is empty.
    pub fn read(&mut self) -> (r: Option<MouseEvent>)
        ensures
            old(self).wf() ==> final(self).wf(),
            old(self)@.events.len() == 0 ==> r is None && final(self)@ == old(self)@,
            old(self)@.events.len() > 0 ==> r == Some(old(self)@.events[0])
                && final(self)@ == old(self)@.popped(),
    {
        if !self.event_queue.is_empty() {
            let e = self.event_queue.remove(0);
            proof {
                assert(self@.events =~= old(self)@.events.drop_first());
            }
            return Some(e);
        }
        None
    }
}

/// The accumulator remainder always stays below one notch in magnitude, and
/// never changes sign away from its input.
pub proof fn lemma_wheel_rem_bounds(t: int)
    ensures
        -(WHEEL_DELTA as int) < wheel_rem(t) < WHEEL_DELTA as int,
        t >= 0 ==> wheel_rem(t) >= 0,
        t <= 0 ==> wheel_rem(t) <= 0,
    decreases (if t >= 0 { t } else { -t }),
{
    if t >= WHEEL_DELTA as int {
        lemma_wheel_rem_bounds(t - WHEEL_DELTA as int);
    } else if t <= -(WHEEL_DELTA as int) {
        lemma_wheel_rem_bounds(t + WHEEL_DELTA as int);
    }
}

/// Forward rotation only ever drains wheel-up notches, backward rotation
/// only wheel-down ones.
proof fn lemma_wheel_notches_sign(t: int)
    ensures
        t >= 0 ==> wheel_notches(t) >= 0,
        t <= 0 ==> wheel_notches(t) <= 0,
    decreases (if t >= 0 { t } else { -t }),
{
    if t >= WHEEL_DELTA as int {
        lemma_wheel_notches_sign(t - WHEEL_DELTA as int);
    } else if t <= -(WHEEL_DELTA as int) {
        lemma_wheel_notches_sign(t + WHEEL_DELTA as int);
    }
}

/// An accumulated delta drains exactly `wheel_notches` events, all of one
/// kind: wheel-up copies for forward rotation, wheel-down copies backward.
pub proof fn lemma_wheel_events_count(up: MouseEvent, down: MouseEvent, t: int)
    ensures
        t >= 0 ==> wheel_events(up, down, t) == Seq::new(wheel_notches(t) as nat, |i: int| up),
        t <= 0 ==> wheel_events(up, down, t) == Seq::new((-wheel_notches(t)) as nat, |i: int| down),
    decreases (if t >= 0 { t } else { -t }),
{
    lemma_wheel_notches_sign(t);
    if t >= WHEEL_DELTA as int {
        lemma_wheel_notches_sign(t - WHEEL_DELTA as int);
        lemma_wheel_events_count(up, down, t - WHEEL_DELTA as int);
        assert(seq![up] + Seq::new(wheel_notches(t - WHEEL_DELTA as int) as nat, |i: int| up)
            =~= Seq::new(wheel_notches(t) as nat, |i: int| up));
    } else if t <= -(WHEEL_DELTA as int) {
        lemma_wheel_notches_sign(t + WHEEL_DELTA as int);
        lemma_wheel_events_count(up, down, t + WHEEL_DELTA as int);
        assert(seq![down] + Seq::new((-wheel_notches(t + WHEEL_DELTA as int)) as nat, |i: int| down)
            =~= Seq::new((-wheel_notches(t)) as nat, |i: int| down));
    } else {
        assert(Seq::new(0, |i: int| up) =~= Seq::<MouseEvent>::empty());
        assert(Seq::new(0, |i: int| down) =~= Seq::<MouseEvent>::empty());
    }
}

/// The sum of a sequence of wheel deltas.
pub open spec fn delta_sum(ds: Seq<int>) -> int
    decreases ds.len(),
{
    if ds.len() == 0 {
        0
    } else {
        ds[0] + delta_sum(ds.drop_first())
    }
}

/// The accumulator after feeding the deltas of `ds` one call at a time,
/// starting from carry `c`: what repeated `on_wheel_delta` calls leave in
/// `wheel_delta_carry`.
pub open spec fn carry_after_deltas(c: int, ds: Seq<int>) -> int
    decreases ds.len(),
{
    if ds.len() == 0 {
        c
    } else {
        carry_after_deltas(wheel_rem(c + ds[0]), ds.drop_first())
    }
}

/// The total number of notches drained while feeding the deltas of `ds` one
/// call at a time, starting from carry `c`.
pub open spec fn notches_after_deltas(c: int, ds: Seq<int>) -> int
    decreases ds.len(),
{
    if ds.len() == 0 {
        0
    } else {
        wheel_notches(c + ds[0]) + notches_after_deltas(wheel_rem(c + ds[0]), ds.drop_first())
    }
}

/// Splitting one forward rotation into two feeds drains the same notches and
/// leaves the same remainder as feeding it at once.
proof fn lemma_wheel_pair(a: int, b: int)
    requires
        a >= 0,
        b >= 0,
    ensures
        wheel_rem(wheel_rem(a) + b) == wheel_rem(a + b),
        wheel_notches(a) + wheel_notches(wheel_rem(a) + b) == wheel_notches(a + b),
    decreases a,
{
    if a >= WHEEL_DELTA as int {
        lemma_wheel_pair(a - WHEEL_DELTA as int, b);
        assert(wheel_rem(a + b) == wheel_rem(a - WHEEL_DELTA as int + b));
        assert(wheel_notches(a + b) == 1 + wheel_notches(a - WHEEL_DELTA as int + b));
    }
}

/// A sequence of nonnegative deltas sums to a nonnegative total.
proof fn lemma_delta_sum_nonneg(ds: Seq<int>)
    requires
        forall|i: int| 0 <= i < ds.len() ==> ds[i] >= 0,
    ensures
        delta_sum(ds) >= 0,
    decreases ds.len(),
{
    if ds.len() > 0 {
        assert(forall|i: int| 0 <= i < ds.drop_first().len() ==> ds.drop_first()[i] >= 0);
        lemma_delta_sum_nonneg(ds.drop_first());
    }
}

/// Wheel accumulation is split-invariant for forward rotation: feeding
/// nonnegative deltas one call at a time drains exactly as many notches, and
/// leaves exactly the same remainder, as feeding their sum in a single call
/// — however the sum is split. (A rotation that changes direction may not:
/// an interleaved negative delta can hold the accumulator below a notch that
/// the combined feed would drain.)
pub proof fn lemma_wheel_accumulation_splits(c: int, ds: Seq<int>)
    requires
        0 <= c < WHEEL_DELTA as int,
        forall|i: int| 0 <= i < ds.len() ==> ds[i] >= 0,
    ensures
        carry_after_deltas(c, ds) == wheel_rem(c + delta_sum(ds)),
        notches_after_deltas(c, ds) == wheel_notches(c + delta_sum(ds)),
    decreases ds.len(),
{
    if ds.len() == 0 {
        assert(wheel_rem(c) == c);
        assert(wheel_notches(c) == 0);
    } else {
        let rest = ds.drop_first();
        let c1 = wheel_rem(c + ds[0]);
        lemma_wheel_rem_bounds(c + ds[0]);
        assert(forall|i: int| 0 <= i < rest.len() ==> rest[i] >= 0);
        lemma_delta_sum_nonneg(rest);
        lemma_wheel_accumulation_splits(c1, rest);
        lemma_wheel_pair(c + ds[0], delta_sum(rest));
    }
}

/// Appending to an already-trimmed queue is appending to its full history:
/// trimming first changes nothing.
proof fn lemma_push_evict_of_trimmed<T>(s: Seq<T>, e: T)
    ensures
        push_evict(trimmed(s), e) == push_evict(s, e),
{
    if s.len() > MAX_BUFFER_SIZE as int {
        assert(trimmed(s).push(e) =~= s.push(e).skip(s.len() - MAX_BUFFER_SIZE as int));
        assert(trimmed(s).push(e).skip(1) =~= s.push(e).skip(
            s.len() + 1 - MAX_BUFFER_SIZE as int,
        ));
    }
}

} // verus!
