//! Keyboard state machine: a 256-entry pressed bitmap, a bounded FIFO of key
//! transition events, a bounded FIFO of produced character codes, and an
//! auto-repeat flag.
//!
//! The bitmap answers level-triggered questions ("is this key down right
//! now"); the event queue answers edge-triggered ones ("did this key go down
//! since the last poll"), without losing rapid press/release pairs that fall
//! between two polls.

use vstd::prelude::*;

verus! {

/// Capacity of every bounded event queue; inserting beyond it evicts the
/// single oldest entry.
pub const MAX_BUFFER_SIZE: usize = 16;

/// Number of distinct key codes the pressed bitmap covers.
pub const KEY_STATE_COUNT: usize = 256;

/// A bounded queue holds the last `MAX_BUFFER_SIZE` entries of its history:
/// older entries are evicted, oldest first.
pub open spec fn trimmed<T>(s: Seq<T>) -> Seq<T> {
    if s.len() <= MAX_BUFFER_SIZE as int {
        s
    } else {
        s.skip(s.len() - MAX_BUFFER_SIZE as int)
    }
}

/// Appending to a bounded queue: push, then evict the oldest entry if the
/// capacity is exceeded.
pub open spec fn push_evict<T>(s: Seq<T>, e: T) -> Seq<T> {
    trimmed(s.push(e))
}

/// Drop entries from the front until at most `MAX_BUFFER_SIZE` remain.
pub fn trim_buffer<T>(buffer: &mut Vec<T>)
    ensures
        final(buffer)@ == trimmed(old(buffer)@),
{
    while buffer.len() > MAX_BUFFER_SIZE
        invariant
            trimmed(buffer@) == trimmed(old(buffer)@),
        decreases buffer.len(),
    {
        proof {
            assert(buffer@.skip(1).skip(buffer@.len() - 1 - MAX_BUFFER_SIZE as int) =~= buffer@.skip(
                buffer@.len() - MAX_BUFFER_SIZE as int,
            ));
            assert(buffer@.remove(0) =~= buffer@.skip(1));
        }
        buffer.remove(0);
    }
}

/// One recorded key transition.
#[derive(Debug, Clone, Copy, PartialEq, Eq, Structural)]
pub struct KeyEvent {
    pub key_state: KeyState,
    pub key_code: u32,
}

/// The direction of a key transition.
#[derive(Debug, Clone, Copy, PartialEq, Eq, Structural)]
pub enum KeyState {
    Press,
    Release,
}

/// The class of raw notification a key transition came from.
#[derive(Debug, Clone, Copy, PartialEq, Eq, Structural)]
pub enum KeyType {
    SysKey,
    Key,
    Idle,
}

/// `true` exactly on the Unicode scalar values, the codes `char` can hold.
pub open spec fn is_unicode_scalar(code: u32) -> bool {
    code < 0xD800 || (0xE000 <= code && code <= 0x10FFFF)
}

/// A character code that is not a Unicode scalar value reached the keyboard:
/// a platform/translator mismatch, reported rather than silently dropped.
#[derive(Debug, Clone, Copy, PartialEq, Eq, Structural)]
pub struct CharDecodeError {
    pub char_code: u32,
}

/// The mathematical state of a [`Keyboard`]: the pressed bitmap as a sequence
/// of booleans, the two queues as sequences (characters by their codes), and
/// the auto-repeat flag.
pub ghost struct KeyboardModel {
    pub pressed: Seq<bool>,
    pub key_events: Seq<KeyEvent>,
    pub chars: Seq<u32>,
    pub auto_repeat_enabled: bool,
}

impl KeyboardModel {
    pub open spec fn wf(self) -> bool {
        &&& self.pressed.len() == KEY_STATE_COUNT as int
        &&& self.key_events.len() <= MAX_BUFFER_SIZE as int
        &&& self.chars.len() <= MAX_BUFFER_SIZE as int
    }

    /// The state every keyboard starts in.
    pub open spec fn initial() -> KeyboardModel {
        KeyboardModel {
            pressed: Seq::new(KEY_STATE_COUNT as nat, |i: int| false),
            key_events: Seq::empty(),
            chars: Seq::empty(),
            auto_repeat_enabled: false,
        }
    }

    pub open spec fn is_pressed(self, code: int) -> bool {
        self.pressed[code]
    }

    /// Recording a press: the bitmap entry is set and a press event joins the
    /// queue, evicting the oldest entry if the queue is full.
    pub open spec fn press(self, key_code: u32) -> KeyboardModel {
        KeyboardModel {
            pressed: self.pressed.update(key_code as int, true),
            key_events: push_evict(
                self.key_events,
                KeyEvent { key_state: KeyState::Press, key_code },
            ),
            ..self
        }
    }

    /// Recording a release, symmetric to [`Self::press`].
    pub open spec fn release(self, key_code: u32) -> KeyboardModel {
        KeyboardModel {
            pressed: self.pressed.update(key_code as int, false),
            key_events: push_evict(
                self.key_events,
                KeyEvent { key_state: KeyState::Release, key_code },
            ),
            ..self
        }
    }

    /// Recording a produced character code.
    pub open spec fn put_char(self, char_code: u32) -> KeyboardModel {
        KeyboardModel { chars: push_evict(self.chars, char_code), ..self }
    }

    /// The state after a reset: bitmap and both queues cleared, the
    /// auto-repeat flag untouched.
    pub open spec fn cleared(self) -> KeyboardModel {
        KeyboardModel {
            pressed: Seq::new(KEY_STATE_COUNT as nat, |i: int| false),
            key_events: Seq::empty(),
            chars: Seq::empty(),
            ..self
        }
    }

    pub open spec fn with_auto_repeat(self, enabled: bool) -> KeyboardModel {
        KeyboardModel { auto_repeat_enabled: enabled, ..self }
    }

    /// The state after popping the oldest key event.
    pub open spec fn popped_key(self) -> KeyboardModel {
        KeyboardModel { key_events: self.key_events.drop_first(), ..self }
    }

    /// The state after popping the oldest character code.
    pub open spec fn popped_char(self) -> KeyboardModel {
        KeyboardModel { chars: self.chars.drop_first(), ..self }
    }
}

/// The keyboard half of the input layer.
#[derive(Debug, Clone)]
pub struct Keyboard {
    /// One entry per key code; 1 means the key is down, 0 that it is up.
    pub key_states: Vec<u8>,
    /// FIFO of recent key transitions, oldest first.
    pub key_queue: Vec<KeyEvent>,
    /// FIFO of recent produced characters, oldest first, independent of
    /// `key_queue`.
    pub char_queue: Vec<char>,
    /// Set when the platform reported a key-down as an auto-repeat.
    pub auto_repeat_enabled: bool,
}

impl View for Keyboard {
    type V = KeyboardModel;

    open spec fn view(&self) -> KeyboardModel {
        KeyboardModel {
            pressed: self.key_states@.map_values(|v: u8| v == 1),
            key_events: self.key_queue@,
            chars: self.char_queue@.map_values(|c: char| c as u32),
            auto_repeat_enabled: self.auto_repeat_enabled,
        }
    }
}

/// Relies on core::char::from_u32: it returns `Some` exactly on Unicode
/// scalar values, and the returned character has the given code.
#[verifier::external_body]
fn char_from_u32(code: u32) -> (r: Option<char>)
    ensures
        r is Some <==> is_unicode_scalar(code),
        r matches Some(c) ==> c as u32 == code,
{
    char::from_u32(code)
}

/// A pressed bitmap with every key up.
fn zeroed_key_states() -> (v: Vec<u8>)
    ensures
        v@.len() == KEY_STATE_COUNT as int,
        forall|i: int| 0 <= i < v@.len() ==> v@[i] == 0,
{
    let mut v: Vec<u8> = Vec::new();
    while v.len() < KEY_STATE_COUNT
        invariant
            v@.len() <= KEY_STATE_COUNT as int,
            forall|i: int| 0 <= i < v@.len() ==> v@[i] == 0,
        decreases KEY_STATE_COUNT - v.len(),
    {
        v.push(0);
    }
    v
}

impl Keyboard {
    pub open spec fn wf(&self) -> bool {
        self@.wf()
    }

    /// A keyboard with every key up, empty queues and auto-repeat off.
    pub fn new() -> (kb: Keyboard)
        ensures
            kb.wf(),
            kb@ == KeyboardModel::initial(),
    {
        let kb = Keyboard {
            key_states: zeroed_key_states(),
            key_queue: Vec::new(),
            char_queue: Vec::new(),
            auto_repeat_enabled: false,
        };
        proof {
            assert(kb@.pressed =~= KeyboardModel::initial().pressed);
            assert(kb@.chars =~= KeyboardModel::initial().chars);
        }
        kb
    }

    /// Clear the bitmap and both queues; the auto-repeat flag keeps its value.
    pub fn reset(&mut self)
        ensures
            final(self).wf(),
            final(self)@ == old(self)@.cleared(),
    {
        self.key_states = zeroed_key_states();
        self.key_queue = Vec::new();
        self.char_queue = Vec::new();
        proof {
            assert(self@.pressed =~= old(self)@.cleared().pressed);
            assert(self@.chars =~= old(self)@.cleared().chars);
        }
    }

    /// Level-triggered read: is the key down right now? The queue is left
    /// alone; see [`Self::key_is_pressed_clear`] for the edge-triggered variant.
    pub fn key_is_pressed(&self, target_key: u16) -> (r: bool)
        requires
            self.wf(),
            target_key < KEY_STATE_COUNT,
        ensures
            r == self@.is_pressed(target_key as int),
    {
        self.key_states[target_key as usize] == 1
    }

    /// Edge-triggered read: report whether the key was down, then force its
    /// bitmap entry to "up" so the next call sees a fresh transition.
    pub fn key_is_pressed_clear(&mut self, target_key: u16) -> (r: bool)
        requires
            old(self).wf(),
            target_key < KEY_STATE_COUNT,
        ensures
            final(self).wf(),
            r == old(self)@.is_pressed(target_key as int),
            final(self)@ == (KeyboardModel {
                pressed: old(self)@.pressed.update(target_key as int, false),
                ..old(self)@
            }),
    {
        let key_state = self.key_states[target_key as usize] == 1;
        self.key_states[target_key as usize] = 0;
        proof {
            assert(self@.pressed =~= old(self)@.pressed.update(target_key as int, false));
        }
        key_state
    }

    /// Pop the oldest key transition, or nothing when the queue is empty.
    pub fn read_key(&mut self) -> (r: Option<KeyEvent>)
        ensures
            old(self).wf() ==> final(self).wf(),
            old(self)@.key_events.len() == 0 ==> r is None && final(self)@ == old(self)@,
            old(self)@.key_events.len() > 0 ==> r == Some(old(self)@.key_events[0])
                && final(self)@ == old(self)@.popped_key(),
    {
        if !self.key_queue.is_empty() {
            let e = self.key_queue.remove(0);
            proof {
                assert(self@.key_events =~= old(self)@.key_events.drop_first());
            }
            return Some(e);
        }
        None
    }

    /// Pop the oldest produced character, or nothing when the queue is empty.
    pub fn read_char(&mut self) -> (r: Option<char>)
        ensures
            old(self).wf() ==> final(self).wf(),
            old(self)@.chars.len() == 0 ==> r is None && final(self)@ == old(self)@,
            old(self)@.chars.len() > 0 ==> (r matches Some(c) && c as u32 == old(self)@.chars[0])
                && final(self)@ == old(self)@.popped_char(),
    {
        if !self.char_queue.is_empty() {
            let ch = self.char_queue.remove(0);
            proof {
                assert(self@.chars =~= old(self)@.chars.drop_first());
            }
            return Some(ch);
        }
        None
    }

    pub fn clear_key_queue(&mut self)
        ensures
            final(self)@ == (KeyboardModel { key_events: Seq::empty(), ..old(self)@ }),
    {
        self.key_queue = Vec::new();
    }

    pub fn clear_char_queue(&mut self)
        ensures
            final(self)@ == (KeyboardModel { chars: Seq::empty(), ..old(self)@ }),
    {
        self.char_queue = Vec::new();
        proof {
            assert(self@.chars =~= Seq::<u32>::empty());
        }
    }

    pub fn clear_all_queues(&mut self)
        ensures
            final(self)@ == (KeyboardModel {
                key_events: Seq::empty(),
                chars: Seq::empty(),
                ..old(self)@
            }),
    {
        self.clear_char_queue();
        self.clear_key_queue();
    }

    pub fn disable_auto_repeat(&mut self)
        ensures
            final(self)@ == old(self)@.with_auto_repeat(false),
    {
        self.auto_repeat_enabled = false;
    }

    pub fn enable_auto_repeat(&mut self)
        ensures
            final(self)@ == old(self)@.with_auto_repeat(true),
    {
        self.auto_repeat_enabled = true;
    }

    /// Record a key going down: set its bitmap entry and queue a press event.
    pub fn on_key_press(&mut self, key_code: u32)
        requires
            old(self).wf(),
            key_code < KEY_STATE_COUNT,
        ensures
            final(self).wf(),
            final(self)@ == old(self)@.press(key_code),
    {
        self.key_states[key_code as usize] = 1;
        self.key_queue.push(KeyEvent { key_state: KeyState::Press, key_code });
        trim_buffer(&mut self.key_queue);
        proof {
            assert(self@.pressed =~= old(self)@.pressed.update(key_code as int, true));
        }
    }

    /// Record a key going up: clear its bitmap entry and queue a release event.
    pub fn on_key_release(&mut self, key_code: u32)
        requires
            old(self).wf(),
            key_code < KEY_STATE_COUNT,
        ensures
            final(self).wf(),
            final(self)@ == old(self)@.release(key_code),
    {
        self.key_states[key_code as usize] = 0;
        self.key_queue.push(KeyEvent { key_state: KeyState::Release, key_code });
        trim_buffer(&mut self.key_queue);
        proof {
            assert(self@.pressed =~= old(self)@.pressed.update(key_code as int, false));
        }
    }

    /// Record a produced character. A code that is not a Unicode scalar value
    /// is a platform-contract violation: the state is left untouched and the
    /// offending code is reported.
    pub fn on_char(&mut self, char_code: u32) -> (r: Result<(), CharDecodeError>)
        requires
            old(self).wf(),
        ensures
            final(self).wf(),
            is_unicode_scalar(char_code) ==> r is Ok
                && final(self)@ == old(self)@.put_char(char_code),
            !is_unicode_scalar(char_code) ==> r == Err::<(), CharDecodeError>(
                CharDecodeError { char_code },
            ) && final(self)@ == old(self)@,
    {
        match char_from_u32(char_code) {
            Some(ch) => {
                self.char_queue.push(ch);
                trim_buffer(&mut self.char_queue);
                proof {
                    assert(old(self).char_queue@.push(ch).map_values(|c: char| c as u32) =~= old(
                        self,
                    )@.chars.push(char_code));
                    lemma_trimmed_map(old(self).char_queue@.push(ch), |c: char| c as u32);
                }
                Ok(())
            },
            None => Err(CharDecodeError { char_code }),
        }
    }

    pub fn key_queue_is_empty(&self) -> (r: bool)
        ensures
            r == (self@.key_events.len() == 0),
    {
        self.key_queue.is_empty()
    }

    pub fn char_queue_is_empty(&self) -> (r: bool)
        ensures
            r == (self@.chars.len() == 0),
    {
        self.char_queue.is_empty()
    }
}

/// Trimming commutes with mapping a function over the queue.
proof fn lemma_trimmed_map<A, B>(s: Seq<A>, f: spec_fn(A) -> B)
    ensures
        trimmed(s).map_values(f) == trimmed(s.map_values(f)),
{
    assert(trimmed(s).map_values(f) =~= trimmed(s.map_values(f)));
}

/// A bounded queue never exceeds its capacity, and appending keeps the new
/// entry as the newest: below capacity nothing is lost, at capacity exactly
/// the oldest entry is evicted.
pub proof fn lemma_push_evict_capacity<T>(s: Seq<T>, e: T)
    requires
        s.len() <= MAX_BUFFER_SIZE as int,
    ensures
        push_evict(s, e).len() <= MAX_BUFFER_SIZE as int,
        push_evict(s, e).last() == e,
        s.len() < MAX_BUFFER_SIZE as int ==> push_evict(s, e) == s.push(e),
        s.len() == MAX_BUFFER_SIZE as int ==> push_evict(s, e) == s.drop_first().push(e),
{
    if s.len() == MAX_BUFFER_SIZE as int {
        assert(trimmed(s.push(e)) =~= s.drop_first().push(e));
    }
}

/// One key transition applied to the keyboard state: what `on_key_press` and
/// `on_key_release` record.
pub open spec fn apply_key_transition(kb: KeyboardModel, e: KeyEvent) -> KeyboardModel {
    if e.key_state is Press {
        kb.press(e.key_code)
    } else {
        kb.release(e.key_code)
    }
}

/// A whole sequence of key transitions applied in order.
pub open spec fn apply_key_transitions(kb: KeyboardModel, s: Seq<KeyEvent>) -> KeyboardModel
    decreases s.len(),
{
    if s.len() == 0 {
        kb
    } else {
        apply_key_transitions(apply_key_transition(kb, s[0]), s.drop_first())
    }
}

/// Whether the most recent transition in `s` touching `code` was a press;
/// `initial` answers for a key the sequence never touches.
pub open spec fn last_transition_pressed(s: Seq<KeyEvent>, code: u32, initial: bool) -> bool
    decreases s.len(),
{
    if s.len() == 0 {
        initial
    } else if s.last().key_code == code {
        s.last().key_state is Press
    } else {
        last_transition_pressed(s.drop_last(), code, initial)
    }
}

/// Applying a sequence and then one more transition is applying the extended
/// sequence.
proof fn lemma_apply_key_transitions_snoc(kb: KeyboardModel, s: Seq<KeyEvent>, e: KeyEvent)
    ensures
        apply_key_transitions(kb, s.push(e)) == apply_key_transition(
            apply_key_transitions(kb, s),
            e,
        ),
    decreases s.len(),
{
    if s.len() == 0 {
        assert(s.push(e)[0] == e);
        assert(s.push(e).drop_first() =~= Seq::<KeyEvent>::empty());
        assert(apply_key_transitions(kb, s.push(e)) == apply_key_transitions(
            apply_key_transition(kb, e),
            Seq::<KeyEvent>::empty(),
        ));
        assert(apply_key_transitions(apply_key_transition(kb, e), Seq::<KeyEvent>::empty())
            == apply_key_transition(kb, e));
    } else {
        assert(s.push(e)[0] == s[0]);
        assert(s.push(e).drop_first() =~= s.drop_first().push(e));
        lemma_apply_key_transitions_snoc(apply_key_transition(kb, s[0]), s.drop_first(), e);
        assert(apply_key_transitions(kb, s.push(e)) == apply_key_transitions(
            apply_key_transition(kb, s[0]),
            s.drop_first().push(e),
        ));
        assert(apply_key_transitions(kb, s) == apply_key_transitions(
            apply_key_transition(kb, s[0]),
            s.drop_first(),
        ));
    }
}

/// For every sequence of press/release transitions, a key reads as pressed
/// afterwards exactly when the most recent transition recorded for it was a
/// press — or, for a key the sequence never touches, when it was pressed
/// before.
pub proof fn lemma_pressed_is_last_transition(kb: KeyboardModel, s: Seq<KeyEvent>, code: u32)
    requires
        kb.wf(),
        code < KEY_STATE_COUNT,
        forall|i: int| 0 <= i < s.len() ==> (#[trigger] s[i]).key_code < KEY_STATE_COUNT,
    ensures
        apply_key_transitions(kb, s).wf(),
        apply_key_transitions(kb, s).is_pressed(code as int) == last_transition_pressed(
            s,
            code,
            kb.is_pressed(code as int),
        ),
    decreases s.len(),
{
    if s.len() > 0 {
        let s0 = s.drop_last();
        let e = s.last();
        assert(forall|i: int| 0 <= i < s0.len() ==> (#[trigger] s0[i]).key_code < KEY_STATE_COUNT);
        lemma_pressed_is_last_transition(kb, s0, code);
        lemma_apply_key_transitions_snoc(kb, s0, e);
        assert(s0.push(e) =~= s);
    }
}

} // verus!
