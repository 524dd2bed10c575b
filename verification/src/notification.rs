//! Notification translator: the one place where platform decoding lives.
//!
//! A raw platform notification plus the current state maps to mutations of
//! the keyboard and pointer state machines, and to the capture action the
//! platform adapter must perform (acquire on entering the window, release on
//! leaving it).

use vstd::prelude::*;

use crate::keyboard::{is_unicode_scalar, CharDecodeError, Keyboard, KeyboardModel};
use crate::mouse::{Mouse, MouseModel};

verus! {

/// Raw button-state bit for the left button in a pointer-move notification.
pub const RAW_LEFT_BUTTON: u32 = 0x0001;

/// Raw button-state bit for the right button in a pointer-move notification.
pub const RAW_RIGHT_BUTTON: u32 = 0x0002;

/// Raw button-state bit for the wheel button in a pointer-move notification.
pub const RAW_WHEEL_BUTTON: u32 = 0x0010;

/// The auto-repeat indicator of a key-down notification: bit 30 of the raw
/// parameter is set when the key was already down.
pub open spec fn repeat_flag_set(flags: u32) -> bool {
    (flags >> 30) & 1 == 1
}

/// Whether a pointer-move notification reports any button held.
pub open spec fn any_button_flag(button_flags: u32) -> bool {
    button_flags & (RAW_LEFT_BUTTON | RAW_RIGHT_BUTTON | RAW_WHEEL_BUTTON) != 0
}

/// Whether `(x, y)` lies in the window's client area.
pub open spec fn inside_bounds(x: i16, y: i16, width: i16, height: i16) -> bool {
    0 <= x <= width && 0 <= y <= height
}

/// A pointer button, as identified by the platform.
#[derive(Debug, Clone, Copy, PartialEq, Eq, Structural)]
pub enum Button {
    Left,
    Right,
    Wheel,
}

/// One raw platform input notification, already tagged by kind but with its
/// payloads still in raw form (the key-down flags word in particular).
#[derive(Debug, Clone, Copy, PartialEq, Eq, Structural)]
pub enum RawNotification {
    KeyDown { key_code: u16, flags: u32 },
    SysKeyDown { key_code: u16, flags: u32 },
    KeyUp { key_code: u16 },
    SysKeyUp { key_code: u16 },
    Char { char_code: u32 },
    PointerMove { x: i16, y: i16, button_flags: u32 },
    ButtonDown { button: Button },
    ButtonUp { button: Button },
    WheelRotate { x: i16, y: i16, delta: i16 },
    FocusLost,
}

/// What the platform adapter must do with pointer capture after a
/// notification is translated.
#[derive(Debug, Clone, Copy, PartialEq, Eq, Structural)]
pub enum CaptureAction {
    NoChange,
    Acquire,
    Release,
}

/// Key codes carried by key notifications must fit the pressed bitmap; an
/// out-of-range code is a programming error in the platform adapter.
pub open spec fn valid_notification(n: RawNotification) -> bool {
    match n {
        RawNotification::KeyDown { key_code, .. } => key_code < 256,
        RawNotification::SysKeyDown { key_code, .. } => key_code < 256,
        RawNotification::KeyUp { key_code } => key_code < 256,
        RawNotification::SysKeyUp { key_code } => key_code < 256,
        _ => true,
    }
}

/// Whether translation succeeds: everything does, except a character
/// notification whose code is not a Unicode scalar value.
pub open spec fn notification_ok(n: RawNotification) -> bool {
    match n {
        RawNotification::Char { char_code } => is_unicode_scalar(char_code),
        _ => true,
    }
}

/// The keyboard state after a successfully translated notification.
pub open spec fn keyboard_after(n: RawNotification, kb: KeyboardModel) -> KeyboardModel {
    match n {
        RawNotification::KeyDown { key_code, flags } => (
        if repeat_flag_set(flags) {
            kb.with_auto_repeat(true)
        } else {
            kb
        }).press(key_code as u32),
        RawNotification::SysKeyDown { key_code, flags } => (
        if repeat_flag_set(flags) {
            kb.with_auto_repeat(true)
        } else {
            kb
        }).press(key_code as u32),
        RawNotification::KeyUp { key_code } => kb.with_auto_repeat(false).release(key_code as u32),
        RawNotification::SysKeyUp { key_code } => kb.with_auto_repeat(false).release(
            key_code as u32,
        ),
        RawNotification::Char { char_code } => kb.put_char(char_code),
        RawNotification::FocusLost => kb.cleared(),
        _ => kb,
    }
}

/// The pointer state after a successfully translated notification. The
/// boundary-crossing rule lives here: a move inside the client area enters
/// the window on the first inside sample, a move outside it with a button
/// held is still a move (drag outside), a move outside it with no button
/// held leaves the window.
pub open spec fn mouse_after(n: RawNotification, m: MouseModel, width: i16, height: i16) -> MouseModel {
    match n {
        RawNotification::PointerMove { x, y, button_flags } => if inside_bounds(
            x,
            y,
            width,
            height,
        ) {
            if !m.is_in_window {
                m.entered().moved(x, y)
            } else {
                m.moved(x, y)
            }
        } else if any_button_flag(button_flags) {
            m.moved(x, y)
        } else if m.is_in_window {
            m.departed()
        } else {
            m
        },
        RawNotification::ButtonDown { button } => match button {
            Button::Left => m.left_button(true),
            Button::Right => m.right_button(true),
            Button::Wheel => m.wheel_button(true),
        },
        RawNotification::ButtonUp { button } => match button {
            Button::Left => m.left_button(false),
            Button::Right => m.right_button(false),
            Button::Wheel => m.wheel_button(false),
        },
        RawNotification::WheelRotate { x, y, delta } => m.wheeled(x, y, delta),
        _ => m,
    }
}

/// The capture action a successfully translated notification asks of the
/// platform adapter: acquire on the move that enters the window, release on
/// the move that leaves it.
pub open spec fn capture_after(n: RawNotification, m: MouseModel, width: i16, height: i16) -> CaptureAction {
    match n {
        RawNotification::PointerMove { x, y, button_flags } => if inside_bounds(
            x,
            y,
            width,
            height,
        ) && !m.is_in_window {
            CaptureAction::Acquire
        } else if !inside_bounds(x, y, width, height) && !any_button_flag(button_flags)
            && m.is_in_window {
            CaptureAction::Release
        } else {
            CaptureAction::NoChange
        },
        _ => CaptureAction::NoChange,
    }
}

/// Apply one raw notification to the two state machines.
///
/// On success the keyboard, the pointer and the returned capture action are
/// exactly [`keyboard_after`], [`mouse_after`] and [`capture_after`]; a
/// character notification whose code is not a Unicode scalar value is the
/// one failure, and leaves both machines untouched.
pub fn translate(
    n: RawNotification,
    keyboard: &mut Keyboard,
    mouse: &mut Mouse,
    width: i16,
    height: i16,
) -> (r: Result<CaptureAction, CharDecodeError>)
    requires
        old(keyboard).wf(),
        old(mouse).wf(),
        valid_notification(n),
    ensures
        final(keyboard).wf(),
        final(mouse).wf(),
        notification_ok(n) ==> r == Ok::<CaptureAction, CharDecodeError>(
            capture_after(n, old(mouse)@, width, height),
        ) && final(keyboard)@ == keyboard_after(n, old(keyboard)@) && final(mouse)@ == mouse_after(
            n,
            old(mouse)@,
            width,
            height,
        ),
        !notification_ok(n) ==> (n matches RawNotification::Char { char_code } && r == Err::<
            CaptureAction,
            CharDecodeError,
        >(CharDecodeError { char_code })) && final(keyboard)@ == old(keyboard)@ && final(mouse)@
            == old(mouse)@,
{
    match n {
        RawNotification::KeyDown { key_code, flags } | RawNotification::SysKeyDown {
            key_code,
            flags,
        } => {
            let auto_repeat = (flags >> 30) & 1 == 1;
            if auto_repeat {
                keyboard.enable_auto_repeat();
            }
            keyboard.on_key_press(key_code as u32);
            Ok(CaptureAction::NoChange)
        },
        RawNotification::KeyUp { key_code } | RawNotification::SysKeyUp { key_code } => {
            keyboard.disable_auto_repeat();
            keyboard.on_key_release(key_code as u32);
            Ok(CaptureAction::NoChange)
        },
        RawNotification::Char { char_code } => {
            match keyboard.on_char(char_code) {
                Ok(_) => Ok(CaptureAction::NoChange),
                Err(e) => Err(e),
            }
        },
        RawNotification::FocusLost => {
            keyboard.reset();
            Ok(CaptureAction::NoChange)
        },
        RawNotification::PointerMove { x, y, button_flags } => {
            if x >= 0 && x <= width && y >= 0 && y <= height {
                if !mouse.is_in_window {
                    mouse.on_mouse_enter();
                    mouse.on_mouse_move(x, y);
                    Ok(CaptureAction::Acquire)
                } else {
                    mouse.on_mouse_move(x, y);
                    Ok(CaptureAction::NoChange)
                }
            } else if button_flags & (RAW_LEFT_BUTTON | RAW_RIGHT_BUTTON | RAW_WHEEL_BUTTON) != 0 {
                mouse.on_mouse_move(x, y);
                Ok(CaptureAction::NoChange)
            } else if mouse.is_in_window {
                mouse.on_mouse_leave();
                Ok(CaptureAction::Release)
            } else {
                Ok(CaptureAction::NoChange)
            }
        },
        RawNotification::ButtonDown { button } => {
            match button {
                Button::Left => mouse.on_left_press(),
                Button::Right => mouse.on_right_press(),
                Button::Wheel => mouse.on_wheel_press(),
            }
            Ok(CaptureAction::NoChange)
        },
        RawNotification::ButtonUp { button } => {
            match button {
                Button::Left => mouse.on_left_release(),
                Button::Right => mouse.on_right_release(),
                Button::Wheel => mouse.on_wheel_release(),
            }
            Ok(CaptureAction::NoChange)
        },
        RawNotification::WheelRotate { x, y, delta } => {
            mouse.on_wheel_delta(x, y, delta);
            Ok(CaptureAction::NoChange)
        },
    }
}

/// A bare sequence of motion samples applied to the pointer: position
/// updates and move events only.
pub open spec fn apply_pointer_moves(m: MouseModel, ns: Seq<(i16, i16)>) -> MouseModel
    decreases ns.len(),
{
    if ns.len() == 0 {
        m
    } else {
        apply_pointer_moves(m.moved(ns[0].0, ns[0].1), ns.drop_first())
    }
}

/// A sequence of raw move notifications run through the translator, all
/// carrying the same button-state word.
pub open spec fn apply_move_notifications(
    m: MouseModel,
    ns: Seq<(i16, i16)>,
    button_flags: u32,
    width: i16,
    height: i16,
) -> MouseModel
    decreases ns.len(),
{
    if ns.len() == 0 {
        m
    } else {
        apply_move_notifications(
            mouse_after(
                RawNotification::PointerMove { x: ns[0].0, y: ns[0].1, button_flags },
                m,
                width,
                height,
            ),
            ns.drop_first(),
            button_flags,
            width,
            height,
        )
    }
}

/// Bare motion samples never touch the inside-window flag.
proof fn lemma_pointer_moves_keep_window_flag(m: MouseModel, ns: Seq<(i16, i16)>)
    ensures
        apply_pointer_moves(m, ns).is_in_window == m.is_in_window,
    decreases ns.len(),
{
    if ns.len() > 0 {
        lemma_pointer_moves_keep_window_flag(m.moved(ns[0].0, ns[0].1), ns.drop_first());
    }
}

/// While the pointer is inside the window, translated move notifications are
/// plain motion samples: no further enter event is produced.
proof fn lemma_moves_while_inside(
    m: MouseModel,
    ns: Seq<(i16, i16)>,
    button_flags: u32,
    width: i16,
    height: i16,
)
    requires
        m.is_in_window,
        forall|i: int|
            0 <= i < ns.len() ==> inside_bounds((#[trigger] ns[i]).0, ns[i].1, width, height),
    ensures
        apply_move_notifications(m, ns, button_flags, width, height) == apply_pointer_moves(m, ns),
    decreases ns.len(),
{
    if ns.len() > 0 {
        let m1 = m.moved(ns[0].0, ns[0].1);
        assert(forall|i: int|
            0 <= i < ns.drop_first().len() ==> inside_bounds(
                (#[trigger] ns.drop_first()[i]).0,
                ns.drop_first()[i].1,
                width,
                height,
            ));
        lemma_moves_while_inside(m1, ns.drop_first(), button_flags, width, height);
    }
}

/// While the pointer is outside the window with no button held, further
/// outside moves are ignored entirely: no second leave event is produced.
proof fn lemma_moves_while_outside(
    m: MouseModel,
    ns: Seq<(i16, i16)>,
    button_flags: u32,
    width: i16,
    height: i16,
)
    requires
        !m.is_in_window,
        !any_button_flag(button_flags),
        forall|i: int|
            0 <= i < ns.len() ==> !inside_bounds((#[trigger] ns[i]).0, ns[i].1, width, height),
    ensures
        apply_move_notifications(m, ns, button_flags, width, height) == m,
    decreases ns.len(),
{
    if ns.len() > 0 {
        assert(forall|i: int|
            0 <= i < ns.drop_first().len() ==> !inside_bounds(
                (#[trigger] ns.drop_first()[i]).0,
                ns.drop_first()[i].1,
                width,
                height,
            ));
        lemma_moves_while_outside(m, ns.drop_first(), button_flags, width, height);
    }
}

/// A move sequence that comes in from outside the window enters it exactly
/// once: the first inside sample produces the one enter event, immediately
/// followed by its move event, and every further sample is a plain move.
pub proof fn lemma_enter_happens_once(m: MouseModel, ns: Seq<(i16, i16)>, width: i16, height: i16)
    requires
        !m.is_in_window,
        ns.len() > 0,
        forall|i: int|
            0 <= i < ns.len() ==> inside_bounds((#[trigger] ns[i]).0, ns[i].1, width, height),
    ensures
        apply_move_notifications(m, ns, 0, width, height) == apply_pointer_moves(
            m.entered().moved(ns[0].0, ns[0].1),
            ns.drop_first(),
        ),
        apply_move_notifications(m, ns, 0, width, height).is_in_window,
{
    let m1 = m.entered().moved(ns[0].0, ns[0].1);
    assert(forall|i: int|
        0 <= i < ns.drop_first().len() ==> inside_bounds(
            (#[trigger] ns.drop_first()[i]).0,
            ns.drop_first()[i].1,
            width,
            height,
        ));
    lemma_moves_while_inside(m1, ns.drop_first(), 0, width, height);
    lemma_pointer_moves_keep_window_flag(m1, ns.drop_first());
}

/// A move sequence that leaves the window while a button is held never
/// produces a leave event: every sample stays a plain move and the pointer
/// still counts as inside (drag-outside behaviour).
pub proof fn lemma_drag_outside_keeps_moves(
    m: MouseModel,
    ns: Seq<(i16, i16)>,
    button_flags: u32,
    width: i16,
    height: i16,
)
    requires
        m.is_in_window,
        any_button_flag(button_flags),
        forall|i: int|
            0 <= i < ns.len() ==> !inside_bounds((#[trigger] ns[i]).0, ns[i].1, width, height),
    ensures
        apply_move_notifications(m, ns, button_flags, width, height) == apply_pointer_moves(m, ns),
        apply_pointer_moves(m, ns).is_in_window,
    decreases ns.len(),
{
    lemma_pointer_moves_keep_window_flag(m, ns);
    if ns.len() > 0 {
        let m1 = m.moved(ns[0].0, ns[0].1);
        assert(forall|i: int|
            0 <= i < ns.drop_first().len() ==> !inside_bounds(
                (#[trigger] ns.drop_first()[i]).0,
                ns.drop_first()[i].1,
                width,
                height,
            ));
        lemma_drag_outside_keeps_moves(m1, ns.drop_first(), button_flags, width, height);
    }
}

/// A move sequence that goes outside the window with no button held leaves
/// it exactly once: the first outside sample produces the one leave event,
/// and every further outside sample is ignored.
pub proof fn lemma_leave_happens_once(m: MouseModel, ns: Seq<(i16, i16)>, width: i16, height: i16)
    requires
        m.is_in_window,
        ns.len() > 0,
        forall|i: int|
            0 <= i < ns.len() ==> !inside_bounds((#[trigger] ns[i]).0, ns[i].1, width, height),
    ensures
        apply_move_notifications(m, ns, 0, width, height) == m.departed(),
        !apply_move_notifications(m, ns, 0, width, height).is_in_window,
{
    assert(0u32 & (RAW_LEFT_BUTTON | RAW_RIGHT_BUTTON | RAW_WHEEL_BUTTON) == 0) by (bit_vector);
    assert(forall|i: int|
        0 <= i < ns.drop_first().len() ==> !inside_bounds(
            (#[trigger] ns.drop_first()[i]).0,
            ns.drop_first()[i].1,
            width,
            height,
        ));
    lemma_moves_while_outside(m.departed(), ns.drop_first(), 0, width, height);
}

/// Split a packed coordinate parameter into its two signed 16-bit halves:
/// the x coordinate from the low word, the y coordinate from the high word.
/// Reassembling the two halves gives the packed word back.
pub fn make_points(coords: u32) -> (r: (i16, i16))
    ensures
        r.0 as u16 == coords as u16,
        r.1 as u16 == (coords >> 16) as u16,
        ((r.0 as u16) as u32) | (((r.1 as u16) as u32) << 16) == coords,
{
    let x: i16 = #[verifier::truncate] ((#[verifier::truncate] (coords as u16)) as i16);
    let y: i16 = #[verifier::truncate] ((#[verifier::truncate] ((coords >> 16) as u16)) as i16);
    proof {
        assert(((coords as u16) as i16) as u16 == coords as u16) by (bit_vector);
        assert((((coords >> 16) as u16) as i16) as u16 == (coords >> 16) as u16) by (bit_vector);
        assert(((coords as u16) as u32) | ((((coords >> 16) as u16) as u32) << 16) == coords)
            by (bit_vector);
    }
    (x, y)
}

/// Extract the signed 16-bit wheel delta from the high word of a raw wheel
/// parameter.
pub fn get_wheel_delta_wparam(wparam: u32) -> (delta: i16)
    ensures
        delta as u16 == (wparam >> 16) as u16,
{
    let delta: i16 = #[verifier::truncate] ((#[verifier::truncate] ((wparam >> 16) as u16)) as i16);
    proof {
        assert((((wparam >> 16) as u16) as i16) as u16 == (wparam >> 16) as u16) by (bit_vector);
    }
    delta
}

/// The context object owning both state machines and the client-area bounds:
/// the platform adapter feeds it notifications, the frame consumer polls its
/// `keyboard` and `mouse`.
pub struct InputSystem {
    pub keyboard: Keyboard,
    pub mouse: Mouse,
    pub width: i16,
    pub height: i16,
}

impl InputSystem {
    pub open spec fn wf(&self) -> bool {
        self.keyboard.wf() && self.mouse.wf()
    }

    /// A fresh input system for a client area of the given size.
    pub fn new(width: i16, height: i16) -> (s: InputSystem)
        ensures
            s.wf(),
            s.keyboard@ == KeyboardModel::initial(),
            s.mouse@ == MouseModel::initial(),
            s.width == width,
            s.height == height,
    {
        InputSystem { keyboard: Keyboard::new(), mouse: Mouse::new(), width, height }
    }

    /// Apply one raw notification; see [`translate`].
    pub fn handle_notification(&mut self, n: RawNotification) -> (r: Result<
        CaptureAction,
        CharDecodeError,
    >)
        requires
            old(self).wf(),
            valid_notification(n),
        ensures
            final(self).wf(),
            final(self).width == old(self).width,
            final(self).height == old(self).height,
            notification_ok(n) ==> r == Ok::<CaptureAction, CharDecodeError>(
                capture_after(n, old(self).mouse@, old(self).width, old(self).height),
            ) && final(self).keyboard@ == keyboard_after(n, old(self).keyboard@)
                && final(self).mouse@ == mouse_after(
                n,
                old(self).mouse@,
                old(self).width,
                old(self).height,
            ),
            !notification_ok(n) ==> (n matches RawNotification::Char { char_code } && r == Err::<
                CaptureAction,
                CharDecodeError,
            >(CharDecodeError { char_code })) && final(self).keyboard@ == old(self).keyboard@
                && final(self).mouse@ == old(self).mouse@,
    {
        let width = self.width;
        let height = self.height;
        translate(n, &mut self.keyboard, &mut self.mouse, width, height)
    }
}

} // verus!
