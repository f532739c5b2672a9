use vstd::prelude::*;

verus! {

/// A media key.
#[derive(Clone, Copy, Debug, PartialEq, Eq, Structural)]
pub enum MediaKeyCode {
    Play,
    Pause,
    PlayPause,
    Reverse,
    Stop,
    FastForward,
    Rewind,
    TrackNext,
    TrackPrevious,
    Record,
    LowerVolume,
    RaiseVolume,
    MuteVolume,
}

/// A modifier key pressed on its own.
#[derive(Clone, Copy, Debug, PartialEq, Eq, Structural)]
pub enum ModifierKeyCode {
    LeftShift,
    LeftControl,
    LeftAlt,
    LeftSuper,
    LeftHyper,
    LeftMeta,
    RightShift,
    RightControl,
    RightAlt,
    RightSuper,
    RightHyper,
    RightMeta,
    IsoLevel3Shift,
    IsoLevel5Shift,
}

/// A key.
#[derive(Clone, Copy, Debug, PartialEq, Eq, Structural)]
pub enum KeyCode {
    Backspace,
    Enter,
    Left,
    Right,
    Up,
    Down,
    Home,
    End,
    PageUp,
    PageDown,
    Tab,
    BackTab,
    Delete,
    Insert,
    /// A function key: `F(1)` is F1.
    F(u8),
    /// A character.
    Char(char),
    Null,
    Esc,
    CapsLock,
    ScrollLock,
    NumLock,
    PrintScreen,
    Pause,
    Menu,
    KeypadBegin,
    Media(MediaKeyCode),
    Modifier(ModifierKeyCode),
}

/// The modifier bit of Shift.
pub const SHIFT_BIT: u8 = 1;

/// The modifier bit of Control.
pub const CONTROL_BIT: u8 = 2;

/// The modifier bit of Alt.
pub const ALT_BIT: u8 = 4;

/// The set of modifier keys held during a key event, one bit per modifier
/// (Shift, Control, Alt, Super, Hyper, Meta, from the lowest bit up).
#[derive(Clone, Copy, Debug, PartialEq, Eq, Structural)]
pub struct KeyModifiers {
    pub bits: u8,
}

impl KeyModifiers {
    /// No modifier.
    pub fn none() -> (r: KeyModifiers)
        ensures
            r.bits == 0,
    {
        KeyModifiers { bits: 0 }
    }

    /// Control alone.
    pub fn control() -> (r: KeyModifiers)
        ensures
            r.bits == CONTROL_BIT,
    {
        KeyModifiers { bits: CONTROL_BIT }
    }

    /// Shift alone.
    pub fn shift() -> (r: KeyModifiers)
        ensures
            r.bits == SHIFT_BIT,
    {
        KeyModifiers { bits: SHIFT_BIT }
    }
}

/// Whether a key went down, repeats, or went up.
#[derive(Clone, Copy, Debug, PartialEq, Eq, Structural)]
pub enum KeyEventKind {
    Press,
    Repeat,
    Release,
}

/// Extra keyboard state of a key event (keypad, Caps Lock, Num Lock), as bits.
#[derive(Clone, Copy, Debug, PartialEq, Eq, Structural)]
pub struct KeyEventState {
    pub bits: u8,
}

/// A key event: the key, the modifiers held, its kind and the keyboard state.
///
/// Two key events are equal when they are equal after case normalisation
/// (see [`normalized`]): an ASCII capital and Shift go together, so that
/// `'K'`, `'K'` with Shift and `'k'` with Shift are the same key.
#[derive(Clone, Copy, Debug)]
pub struct KeyEvent {
    pub code: KeyCode,
    pub modifiers: KeyModifiers,
    pub kind: KeyEventKind,
    pub state: KeyEventState,
}

/// `bits` holds the Shift bit.
pub open spec fn has_shift(bits: u8) -> bool {
    bits % 2 == 1
}

/// `bits` with the Shift bit set.
pub open spec fn with_shift(bits: u8) -> u8 {
    if has_shift(bits) {
        bits
    } else {
        (bits + 1) as u8
    }
}

/// Case normalisation of a key event: a character key carries Shift exactly
/// when its character is an ASCII capital. An ASCII capital gains Shift; a
/// character held with Shift becomes its ASCII capital; any other event is
/// left as it is.
pub open spec fn normalized(e: KeyEvent) -> KeyEvent {
    match e.code {
        KeyCode::Char(c) => if crate::select::ascii::is_ascii_upper(c) {
            KeyEvent {
                code: e.code,
                modifiers: KeyModifiers { bits: with_shift(e.modifiers.bits) },
                kind: e.kind,
                state: e.state,
            }
        } else if has_shift(e.modifiers.bits) {
            KeyEvent {
                code: KeyCode::Char(crate::select::ascii::ascii_upper(c)),
                modifiers: e.modifiers,
                kind: e.kind,
                state: e.state,
            }
        } else {
            e
        },
        _ => e,
    }
}

/// Two key events are the same key.
pub open spec fn keys_equal(a: KeyEvent, b: KeyEvent) -> bool {
    normalized(a) == normalized(b)
}

/// Normalising twice is normalising once, so that equal key events have one
/// normal form.
pub proof fn lemma_normalized_idempotent(e: KeyEvent)
    ensures
        normalized(normalized(e)) == normalized(e),
{
    if let KeyCode::Char(c) = e.code {
        if !crate::select::ascii::is_ascii_upper(c) && has_shift(e.modifiers.bits) {
            let u = crate::select::ascii::ascii_upper(c);
            if 'a' <= c && c <= 'z' {
                assert(crate::select::ascii::is_ascii_upper(u));
            }
        }
    }
}

/// Normalisation only touches the character and the Shift bit: the kind, the
/// keyboard state and every modifier bit but Shift are kept, a key other than
/// a character is left whole, and the character keeps its case unless Shift
/// was held.
pub proof fn lemma_normalized_keeps(e: KeyEvent)
    ensures
        normalized(e).kind == e.kind,
        normalized(e).state == e.state,
        normalized(e).modifiers.bits / 2 == e.modifiers.bits / 2,
        !(e.code is Char) ==> normalized(e) == e,
        !has_shift(e.modifiers.bits) && !(e.code matches KeyCode::Char(c) && crate::select::ascii::is_ascii_upper(c))
            ==> normalized(e) == e,
{
}

/// Two key events are equal exactly when, after normalisation, they have the
/// same key, the same modifier bits, the same kind and the same keyboard
/// state; in particular events that differ in a modifier other than Shift
/// (Control, Alt, ...), in their kind or in their state are never equal.
pub proof fn lemma_keys_equal_fields(a: KeyEvent, b: KeyEvent)
    ensures
        keys_equal(a, b) <==> (normalized(a).code == normalized(b).code && normalized(a).modifiers.bits
            == normalized(b).modifiers.bits && normalized(a).kind == normalized(b).kind && normalized(
            a,
        ).state.bits == normalized(b).state.bits),
        a.modifiers.bits / 2 != b.modifiers.bits / 2 ==> !keys_equal(a, b),
        a.kind != b.kind ==> !keys_equal(a, b),
        a.state != b.state ==> !keys_equal(a, b),
{
    lemma_normalized_keeps(a);
    lemma_normalized_keeps(b);
}

impl KeyEvent {
    /// A key pressed with the given modifiers, with no extra keyboard state.
    pub fn new(code: KeyCode, modifiers: KeyModifiers) -> (r: KeyEvent)
        ensures
            r == (KeyEvent { code, modifiers, kind: KeyEventKind::Press, state: KeyEventState { bits: 0 } }),
    {
        KeyEvent { code, modifiers, kind: KeyEventKind::Press, state: KeyEventState { bits: 0 } }
    }

    /// The case normalisation of this event.
    pub fn normalize_case(&self) -> (r: KeyEvent)
        ensures
            r == normalized(*self),
    {
        match self.code {
            KeyCode::Char(c) => {
                if c.is_ascii_uppercase() {
                    let bits: u8 = if self.modifiers.bits % 2 == 1 {
                        self.modifiers.bits
                    } else {
                        self.modifiers.bits + 1
                    };
                    KeyEvent {
                        code: self.code,
                        modifiers: KeyModifiers { bits },
                        kind: self.kind,
                        state: self.state,
                    }
                } else if self.modifiers.bits % 2 == 1 {
                    KeyEvent {
                        code: KeyCode::Char(c.to_ascii_uppercase()),
                        modifiers: self.modifiers,
                        kind: self.kind,
                        state: self.state,
                    }
                } else {
                    *self
                }
            },
            _ => *self,
        }
    }
}

impl PartialEq for KeyEvent {
    fn eq(&self, other: &KeyEvent) -> (r: bool) {
        let a = self.normalize_case();
        let b = other.normalize_case();
        a.code == b.code && a.modifiers == b.modifiers && a.kind == b.kind && a.state == b.state
    }
}

impl vstd::std_specs::cmp::PartialEqSpecImpl for KeyEvent {
    open spec fn obeys_eq_spec() -> bool {
        true
    }

    open spec fn eq_spec(&self, other: &KeyEvent) -> bool {
        keys_equal(*self, *other)
    }
}

/// A terminal event.
#[derive(Clone, Copy, Debug)]
pub enum Event {
    /// The terminal gained focus.
    FocusGained,
    /// The terminal lost focus.
    FocusLost,
    /// A key event.
    Key(KeyEvent),
    /// A mouse event; the menu does not read its details.
    Mouse,
    /// Text pasted into the terminal; the menu does not read it.
    Paste,
    /// The terminal was resized to the given columns and rows.
    Resize(u16, u16),
}

/// Two events are the same: key events are compared as keys (see
/// [`keys_equal`]), any other events by their variant and data.
pub open spec fn events_equal(a: Event, b: Event) -> bool {
    match (a, b) {
        (Event::Key(x), Event::Key(y)) => keys_equal(x, y),
        (Event::FocusGained, Event::FocusGained) => true,
        (Event::FocusLost, Event::FocusLost) => true,
        (Event::Mouse, Event::Mouse) => true,
        (Event::Paste, Event::Paste) => true,
        (Event::Resize(c1, r1), Event::Resize(c2, r2)) => c1 == c2 && r1 == r2,
        _ => false,
    }
}

impl PartialEq for Event {
    fn eq(&self, other: &Event) -> (r: bool) {
        match (self, other) {
            (Event::Key(x), Event::Key(y)) => x == y,
            (Event::FocusGained, Event::FocusGained) => true,
            (Event::FocusLost, Event::FocusLost) => true,
            (Event::Mouse, Event::Mouse) => true,
            (Event::Paste, Event::Paste) => true,
            (Event::Resize(c1, r1), Event::Resize(c2, r2)) => *c1 == *c2 && *r1 == *r2,
            _ => false,
        }
    }
}

impl vstd::std_specs::cmp::PartialEqSpecImpl for Event {
    open spec fn obeys_eq_spec() -> bool {
        true
    }

    open spec fn eq_spec(&self, other: &Event) -> bool {
        events_equal(*self, *other)
    }
}

} // verus!
