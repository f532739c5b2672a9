use vstd::prelude::*;

use super::event::events_equal;
use super::event::Event;
use super::event::KeyCode;
use super::event::KeyEvent;
use super::event::KeyModifiers;

verus! {

/// What a key does to the menu.
#[derive(Clone, Copy, Debug, PartialEq, Eq, Structural)]
pub enum KeyAction {
    /// Moves the cursor one entry up.
    MoveCursorUp,
    /// Moves the cursor one entry down.
    MoveCursorDown,
    /// Ends the prompt with the entry under the cursor.
    Exit,
    /// Ends the prompt with no entry.
    Abort,
    /// Does nothing.
    Nope,
}

/// Index of the first binding in `s` whose event equals `e`, or `s.len()`
/// when there is none.
pub open spec fn match_index(s: Seq<(Event, KeyAction)>, e: Event) -> int
    decreases s.len(),
{
    if s.len() == 0 {
        0
    } else if events_equal(s[0].0, e) {
        0
    } else {
        1 + match_index(s.drop_first(), e)
    }
}

/// The action that the bindings `s` give to `e`, if any binding's event
/// equals `e`: the first such binding's.
pub open spec fn bound_action(s: Seq<(Event, KeyAction)>, e: Event) -> Option<KeyAction> {
    let i = match_index(s, e);
    if i < s.len() {
        Some(s[i].1)
    } else {
        None
    }
}

/// The bindings `s` after binding `e` to `a`: the first binding whose event
/// equals `e` keeps its event and takes `a`; when there is none, `(e, a)` is
/// appended.
pub open spec fn rebound(s: Seq<(Event, KeyAction)>, e: Event, a: KeyAction) -> Seq<(Event, KeyAction)> {
    let i = match_index(s, e);
    if i < s.len() {
        s.update(i, (s[i].0, a))
    } else {
        s.push((e, a))
    }
}

/// No two bindings of `s` are for the same event.
pub open spec fn distinct_events(s: Seq<(Event, KeyAction)>) -> bool {
    forall|i: int, j: int|
        0 <= i < s.len() && 0 <= j < s.len() && i != j ==> !events_equal(#[trigger] s[i].0, #[trigger] s[j].0)
}

/// `match_index` is `i` when no binding before `i` matches and `i` is the end
/// of `s` or a binding that matches.
pub proof fn lemma_match_index(s: Seq<(Event, KeyAction)>, e: Event, i: int)
    requires
        0 <= i <= s.len(),
        forall|j: int| 0 <= j < i ==> !events_equal(#[trigger] s[j].0, e),
        i == s.len() || events_equal(s[i].0, e),
    ensures
        match_index(s, e) == i,
    decreases s.len(),
{
    if s.len() > 0 && i > 0 {
        assert(!events_equal(s[0].0, e));
        let t = s.drop_first();
        assert forall|j: int| 0 <= j < i - 1 implies !events_equal(#[trigger] t[j].0, e) by {
            assert(t[j] == s[j + 1]);
        }
        if i < s.len() {
            assert(t[i - 1] == s[i]);
        }
        lemma_match_index(t, e, i - 1);
    }
}

/// A key press of `code` with the modifier bits `bits` and no extra state.
pub open spec fn press(code: KeyCode, bits: u8) -> Event {
    Event::Key(
        KeyEvent {
            code,
            modifiers: KeyModifiers { bits },
            kind: super::event::KeyEventKind::Press,
            state: super::event::KeyEventState { bits: 0 },
        },
    )
}

/// The bindings of the default menu keys: `k` moves up, `j` moves down, Enter
/// selects, `q` and Control-`c` abort.
pub open spec fn default_bindings() -> Seq<(Event, KeyAction)> {
    seq![
        (press(KeyCode::Char('k'), 0), KeyAction::MoveCursorUp),
        (press(KeyCode::Char('j'), 0), KeyAction::MoveCursorDown),
        (press(KeyCode::Enter, 0), KeyAction::Exit),
        (press(KeyCode::Char('q'), 0), KeyAction::Abort),
        (press(KeyCode::Char('c'), super::event::CONTROL_BIT), KeyAction::Abort),
    ]
}

/// Event equality is an equivalence.
pub proof fn lemma_events_equal_equivalence(a: Event, b: Event, c: Event)
    ensures
        events_equal(a, a),
        events_equal(a, b) ==> events_equal(b, a),
        events_equal(a, b) && events_equal(b, c) ==> events_equal(a, c),
{
}

/// Equal events find the same binding.
pub proof fn lemma_match_index_equal_events(s: Seq<(Event, KeyAction)>, e1: Event, e2: Event)
    requires
        events_equal(e1, e2),
    ensures
        match_index(s, e1) == match_index(s, e2),
        0 <= match_index(s, e1) <= s.len(),
    decreases s.len(),
{
    if s.len() > 0 {
        lemma_events_equal_equivalence(s[0].0, e1, e2);
        lemma_events_equal_equivalence(s[0].0, e2, e1);
        lemma_match_index_equal_events(s.drop_first(), e1, e2);
    }
}

/// `match_index` is at most the length of the bindings, no binding before it
/// matches, and the binding at it, if any, does.
pub proof fn lemma_match_index_bounds(s: Seq<(Event, KeyAction)>, e: Event)
    ensures
        0 <= match_index(s, e) <= s.len(),
        forall|j: int| 0 <= j < match_index(s, e) ==> !events_equal(#[trigger] s[j].0, e),
        match_index(s, e) < s.len() ==> events_equal(s[match_index(s, e)].0, e),
    decreases s.len(),
{
    if s.len() > 0 && !events_equal(s[0].0, e) {
        let t = s.drop_first();
        lemma_match_index_bounds(t, e);
        assert forall|j: int| 0 <= j < match_index(s, e) implies !events_equal(#[trigger] s[j].0, e) by {
            if j > 0 {
                assert(s[j] == t[j - 1]);
            }
        }
    }
}

/// A binding holds: after `e` is bound to `a`, every event equal to `e` gets
/// `a`.
pub proof fn lemma_bind_then_lookup(s: Seq<(Event, KeyAction)>, e: Event, a: KeyAction, e2: Event)
    requires
        events_equal(e, e2),
    ensures
        bound_action(rebound(s, e, a), e2) == Some(a),
{
    let i = match_index(s, e);
    let t = rebound(s, e, a);
    lemma_match_index_bounds(s, e);
    lemma_match_index_equal_events(s, e, e2);
    lemma_events_equal_equivalence(e, e2, e2);
    if i < s.len() {
        lemma_events_equal_equivalence(s[i].0, e, e2);
        assert forall|j: int| 0 <= j < i implies !events_equal(#[trigger] t[j].0, e2) by {
            assert(t[j] == s[j]);
            lemma_events_equal_equivalence(s[j].0, e, e2);
            lemma_events_equal_equivalence(e, e2, s[j].0);
            lemma_events_equal_equivalence(s[j].0, e2, e);
        }
        lemma_match_index(t, e2, i);
    } else {
        assert forall|j: int| 0 <= j < i implies !events_equal(#[trigger] t[j].0, e2) by {
            assert(t[j] == s[j]);
            lemma_events_equal_equivalence(s[j].0, e2, e);
            lemma_events_equal_equivalence(e2, e, e);
        }
        lemma_match_index(t, e2, i);
    }
}

/// Binding `e` leaves the action of every event not equal to `e` as it was.
pub proof fn lemma_bind_keeps_others(s: Seq<(Event, KeyAction)>, e: Event, a: KeyAction, e2: Event)
    requires
        !events_equal(e, e2),
    ensures
        bound_action(rebound(s, e, a), e2) == bound_action(s, e2),
{
    let i = match_index(s, e);
    let k = match_index(s, e2);
    let t = rebound(s, e, a);
    lemma_match_index_bounds(s, e);
    lemma_match_index_bounds(s, e2);
    assert forall|j: int| 0 <= j < k implies !events_equal(#[trigger] t[j].0, e2) by {
        assert(t[j].0 == s[j].0);
    }
    if k < s.len() {
        assert(t[k].0 == s[k].0);
        if k == i {
            lemma_events_equal_equivalence(s[i].0, e, e2);
            lemma_events_equal_equivalence(e, s[i].0, e2);
        }
        lemma_match_index(t, e2, k);
    } else if i < s.len() {
        lemma_match_index(t, e2, k);
    } else {
        lemma_events_equal_equivalence(e, e2, e2);
        assert(!events_equal(t[k].0, e2));
        lemma_match_index(t, e2, t.len() as int);
    }
}

/// Binding keeps the events of the table distinct.
pub proof fn lemma_bind_keeps_distinct(s: Seq<(Event, KeyAction)>, e: Event, a: KeyAction)
    requires
        distinct_events(s),
    ensures
        distinct_events(rebound(s, e, a)),
{
    let i = match_index(s, e);
    let t = rebound(s, e, a);
    lemma_match_index_bounds(s, e);
    if i >= s.len() {
        assert forall|p: int, q: int|
            0 <= p < t.len() && 0 <= q < t.len() && p != q implies !events_equal(#[trigger] t[p].0, #[trigger] t[q].0) by {
            if p == s.len() {
                assert(!events_equal(s[q].0, e));
                lemma_events_equal_equivalence(e, s[q].0, e);
            } else if q == s.len() {
                assert(!events_equal(s[p].0, e));
            } else {
                assert(t[p] == s[p] && t[q] == s[q]);
            }
        }
    } else {
        assert forall|p: int, q: int|
            0 <= p < t.len() && 0 <= q < t.len() && p != q implies !events_equal(#[trigger] t[p].0, #[trigger] t[q].0) by {
            assert(t[p].0 == s[p].0 && t[q].0 == s[q].0);
        }
    }
}

/// The default keys bind exactly five events, each a press with no keyboard
/// state: `k` (no modifier) moves up, `j` (no modifier) moves down, Enter (no
/// modifier) exits, `q` (no modifier) and `c` with Control alone abort; every
/// other event is unbound, so it gets the default action of the table.
pub proof fn lemma_default_bindings_exact(keys: Keys, e: Event)
    requires
        keys.bindings() == default_bindings(),
    ensures
        ({
            let k = Event::Key(KeyEvent { code: KeyCode::Char('k'), modifiers: KeyModifiers { bits: 0 },
                kind: super::event::KeyEventKind::Press, state: super::event::KeyEventState { bits: 0 } });
            let j = Event::Key(KeyEvent { code: KeyCode::Char('j'), modifiers: KeyModifiers { bits: 0 },
                kind: super::event::KeyEventKind::Press, state: super::event::KeyEventState { bits: 0 } });
            let enter = Event::Key(KeyEvent { code: KeyCode::Enter, modifiers: KeyModifiers { bits: 0 },
                kind: super::event::KeyEventKind::Press, state: super::event::KeyEventState { bits: 0 } });
            let q = Event::Key(KeyEvent { code: KeyCode::Char('q'), modifiers: KeyModifiers { bits: 0 },
                kind: super::event::KeyEventKind::Press, state: super::event::KeyEventState { bits: 0 } });
            let ctrl_c = Event::Key(KeyEvent { code: KeyCode::Char('c'), modifiers: KeyModifiers { bits: 2 },
                kind: super::event::KeyEventKind::Press, state: super::event::KeyEventState { bits: 0 } });
            &&& events_equal(k, e) ==> keys.action_for(e) == Some(KeyAction::MoveCursorUp)
            &&& events_equal(j, e) ==> keys.action_for(e) == Some(KeyAction::MoveCursorDown)
            &&& events_equal(enter, e) ==> keys.action_for(e) == Some(KeyAction::Exit)
            &&& events_equal(q, e) ==> keys.action_for(e) == Some(KeyAction::Abort)
            &&& events_equal(ctrl_c, e) ==> keys.action_for(e) == Some(KeyAction::Abort)
            &&& !events_equal(k, e) && !events_equal(j, e) && !events_equal(enter, e) && !events_equal(q, e)
                && !events_equal(ctrl_c, e) ==> bound_action(keys.bindings(), e) is None
                && keys.action_for(e) == keys.default_action()
        }),
{
    reveal_with_fuel(match_index, 6);
    let s = default_bindings();
    assert(s.len() == 5);
    let e0 = s[0].0;
    let e1 = s[1].0;
    let e2 = s[2].0;
    let e3 = s[3].0;
    let e4 = s[4].0;
    lemma_events_equal_equivalence(e0, e, e1);
    lemma_events_equal_equivalence(e0, e, e2);
    lemma_events_equal_equivalence(e0, e, e3);
    lemma_events_equal_equivalence(e0, e, e4);
    lemma_events_equal_equivalence(e1, e, e2);
    lemma_events_equal_equivalence(e1, e, e3);
    lemma_events_equal_equivalence(e1, e, e4);
    lemma_events_equal_equivalence(e2, e, e3);
    lemma_events_equal_equivalence(e2, e, e4);
    lemma_events_equal_equivalence(e3, e, e4);
    lemma_events_equal_equivalence(e1, e, e0);
    lemma_events_equal_equivalence(e2, e, e0);
    lemma_events_equal_equivalence(e3, e, e0);
    lemma_events_equal_equivalence(e4, e, e0);
    lemma_events_equal_equivalence(e2, e, e1);
    lemma_events_equal_equivalence(e3, e, e1);
    lemma_events_equal_equivalence(e4, e, e1);
    lemma_events_equal_equivalence(e3, e, e2);
    lemma_events_equal_equivalence(e4, e, e2);
    lemma_events_equal_equivalence(e4, e, e3);
}

/// A lookup of key events, as a menu does it.
pub trait KeysTrait {
    /// The action for `event`, if there is one.
    fn get_key_action(&self, event: &Event) -> Option<KeyAction>;
}

/// The key bindings of a menu: a table from events to actions, and the action
/// for events that the table does not hold, if any.
pub struct Keys {
    bindings: Vec<(Event, KeyAction)>,
    default: Option<KeyAction>,
}

impl Keys {
    /// No two bindings are for the same event.
    #[verifier::type_invariant]
    spec fn distinct(self) -> bool {
        distinct_events(self.bindings@)
    }

    /// The table, in order.
    pub closed spec fn bindings(&self) -> Seq<(Event, KeyAction)> {
        self.bindings@
    }

    /// The action for events that the table does not hold.
    pub closed spec fn default_action(&self) -> Option<KeyAction> {
        self.default
    }

    /// The action that these bindings give to `e`.
    pub open spec fn action_for(&self, e: Event) -> Option<KeyAction> {
        match bound_action(self.bindings(), e) {
            Some(a) => Some(a),
            None => self.default_action(),
        }
    }

    /// No bindings and no default action.
    pub fn new() -> (r: Keys)
        ensures
            r.bindings() == Seq::<(Event, KeyAction)>::empty(),
            r.default_action() == None::<KeyAction>,
            distinct_events(r.bindings()),
    {
        Keys { bindings: Vec::new(), default: None }
    }

    /// Index of the first binding whose event equals `event`, or the number of
    /// bindings when there is none.
    fn find(&self, event: &Event) -> (r: usize)
        ensures
            r == match_index(self.bindings(), *event),
            r <= self.bindings().len(),
    {
        let n = self.bindings.len();
        let mut i: usize = 0;
        while i < n
            invariant
                n == self.bindings@.len(),
                0 <= i <= n,
                forall|j: int| 0 <= j < i ==> !events_equal(#[trigger] self.bindings@[j].0, *event),
            decreases n - i,
        {
            if self.bindings[i].0 == *event {
                proof {
                    lemma_match_index(self.bindings@, *event, i as int);
                }
                return i;
            }
            i = i + 1;
        }
        proof {
            lemma_match_index(self.bindings@, *event, n as int);
        }
        n
    }

    /// Binds `event` to `action`, and returns the action that `event` had in
    /// the table before, if any. A binding for an equal event keeps its event
    /// and takes the new action; otherwise the binding is added at the end.
    pub fn bind(&mut self, event: Event, action: KeyAction) -> (r: Option<KeyAction>)
        ensures
            r == bound_action(old(self).bindings(), event),
            final(self).bindings() == rebound(old(self).bindings(), event, action),
            final(self).default_action() == old(self).default_action(),
            distinct_events(final(self).bindings()),
    {
        proof {
            use_type_invariant(&*self);
            lemma_bind_keeps_distinct(self.bindings@, event, action);
        }
        let i = self.find(&event);
        let mut bindings: Vec<(Event, KeyAction)> = Vec::new();
        std::mem::swap(&mut bindings, &mut self.bindings);
        let r = if i < bindings.len() {
            let old_binding = bindings[i];
            bindings.set(i, (old_binding.0, action));
            Some(old_binding.1)
        } else {
            bindings.push((event, action));
            None
        };
        self.bindings = bindings;
        r
    }

    /// The default menu keys (see [`default_bindings`]), with no action for
    /// other events.
    pub fn default_keys() -> (r: Keys)
        ensures
            r.bindings() == default_bindings(),
            r.default_action() == None::<KeyAction>,
            distinct_events(r.bindings()),
    {
        let mut keys = Keys::new();
        proof {
            reveal_with_fuel(match_index, 6);
        }
        let key = Event::Key(KeyEvent::new(KeyCode::Char('k'), KeyModifiers::none()));
        let prev = keys.bind(key, KeyAction::MoveCursorUp);
        assert(prev is None);
        let key = Event::Key(KeyEvent::new(KeyCode::Char('j'), KeyModifiers::none()));
        let prev = keys.bind(key, KeyAction::MoveCursorDown);
        assert(prev is None);
        let key = Event::Key(KeyEvent::new(KeyCode::Enter, KeyModifiers::none()));
        let prev = keys.bind(key, KeyAction::Exit);
        assert(prev is None);
        let key = Event::Key(KeyEvent::new(KeyCode::Char('q'), KeyModifiers::none()));
        let prev = keys.bind(key, KeyAction::Abort);
        assert(prev is None);
        let key = Event::Key(KeyEvent::new(KeyCode::Char('c'), KeyModifiers::control()));
        let prev = keys.bind(key, KeyAction::Abort);
        assert(prev is None);
        assert(keys.bindings() =~= default_bindings());
        keys
    }

    /// Makes unbound events abort the prompt; returns whether unbound events
    /// had an action before.
    pub fn set_default(&mut self) -> (r: bool)
        ensures
            r == old(self).default_action() is Some,
            final(self).default_action() == Some(KeyAction::Abort),
            final(self).bindings() == old(self).bindings(),
            distinct_events(final(self).bindings()),
    {
        proof {
            use_type_invariant(&*self);
        }
        let holder = match self.default {
            Some(_) => true,
            None => false,
        };
        self.default = Some(KeyAction::Abort);
        holder
    }

    /// Makes unbound events do nothing; returns whether unbound events had an
    /// action before.
    pub fn ignore_extra_keys(&mut self) -> (r: bool)
        ensures
            r == old(self).default_action() is Some,
            final(self).default_action() == Some(KeyAction::Nope),
            final(self).bindings() == old(self).bindings(),
            distinct_events(final(self).bindings()),
    {
        proof {
            use_type_invariant(&*self);
        }
        let holder = match self.default {
            Some(_) => true,
            None => false,
        };
        self.default = Some(KeyAction::Nope);
        holder
    }
}

impl Keys {
    /// A bound event gets its binding's action whatever the default; an
    /// unbound event gets the default action (none, abort after
    /// `set_default`, nothing after `ignore_extra_keys`).
    pub proof fn lemma_table_before_default(&self, e: Event)
        ensures
            bound_action(self.bindings(), e) matches Some(a) ==> self.action_for(e) == Some(a),
            bound_action(self.bindings(), e) is None ==> self.action_for(e) == self.default_action(),
    {
    }
}

impl KeysTrait for Keys {
    /// The action of the first binding for `event`, or else the default action.
    fn get_key_action(&self, event: &Event) -> (r: Option<KeyAction>)
        ensures
            r == self.action_for(*event),
            distinct_events(self.bindings()),
    {
        proof {
            use_type_invariant(self);
        }
        let i = self.find(event);
        if i < self.bindings.len() {
            Some(self.bindings[i].1)
        } else {
            self.default
        }
    }
}

} // verus!
