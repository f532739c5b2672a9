use vstd::prelude::*;

use super::keys::KeyAction;
use super::keys::Keys;
use super::Configs;
use super::Fields;
use super::Point2;
use super::RawConfigs;
use super::RawSelect;
use super::SelErr;
use super::SelOk;
use super::SelResult;

verus! {

/// How the start of a line of the menu is drawn.
#[derive(Clone, Copy, Debug, PartialEq, Eq, Structural)]
pub enum LineMarker {
    /// The line shows the entry under the cursor.
    Selected,
    /// A plain line.
    Empty,
    /// The first line, when entries are hidden above the window.
    Top,
    /// The last line, when entries are hidden below the window.
    Bottom,
}

/// What one line of the menu shows: its marker and, if any, the index of the
/// entry printed on it.
#[derive(Clone, Copy, Debug, PartialEq, Eq, Structural)]
pub struct LineLayout {
    pub marker: LineMarker,
    pub entry: Option<usize>,
}

/// Index of the first entry shown by a window of `menu` lines over `len`
/// entries with the cursor on entry `index`: the cursor is kept on the middle
/// line (`menu / 2`), unless that would start the window before the first
/// entry or end it after the last one.
pub open spec fn window_start(index: int, menu: int, len: int) -> int {
    let ideal = index - menu / 2;
    let last_start = if len > menu { len - menu } else { 0 };
    if ideal < 0 {
        0
    } else if ideal > last_start {
        last_start
    } else {
        ideal
    }
}

/// The marker of line `line` of the window.
pub open spec fn marker_spec(line: int, menu: int, index: int, len: int) -> LineMarker {
    let start = window_start(index, menu, len);
    if line == index - start {
        LineMarker::Selected
    } else if line == 0 && start > 0 {
        LineMarker::Top
    } else if line == menu - 1 && start + menu < len {
        LineMarker::Bottom
    } else {
        LineMarker::Empty
    }
}

/// The entry shown on line `line` of the window, if the list reaches it.
pub open spec fn entry_spec(line: int, menu: int, index: int, len: int) -> Option<usize> {
    let start = window_start(index, menu, len);
    if start + line < len {
        Some((start + line) as usize)
    } else {
        None
    }
}

/// The full layout of line `line`.
pub open spec fn layout_spec(line: int, menu: int, index: int, len: int) -> LineLayout {
    LineLayout { marker: marker_spec(line, menu, index, len), entry: entry_spec(line, menu, index, len) }
}

/// The text drawn at the start of a line with this marker.
pub open spec fn marker_text(m: LineMarker) -> Seq<char> {
    match m {
        LineMarker::Selected => seq![' ', '>', ' '],
        LineMarker::Empty => seq![' ', ' ', ' '],
        LineMarker::Top => seq![' ', '^', ' '],
        LineMarker::Bottom => seq![' ', 'v', ' '],
    }
}

/// The text drawn at the start of a line with this marker when the arrows
/// are the Unicode ones.
pub open spec fn unicode_marker_text(m: LineMarker) -> Seq<char> {
    match m {
        LineMarker::Top => seq![' ', '\u{2191}', ' '],
        LineMarker::Bottom => seq![' ', '\u{2193}', ' '],
        _ => marker_text(m),
    }
}

impl LineMarker {
    /// The text drawn at the start of a line with this marker, with the
    /// Unicode arrows.
    pub fn unicode_text(&self) -> (r: &'static str)
        ensures
            r@ == unicode_marker_text(*self),
    {
        match self {
            LineMarker::Top => {
                proof {
                    reveal_strlit(" \u{2191} ");
                }
                " \u{2191} "
            },
            LineMarker::Bottom => {
                proof {
                    reveal_strlit(" \u{2193} ");
                }
                " \u{2193} "
            },
            _ => self.text(),
        }
    }

    /// The text drawn at the start of a line with this marker.
    pub fn text(&self) -> (r: &'static str)
        ensures
            r@ == marker_text(*self),
    {
        match self {
            LineMarker::Selected => {
                proof {
                    reveal_strlit(" > ");
                }
                " > "
            },
            LineMarker::Empty => {
                proof {
                    reveal_strlit("   ");
                }
                "   "
            },
            LineMarker::Top => {
                proof {
                    reveal_strlit(" ^ ");
                }
                " ^ "
            },
            LineMarker::Bottom => {
                proof {
                    reveal_strlit(" v ");
                }
                " v "
            },
        }
    }
}

/// The cursor after `action` on a list of `len` entries: up and down move it
/// by one entry and stop at the first and last entries; other actions leave
/// it.
pub open spec fn cursor_after(action: KeyAction, len: usize, cursor: usize) -> usize {
    match action {
        KeyAction::MoveCursorUp => if cursor > 0 {
            (cursor - 1) as usize
        } else {
            cursor
        },
        KeyAction::MoveCursorDown => if cursor + 1 < len {
            (cursor + 1) as usize
        } else {
            cursor
        },
        _ => cursor,
    }
}

/// What `action` tells the prompt.
pub open spec fn action_outcome(action: KeyAction) -> SelOk {
    match action {
        KeyAction::Exit => SelOk::Exit,
        KeyAction::Abort => SelOk::Abort,
        _ => SelOk::Proceed,
    }
}

impl KeyAction {
    /// Runs this action on a list of `len` entries with the cursor at
    /// `cursor`.
    pub fn run(&self, len: usize, cursor: &mut usize) -> (r: SelOk)
        ensures
            r == action_outcome(*self),
            *final(cursor) == cursor_after(*self, len, *old(cursor)),
    {
        match self {
            KeyAction::MoveCursorUp => {
                if *cursor > 0 {
                    *cursor = *cursor - 1;
                }
                SelOk::Proceed
            },
            KeyAction::MoveCursorDown => {
                if *cursor < len && *cursor + 1 < len {
                    *cursor = *cursor + 1;
                }
                SelOk::Proceed
            },
            KeyAction::Exit => SelOk::Exit,
            KeyAction::Abort => SelOk::Abort,
            KeyAction::Nope => SelOk::Proceed,
        }
    }
}

/// What the prompt does after reading a key.
#[derive(Clone, Copy, Debug, PartialEq, Eq, Structural)]
pub enum PromptAction {
    /// Draw the menu again and read the next key.
    Redraw,
    /// Read the next key.
    Wait,
    /// End the prompt with this entry, or with none.
    Finish(Option<usize>),
}

/// What the prompt does with the outcome `r` of a key, the cursor being at
/// `cursor` after it: an action that goes on redraws, an exit ends with the
/// cursor's entry, an abort or a failed read ends with none, and a key with
/// no action ends with none or is ignored, as `exit_on_new_key` says.
pub open spec fn next_action(exit_on_new_key: bool, r: SelResult<SelOk, SelErr<()>>, cursor: usize) -> PromptAction {
    match r {
        SelResult::Success(SelOk::Proceed) => PromptAction::Redraw,
        SelResult::Success(SelOk::Exit) => PromptAction::Finish(Some(cursor)),
        SelResult::Success(SelOk::Abort) => PromptAction::Finish(None),
        SelResult::Failure(_) => PromptAction::Finish(None),
        SelResult::KeyNotFound => if exit_on_new_key {
            PromptAction::Finish(None)
        } else {
            PromptAction::Wait
        },
    }
}

/// The outcome of reading `input` with the bindings `keys`, on a list of `len`
/// entries with the cursor at `cursor`, and the cursor after it.
pub open spec fn read_outcome(keys: Keys, len: usize, cursor: usize, input: Result<super::event::Event, std::io::Error>) -> (SelResult<SelOk, SelErr<()>>, usize) {
    match input {
        Err(e) => (SelResult::Failure(SelErr::BaseErr(e)), cursor),
        Ok(ev) => match keys.action_for(ev) {
            Some(a) => (SelResult::Success(action_outcome(a)), cursor_after(a, len, cursor)),
            None => (SelResult::KeyNotFound, cursor),
        },
    }
}

/// The cursor's entry is always on screen: for a non-empty list, the line
/// `index - window_start(..)` lies in the window, is marked selected, and
/// shows entry `index`.
pub proof fn lemma_cursor_on_screen(menu: int, index: int, len: int)
    requires
        len <= usize::MAX,
        1 <= menu,
        0 <= index < len,
    ensures
        0 <= index - window_start(index, menu, len) < menu,
        marker_spec(index - window_start(index, menu, len), menu, index, len) == LineMarker::Selected,
        entry_spec(index - window_start(index, menu, len), menu, index, len) == Some(index as usize),
{
}

/// Where the window stands: at the top of the list while the cursor is in
/// the first half of the menu or the whole list fits; at the bottom of the
/// list once the cursor is within half a menu of its end; in between, with
/// the cursor on the middle line `menu / 2`.
pub proof fn lemma_window_position(menu: int, index: int, len: int)
    requires
        1 <= menu,
        0 <= index <= len,
    ensures
        index <= menu / 2 || len <= menu ==> window_start(index, menu, len) == 0,
        len >= menu && index - menu / 2 + menu >= len ==> window_start(index, menu, len) == len - menu,
        menu / 2 <= index && index - menu / 2 + menu <= len ==> window_start(index, menu, len) == index - menu
            / 2 && index - window_start(index, menu, len) == menu / 2,
{
}

/// A line is marked selected exactly when it shows the cursor's entry.
pub proof fn lemma_selected_iff_cursor_entry(line: int, menu: int, index: int, len: int)
    requires
        len <= usize::MAX,
        0 <= line < menu,
        0 <= index < len,
    ensures
        (marker_spec(line, menu, index, len) == LineMarker::Selected) <==> (entry_spec(line, menu, index, len)
            == Some(index as usize)),
{
}

/// The window never runs past the list: line `line` shows an entry exactly
/// when the list has more than `line` entries, so a list at least as long
/// as the menu fills every line.
pub proof fn lemma_entries_shown(line: int, menu: int, index: int, len: int)
    requires
        len <= usize::MAX,
        0 <= line < menu,
        0 <= index <= len,
    ensures
        entry_spec(line, menu, index, len) is Some <==> line < len,
{
}

/// The window is contiguous: lines further down show entries further down,
/// by as many entries as lines.
pub proof fn lemma_window_contiguous(l1: int, l2: int, menu: int, index: int, len: int)
    requires
        len <= usize::MAX,
        0 <= l1 <= l2 < menu,
        0 <= index <= len,
        entry_spec(l2, menu, index, len) is Some,
    ensures
        entry_spec(l1, menu, index, len) is Some,
        entry_spec(l2, menu, index, len)->0 - entry_spec(l1, menu, index, len)->0 == l2 - l1,
{
}

/// The up arrow marks the first line exactly when entries are hidden above
/// the window and the cursor is not on that line; the down arrow marks the
/// last line exactly when entries are hidden below and the cursor is not on
/// it; no other line carries an arrow.
pub proof fn lemma_arrows(line: int, menu: int, index: int, len: int)
    requires
        len <= usize::MAX,
        2 <= menu,
        0 <= line < menu,
        0 <= index < len,
    ensures
        (marker_spec(line, menu, index, len) == LineMarker::Top) <==> (line == 0
            && entry_spec(0, menu, index, len)->0 > 0 && entry_spec(line, menu, index, len) != Some(
            index as usize,
        )),
        (marker_spec(line, menu, index, len) == LineMarker::Bottom) <==> (line == menu - 1 && menu < len
            && entry_spec(menu - 1, menu, index, len)->0 + 1 < len && entry_spec(line, menu, index, len)
            != Some(index as usize)),
{
    lemma_entries_shown(0, menu, index, len);
}

/// A list that fits in the menu never scrolls and shows no arrow.
pub proof fn lemma_short_list(line: int, menu: int, index: int, len: int)
    requires
        0 <= line < menu,
        0 <= index <= len,
        len <= menu,
    ensures
        window_start(index, menu, len) == 0,
        marker_spec(line, menu, index, len) != LineMarker::Top,
        marker_spec(line, menu, index, len) != LineMarker::Bottom,
{
}

/// Scrolling is smooth: moving the cursor one entry down moves the window
/// down by at most one line, and never up.
pub proof fn lemma_smooth_scroll(menu: int, index: int, len: int)
    requires
        0 <= menu,
    ensures
        0 <= window_start(index + 1, menu, len) - window_start(index, menu, len) <= 1,
{
}

/// Every marker is three characters wide, with either set of arrows, so the
/// entries line up; the arrow markers hold the arrow symbols between blanks.
pub proof fn lemma_marker_width(m: LineMarker)
    ensures
        marker_text(m).len() == 3,
        marker_text(LineMarker::Top) == seq![' '] + crate::compat::UP_ARROW@ + seq![' '],
        marker_text(LineMarker::Bottom) == seq![' '] + crate::compat::DOWN_ARROW@ + seq![' '],
        unicode_marker_text(m).len() == 3,
        unicode_marker_text(LineMarker::Top) == seq![' '] + crate::compat::UNICODE_UP_ARROW@ + seq![' '],
        unicode_marker_text(LineMarker::Bottom) == seq![' '] + crate::compat::UNICODE_DOWN_ARROW@ + seq![' '],
{
    reveal_strlit("^");
    reveal_strlit("v");
    reveal_strlit("\u{2191}");
    reveal_strlit("\u{2193}");
    assert(unicode_marker_text(LineMarker::Top) =~= seq![' '] + crate::compat::UNICODE_UP_ARROW@ + seq![' ']);
    assert(unicode_marker_text(LineMarker::Bottom) =~= seq![' '] + crate::compat::UNICODE_DOWN_ARROW@ + seq![' ']);
    assert(marker_text(LineMarker::Top) =~= seq![' '] + crate::compat::UP_ARROW@ + seq![' ']);
    assert(marker_text(LineMarker::Bottom) =~= seq![' '] + crate::compat::DOWN_ARROW@ + seq![' ']);
}

/// An action keeps the cursor on the list.
pub proof fn lemma_cursor_stays_in_list(action: KeyAction, len: usize, cursor: usize)
    requires
        cursor < len,
    ensures
        cursor_after(action, len, cursor) < len,
{
}

/// Up undoes down and down undoes up, away from the ends of the list.
pub proof fn lemma_up_down_inverse(len: usize, cursor: usize)
    ensures
        0 < cursor < len ==> cursor_after(
            KeyAction::MoveCursorDown,
            len,
            cursor_after(KeyAction::MoveCursorUp, len, cursor),
        ) == cursor,
        cursor + 1 < len ==> cursor_after(
            KeyAction::MoveCursorUp,
            len,
            cursor_after(KeyAction::MoveCursorDown, len, cursor),
        ) == cursor,
{
}

/// A prompt that ends with an entry ends with the cursor's entry, which lies
/// in the list when the cursor did.
pub proof fn lemma_finish_in_list(
    exit_on_new_key: bool,
    keys: Keys,
    len: usize,
    cursor: usize,
    input: Result<super::event::Event, std::io::Error>,
)
    requires
        cursor < len,
    ensures
        ({
            let (r, c) = read_outcome(keys, len, cursor, input);
            &&& c < len
            &&& next_action(exit_on_new_key, r, c) matches PromptAction::Finish(Some(i)) ==> i == c && i < len
        }),
{
    match input {
        Ok(ev) => match keys.action_for(ev) {
            Some(a) => lemma_cursor_stays_in_list(a, len, cursor),
            None => {},
        },
        Err(_) => {},
    }
}

/// How the prompt answers a key bound to an action, whatever
/// `exit_on_new_key` says: the action always runs and succeeds; Enter's exit
/// ends the prompt with the entry under the cursor, whichever it is (the
/// first one too); an abort ends it with no entry; up and down move the
/// cursor by one entry within the list, or leave it at the end it reached,
/// and the menu is drawn again; doing nothing also redraws.
pub proof fn lemma_bound_key_outcome(
    exit_on_new_key: bool,
    keys: Keys,
    len: usize,
    cursor: usize,
    ev: super::event::Event,
    a: KeyAction,
)
    requires
        keys.action_for(ev) == Some(a),
    ensures
        ({
            let (r, c) = read_outcome(keys, len, cursor, Ok(ev));
            let next = next_action(exit_on_new_key, r, c);
            &&& r is Success
            &&& a == KeyAction::Exit ==> r == SelResult::<SelOk, SelErr<()>>::Success(SelOk::Exit) && c == cursor
                && next == PromptAction::Finish(Some(cursor))
            &&& a == KeyAction::Abort ==> r == SelResult::<SelOk, SelErr<()>>::Success(SelOk::Abort) && c
                == cursor && next == PromptAction::Finish(None)
            &&& a == KeyAction::MoveCursorUp ==> r == SelResult::<SelOk, SelErr<()>>::Success(SelOk::Proceed)
                && c == (if cursor > 0 { cursor - 1 } else { cursor as int }) && next == PromptAction::Redraw
            &&& a == KeyAction::MoveCursorDown ==> r == SelResult::<SelOk, SelErr<()>>::Success(
                SelOk::Proceed,
            ) && c == (if cursor + 1 < len { cursor + 1 } else { cursor as int }) && next
                == PromptAction::Redraw
            &&& a == KeyAction::Nope ==> r == SelResult::<SelOk, SelErr<()>>::Success(SelOk::Proceed) && c
                == cursor && next == PromptAction::Redraw
        }),
{
}

/// How the prompt answers a key with no action: the cursor stays, and the
/// prompt ends with no entry or waits for the next key, as `exit_on_new_key`
/// says; a failed read ends the prompt with no entry.
pub proof fn lemma_unbound_key_and_error_outcome(
    exit_on_new_key: bool,
    keys: Keys,
    len: usize,
    cursor: usize,
    ev: super::event::Event,
    err: std::io::Error,
)
    ensures
        keys.action_for(ev) is None ==> ({
            let (r, c) = read_outcome(keys, len, cursor, Ok(ev));
            &&& r is KeyNotFound
            &&& c == cursor
            &&& next_action(exit_on_new_key, r, c) == (if exit_on_new_key {
                PromptAction::Finish(None)
            } else {
                PromptAction::Wait
            })
        }),
        ({
            let (r, c) = read_outcome(keys, len, cursor, Err(err));
            &&& r is Failure
            &&& c == cursor
            &&& next_action(exit_on_new_key, r, c) == PromptAction::Finish(None)
        }),
{
}

/// The prompt with the default keys: `k` and `j` move the cursor and redraw,
/// Enter ends with the entry under the cursor (whichever it is), `q` and
/// Control-`c` end with no entry whatever `exit_on_new_key` says; every
/// other key is one with no action.
pub proof fn lemma_default_prompt(exit_on_new_key: bool, keys: Keys, len: usize, cursor: usize, ev: super::event::Event)
    requires
        keys.bindings() == super::keys::default_bindings(),
        keys.default_action() == None::<KeyAction>,
    ensures
        ({
            let (r, c) = read_outcome(keys, len, cursor, Ok(ev));
            let next = next_action(exit_on_new_key, r, c);
            let press = |code: super::event::KeyCode, bits: u8|
                super::event::Event::Key(
                    super::event::KeyEvent {
                        code,
                        modifiers: super::event::KeyModifiers { bits },
                        kind: super::event::KeyEventKind::Press,
                        state: super::event::KeyEventState { bits: 0 },
                    },
                );
            &&& super::event::events_equal(press(super::event::KeyCode::Enter, 0), ev) ==> c == cursor && next
                == PromptAction::Finish(Some(cursor))
            &&& super::event::events_equal(press(super::event::KeyCode::Char('q'), 0), ev) ==> next
                == PromptAction::Finish(None)
            &&& super::event::events_equal(press(super::event::KeyCode::Char('c'), 2), ev) ==> next
                == PromptAction::Finish(None)
            &&& super::event::events_equal(press(super::event::KeyCode::Char('k'), 0), ev) ==> next
                == PromptAction::Redraw && c == (if cursor > 0 { cursor - 1 } else { cursor as int })
            &&& super::event::events_equal(press(super::event::KeyCode::Char('j'), 0), ev) ==> next
                == PromptAction::Redraw && c == (if cursor + 1 < len { cursor + 1 } else { cursor as int })
        }),
{
    super::keys::lemma_default_bindings_exact(keys, ev);
    match keys.action_for(ev) {
        Some(a) => lemma_bound_key_outcome(exit_on_new_key, keys, len, cursor, ev, a),
        None => {},
    }
}

/// A menu that lets the user pick one entry of a list with the keyboard.
pub struct Select {
    index: usize,
    configs: Configs,
    keys: Keys,
    inner: RawSelect,
}

impl Select {
    /// The entry under the cursor.
    pub closed spec fn spec_cursor(&self) -> usize {
        self.index
    }

    /// The settings.
    pub closed spec fn spec_configs(&self) -> Configs {
        self.configs
    }

    /// The key bindings.
    pub closed spec fn spec_keys(&self) -> Keys {
        self.keys
    }

    /// The placement of the menu on the terminal.
    pub closed spec fn spec_raw(&self) -> RawSelect {
        self.inner
    }

    /// A menu of `table_size` lines with these keys and settings, the cursor
    /// on the first entry.
    pub fn new(keys: Keys, configs: Configs, table_size: u16) -> (r: Select)
        ensures
            r.spec_cursor() == 0,
            r.spec_configs() == configs,
            r.spec_keys() == keys,
            r.spec_raw().spec_configs() == (RawConfigs { table_size }),
            r.spec_raw().spec_fields() == (Fields {
                bottom: false,
                window_measures: Point2 { x: 0, y: 0 },
                init_position: Point2 { x: 0, y: 0 },
            }),
    {
        let mut config_holder = RawConfigs::default();
        config_holder.table_size = table_size;
        Select { index: 0, configs, keys, inner: RawSelect::new(config_holder) }
    }

    /// The default menu keys.
    pub fn gen_default_keys() -> (r: Keys)
        ensures
            r.bindings() == super::keys::default_bindings(),
            r.default_action() == None::<KeyAction>,
    {
        Keys::default_keys()
    }

    /// The entry under the cursor.
    #[verifier::when_used_as_spec(spec_cursor)]
    pub fn cursor(&self) -> (r: usize)
        ensures
            r == self.spec_cursor(),
    {
        self.index
    }

    /// The placement of the menu on the terminal.
    pub fn raw(&self) -> (r: &RawSelect)
        ensures
            *r == self.spec_raw(),
    {
        &self.inner
    }

    /// Starts a prompt: puts the cursor on the first entry and places the menu
    /// for a terminal cursor at (`pos_x`, `pos_y`) in a terminal of `columns`
    /// by `rows`. Returns how far the terminal must scroll up, if it must.
    pub fn begin(&mut self, pos_x: u16, pos_y: u16, columns: u16, rows: u16) -> (r: Option<u16>)
        requires
            pos_y < rows,
            old(self).spec_raw().spec_configs().table_size <= rows,
        ensures
            final(self).spec_cursor() == 0,
            r == super::placement(old(self).spec_raw().spec_configs().table_size, pos_x, pos_y, rows).0,
            final(self).spec_raw().spec_fields().init_position == super::placement(
                old(self).spec_raw().spec_configs().table_size,
                pos_x,
                pos_y,
                rows,
            ).1,
            final(self).spec_raw().spec_fields().window_measures == (Point2 { x: columns, y: rows }),
            final(self).spec_raw().spec_fields().bottom == (r is Some || old(self).spec_raw().spec_fields().bottom),
            final(self).spec_raw().spec_configs() == old(self).spec_raw().spec_configs(),
            final(self).spec_configs() == old(self).spec_configs(),
            final(self).spec_keys() == old(self).spec_keys(),
    {
        self.index = 0;
        self.inner.place(pos_x, pos_y, columns, rows)
    }

    /// Reads one key, `input`, for a list of `len` entries: runs its action
    /// and says what the prompt does next (see [`read_outcome`] and
    /// [`next_action`]).
    pub fn step(&mut self, len: usize, input: Result<super::event::Event, std::io::Error>) -> (r: PromptAction)
        ensures
            final(self).spec_cursor() == read_outcome(old(self).spec_keys(), len, old(self).spec_cursor(), input).1,
            r == next_action(
                old(self).spec_configs().exit_on_new_key,
                read_outcome(old(self).spec_keys(), len, old(self).spec_cursor(), input).0,
                final(self).spec_cursor(),
            ),
            final(self).spec_configs() == old(self).spec_configs(),
            final(self).spec_keys() == old(self).spec_keys(),
            final(self).spec_raw() == old(self).spec_raw(),
    {
        let res = self.inner.raw_prompt(&self.keys, len, &mut self.index, input);
        match res {
            SelResult::Success(ok) => match ok {
                SelOk::Proceed => PromptAction::Redraw,
                SelOk::Exit => PromptAction::Finish(Some(self.index)),
                SelOk::Abort => PromptAction::Finish(None),
            },
            SelResult::Failure(_) => PromptAction::Finish(None),
            SelResult::KeyNotFound => {
                if self.configs.exit_on_new_key {
                    PromptAction::Finish(None)
                } else {
                    PromptAction::Wait
                }
            },
        }
    }

    /// The layout of every line of the menu over a list of `len` entries.
    pub fn frame(&self, len: usize) -> (r: Vec<LineLayout>)
        requires
            self.spec_cursor() <= len,
        ensures
            r.len() == self.spec_raw().spec_configs().table_size,
            forall|line: int|
                0 <= line < r.len() ==> #[trigger] r[line] == layout_spec(
                    line,
                    self.spec_raw().spec_configs().table_size as int,
                    self.spec_cursor() as int,
                    len as int,
                ),
    {
        let table_size = self.inner.table_size();
        let mut lines: Vec<LineLayout> = Vec::new();
        let mut line: u16 = 0;
        while line < table_size
            invariant
                table_size == self.spec_raw().spec_configs().table_size,
                self.spec_cursor() <= len,
                line <= table_size,
                lines.len() == line,
                forall|l: int|
                    0 <= l < line ==> #[trigger] lines[l] == layout_spec(
                        l,
                        table_size as int,
                        self.spec_cursor() as int,
                        len as int,
                    ),
            decreases table_size - line,
        {
            lines.push(Self::line_layout(line, table_size, self.index, len));
            line = line + 1;
        }
        lines
    }
    /// Lays out line `line` of a menu of `menu_size` lines over `len` entries
    /// whose cursor is on entry `index`.
    pub fn line_layout(line: u16, menu_size: u16, index: usize, len: usize) -> (res: LineLayout)
        requires
            line < menu_size,
            index <= len,
        ensures
            res == layout_spec(line as int, menu_size as int, index as int, len as int),
    {
        let half: u16 = menu_size / 2;
        let half_u: usize = half as usize;
        let menu_u: usize = menu_size as usize;
        let line_u: usize = line as usize;
        let even: bool = menu_size % 2 == 0;
        let position_from_last: usize = len - index;
        let marker: LineMarker;
        let start: usize;
        if index < half_u || len < menu_u {
            start = 0;
            if index == line_u {
                marker = LineMarker::Selected;
            } else if line == menu_size - 1 && len > menu_u {
                marker = LineMarker::Bottom;
            } else {
                marker = LineMarker::Empty;
            }
        } else if (even && position_from_last < half_u) || (!even && position_from_last <= half_u) {
            // the cursor is close to the end of the list
            start = len - menu_u;
            if line_u == menu_u - position_from_last {
                marker = LineMarker::Selected;
            } else if line == 0 && len > menu_u {
                marker = LineMarker::Top;
            } else {
                marker = LineMarker::Empty;
            }
        } else {
            start = index - half_u;
            if line == half {
                marker = LineMarker::Selected;
            } else if line == 0 && index > half_u {
                marker = LineMarker::Top;
            } else if line == menu_size - 1 && ((even && position_from_last > half_u) || (!even
                && position_from_last - 1 > half_u)) {
                marker = LineMarker::Bottom;
            } else {
                marker = LineMarker::Empty;
            }
        }
        let entry: Option<usize> = if line_u < len - start {
            Some(start + line_u)
        } else {
            None
        };
        LineLayout { marker, entry }
    }
}

} // verus!
