use vstd::prelude::*;

mod ascii;
mod event;
mod keys;
mod non_block;
mod select;

pub use event::Event;
pub use event::KeyCode;
pub use event::KeyEvent;
pub use event::KeyEventKind;
pub use event::KeyEventState;
pub use event::KeyModifiers;
pub use event::MediaKeyCode;
pub use event::ModifierKeyCode;
pub use event::ALT_BIT;
pub use event::CONTROL_BIT;
pub use event::SHIFT_BIT;
pub use keys::KeyAction;
pub use keys::Keys;
pub use keys::KeysTrait;
pub use non_block::SelectNonBlock;
pub use select::LineLayout;
pub use select::LineMarker;
pub use select::PromptAction;
pub use select::Select;

use keys::KeysTrait as _;

verus! {

#[verifier::external_type_specification]
#[verifier::external_body]
pub struct ExIoError(std::io::Error);

/// What a key action tells the prompt.
#[derive(Clone, Copy, Debug, PartialEq, Eq, Structural)]
pub enum SelOk {
    /// Go on, and draw the menu again.
    Proceed,
    /// End the prompt with the entry under the cursor.
    Exit,
    /// End the prompt with no entry.
    Abort,
}

/// An error while prompting: one of the terminal, or one of a key action.
pub enum SelErr<RetErr> {
    BaseErr(std::io::Error),
    UserErr(RetErr),
}

/// The outcome of one key read by the prompt.
pub enum SelResult<RetOk, RetErr> {
    /// The key's action ran and returned this.
    Success(RetOk),
    /// Reading the key, or its action, failed.
    Failure(RetErr),
    /// No action is bound to the key.
    KeyNotFound,
}

/// A point on the terminal, in columns (`x`) and rows (`y`).
#[derive(Clone, Copy, Debug, PartialEq, Eq, Structural)]
pub struct Point2 {
    pub x: u16,
    pub y: u16,
}

/// Where the menu was placed on the terminal.
#[derive(Clone, Copy, Debug, PartialEq, Eq, Structural)]
pub struct Fields {
    /// The terminal was scrolled to make room for the menu at its bottom.
    pub bottom: bool,
    /// The terminal's size, in columns (`x`) and rows (`y`).
    pub window_measures: Point2,
    /// The terminal cell of the menu's first line.
    pub init_position: Point2,
}

impl Default for Fields {
    fn default() -> (r: Fields)
        ensures
            r == (Fields {
                bottom: false,
                window_measures: Point2 { x: 0, y: 0 },
                init_position: Point2 { x: 0, y: 0 },
            }),
    {
        Fields {
            bottom: false,
            window_measures: Point2 { x: 0, y: 0 },
            init_position: Point2 { x: 0, y: 0 },
        }
    }
}

/// Settings of a [`Select`] menu.
#[derive(Clone, Copy, Debug, PartialEq, Eq, Structural)]
pub struct Configs {
    /// A key with no action ends the prompt with no entry.
    pub exit_on_new_key: bool,
}

impl Default for Configs {
    fn default() -> (r: Configs)
        ensures
            r.exit_on_new_key,
    {
        Configs { exit_on_new_key: true }
    }
}

/// Settings of a [`RawSelect`] menu.
#[derive(Clone, Copy, Debug, PartialEq, Eq, Structural)]
pub struct RawConfigs {
    /// The number of lines the menu takes.
    pub table_size: u16,
}

impl Default for RawConfigs {
    fn default() -> (r: RawConfigs)
        ensures
            r.table_size == 0,
    {
        RawConfigs { table_size: 0 }
    }
}

/// The placement of a menu on the terminal, and the reading of its keys.
pub struct RawSelect {
    configs: RawConfigs,
    fields: Fields,
}

/// Where the menu's first line goes, and how far the terminal scrolls for it,
/// for a menu of `table_size` lines asked for with the terminal cursor at
/// (`pos_x`, `pos_y`) in a terminal of `rows` rows: when fewer than
/// `table_size` rows are left below the cursor's row, the terminal scrolls up
/// so that the menu's last line is the terminal's last row.
pub open spec fn placement(table_size: u16, pos_x: u16, pos_y: u16, rows: u16) -> (Option<u16>, Point2) {
    let space_left = rows - pos_y - 1;
    if space_left < table_size {
        let amount = table_size - space_left - 1;
        (Some(amount as u16), Point2 { x: pos_x, y: (pos_y - amount) as u16 })
    } else {
        (None, Point2 { x: pos_x, y: pos_y })
    }
}

/// The menu fits the terminal: its `table_size` lines start at or above the
/// cursor's row, in the cursor's column, and end on the terminal's last row at
/// the latest; the terminal scrolls only when the menu would not fit below
/// the cursor, and then just enough for the menu to end on the last row.
pub proof fn lemma_menu_fits(table_size: u16, pos_x: u16, pos_y: u16, rows: u16)
    requires
        pos_y < rows,
        table_size <= rows,
    ensures
        ({
            let (scroll, start) = placement(table_size, pos_x, pos_y, rows);
            &&& start.x == pos_x
            &&& start.y <= pos_y
            &&& start.y + table_size <= rows
            &&& scroll is None <==> pos_y + table_size < rows
            &&& scroll is None ==> start.y == pos_y
            &&& scroll matches Some(n) ==> start.y + table_size == rows && start.y + n == pos_y
        }),
{
}

impl RawSelect {
    /// The settings.
    pub closed spec fn spec_configs(&self) -> RawConfigs {
        self.configs
    }

    /// The placement on the terminal.
    pub closed spec fn spec_fields(&self) -> Fields {
        self.fields
    }

    /// A menu with these settings, not yet placed.
    pub fn new(configs: RawConfigs) -> (r: RawSelect)
        ensures
            r.spec_configs() == configs,
            r.spec_fields() == (Fields {
                bottom: false,
                window_measures: Point2 { x: 0, y: 0 },
                init_position: Point2 { x: 0, y: 0 },
            }),
    {
        RawSelect { configs, fields: Fields::default() }
    }

    /// The number of lines the menu takes.
    pub fn table_size(&self) -> (r: u16)
        ensures
            r == self.spec_configs().table_size,
    {
        self.configs.table_size
    }

    /// Whether the terminal was scrolled to make room for the menu, so that
    /// it scrolls one more line when the prompt ends.
    pub fn bottom(&self) -> (r: bool)
        ensures
            r == self.spec_fields().bottom,
    {
        self.fields.bottom
    }

    /// The terminal cell of the menu's first line.
    pub fn init_position(&self) -> (r: Point2)
        ensures
            r == self.spec_fields().init_position,
    {
        self.fields.init_position
    }

    /// Places the menu for a terminal cursor at (`pos_x`, `pos_y`) in a
    /// terminal of `columns` by `rows` (see [`placement`]). Returns how many
    /// lines the terminal must scroll up, and the cursor move up with it, if
    /// it must scroll.
    pub fn place(&mut self, pos_x: u16, pos_y: u16, columns: u16, rows: u16) -> (r: Option<u16>)
        requires
            pos_y < rows,
            old(self).spec_configs().table_size <= rows,
        ensures
            r == placement(old(self).spec_configs().table_size, pos_x, pos_y, rows).0,
            final(self).spec_fields().init_position == placement(
                old(self).spec_configs().table_size,
                pos_x,
                pos_y,
                rows,
            ).1,
            final(self).spec_fields().window_measures == (Point2 { x: columns, y: rows }),
            final(self).spec_fields().bottom == (r is Some || old(self).spec_fields().bottom),
            final(self).spec_configs() == old(self).spec_configs(),
    {
        let table_size = self.configs.table_size;
        let mut pos_y = pos_y;
        self.fields.window_measures = Point2 { x: columns, y: rows };
        let space_left = rows - pos_y - 1;
        let mut scroll: Option<u16> = None;
        if space_left < table_size {
            let amount = table_size - space_left - 1;
            pos_y = pos_y - amount;
            self.fields.bottom = true;
            scroll = Some(amount);
        }
        self.fields.init_position = Point2 { x: pos_x, y: pos_y };
        scroll
    }

    /// Handles one key read from the terminal, `input`, for a list of `len`
    /// entries with the cursor at `cursor`: a failed read is returned as an
    /// error, a key with an action in `keys` runs it, and any other key is
    /// reported as not found (see [`select::read_outcome`]).
    pub fn raw_prompt(
        &mut self,
        keys: &Keys,
        len: usize,
        cursor: &mut usize,
        input: Result<Event, std::io::Error>,
    ) -> (r: SelResult<SelOk, SelErr<()>>)
        ensures
            r == select::read_outcome(*keys, len, *old(cursor), input).0,
            *final(cursor) == select::read_outcome(*keys, len, *old(cursor), input).1,
            *final(self) == *old(self),
    {
        let key = match input {
            Ok(ok) => ok,
            Err(err) => {
                return SelResult::Failure(SelErr::BaseErr(err));
            },
        };
        match keys.get_key_action(&key) {
            Some(action) => SelResult::Success(action.run(len, cursor)),
            None => SelResult::KeyNotFound,
        }
    }
}

} // verus!
