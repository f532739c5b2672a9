//! A small interactive selection menu for terminals.
//!
//! The library holds the menu's logic: which entries a scrolled window shows,
//! how each line is marked, how key events map to actions, and how the prompt
//! reacts to them. Reading the terminal and writing to it is left to the caller.

pub use crossterm;

mod compat;
mod select;

pub use compat::DOWN_ARROW;
pub use compat::UNICODE_DOWN_ARROW;
pub use compat::UNICODE_UP_ARROW;
pub use compat::UP_ARROW;
pub use select::Configs;
pub use select::Event;
pub use select::Fields;
pub use select::KeyAction;
pub use select::KeyCode;
pub use select::KeyEvent;
pub use select::KeyEventKind;
pub use select::KeyEventState;
pub use select::KeyModifiers;
pub use select::Keys;
pub use select::KeysTrait;
pub use select::LineLayout;
pub use select::LineMarker;
pub use select::MediaKeyCode;
pub use select::ModifierKeyCode;
pub use select::Point2;
pub use select::PromptAction;
pub use select::RawConfigs;
pub use select::RawSelect;
pub use select::Select;
pub use select::SelectNonBlock;
pub use select::SelErr;
pub use select::SelOk;
pub use select::SelResult;
pub use select::ALT_BIT;
pub use select::CONTROL_BIT;
pub use select::SHIFT_BIT;
