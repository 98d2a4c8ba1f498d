//! The copy-mode key layer: how keys and typed characters drive tmux/vim-style scrollback
//! navigation and selection while the terminal is in copy mode.
use vstd::prelude::*;

verus! {

/// A key of the terminal's own (direct, physical-key) input path.
#[derive(Clone, Copy, Debug, PartialEq, Eq, Structural)]
pub enum TerminalKey {
    A,
    B,
    C,
    D,
    E,
    F,
    G,
    H,
    I,
    J,
    K,
    L,
    M,
    N,
    O,
    P,
    Q,
    R,
    S,
    T,
    U,
    V,
    W,
    X,
    Y,
    Z,
    Digit0,
    Digit1,
    Digit2,
    Digit3,
    Digit4,
    Digit5,
    Digit6,
    Digit7,
    Digit8,
    Digit9,
    Numpad0,
    Enter,
    NumpadEnter,
    Escape,
    Space,
    Tab,
    Backspace,
    Delete,
    ArrowLeft,
    ArrowRight,
    ArrowUp,
    ArrowDown,
    PageUp,
    PageDown,
    Home,
    End,
    Comma,
    Other,
}

/// The modifier keys held with a terminal key.
#[derive(Clone, Copy, Debug, Default, PartialEq, Eq, Structural)]
pub struct KeyMods {
    pub shift: bool,
    pub ctrl: bool,
    pub alt: bool,
    pub command: bool,
}

/// One key press of the direct input path, with the text it would type.
#[derive(Clone, Copy, Debug)]
pub struct KeyInput<'a> {
    pub key: TerminalKey,
    pub mods: KeyMods,
    pub repeat: bool,
    pub utf8: Option<&'a str>,
    pub unshifted: Option<char>,
}

/// A key of the UI toolkit's logical-key input path.
#[derive(Clone, Copy, Debug, PartialEq, Eq, Structural)]
pub enum UiKey {
    A,
    B,
    C,
    D,
    E,
    F,
    G,
    H,
    I,
    J,
    K,
    L,
    M,
    N,
    O,
    P,
    Q,
    R,
    S,
    T,
    U,
    V,
    W,
    X,
    Y,
    Z,
    Num0,
    Num1,
    Num2,
    Num3,
    Num4,
    Num5,
    Num6,
    Num7,
    Num8,
    Num9,
    Questionmark,
    Slash,
    Comma,
    Space,
    Escape,
    Enter,
    Tab,
    Backspace,
    Delete,
    ArrowLeft,
    ArrowRight,
    ArrowUp,
    ArrowDown,
    PageUp,
    PageDown,
    Home,
    End,
    Other,
}

/// The modifier keys the UI toolkit reports with a key event. `command` is the platform's
/// command key (cmd on macOS, ctrl elsewhere); `mac_cmd` is the macOS command key itself.
#[derive(Clone, Copy, Debug, Default, PartialEq, Eq, Structural)]
pub struct UiModifiers {
    pub alt: bool,
    pub ctrl: bool,
    pub shift: bool,
    pub mac_cmd: bool,
    pub command: bool,
}

/// An input event of the UI toolkit, as far as copy mode reads it.
#[derive(Clone, Debug, PartialEq, Eq)]
pub enum UiEvent {
    Key { key: UiKey, pressed: bool, repeat: bool, modifiers: UiModifiers },
    Text(String),
    /// Clipboard text pasted into the window.
    Paste(String),
    /// Any other event (pointer, wheel, paste, ...), identified by the caller.
    Other(u32),
}

/// Which way a terminal search walks.
#[derive(Clone, Copy, Debug, PartialEq, Eq, Structural)]
pub enum TerminalSearchDirection {
    Previous,
    Current,
    Next,
}

/// A cursor motion inside copy mode.
#[derive(Clone, Copy, Debug, PartialEq, Eq, Structural)]
pub enum TerminalCopyModeMotion {
    Left,
    Right,
    Up,
    Down,
    PageUp,
    PageDown,
    HalfPageUp,
    HalfPageDown,
    ScrollUp,
    ScrollDown,
    StartOfLine,
    EndOfLine,
    BackToIndentation,
    HistoryTop,
    HistoryBottom,
    TopLine,
    BottomLine,
    MiddleLine,
    NextWord,
    PreviousWord,
    NextWordEnd,
}

/// An action the terminal's copy mode performs.
#[derive(Clone, Copy, Debug, PartialEq, Eq, Structural)]
pub enum TerminalCopyModeAction {
    Move(TerminalCopyModeMotion),
    BeginSelection,
    ToggleSelection,
    ToggleSelectionEnd,
    ToggleRectangle,
    SelectLine,
    CopySelectionAndCancel,
    CancelOrClearSelection,
    Cancel,
    SearchWord(TerminalSearchDirection),
}

/// Whether a search repeat follows the direction the search started in or the opposite one.
#[derive(Clone, Copy, Debug, PartialEq, Eq, Structural)]
pub enum CopyModeSearchRepeat {
    SameDirection,
    OppositeDirection,
}

/// What one key or character does in copy mode.
#[derive(Clone, Copy, Debug, PartialEq, Eq, Structural)]
pub enum CopyModeKeyAction {
    Terminal(TerminalCopyModeAction),
    SearchPrompt(TerminalSearchDirection),
    SearchWord(TerminalSearchDirection),
    SearchRepeat(CopyModeSearchRepeat),
}

/// The opposite walking direction; a search from the current match walks backwards.
pub open spec fn opposite_direction(d: TerminalSearchDirection) -> TerminalSearchDirection {
    match d {
        TerminalSearchDirection::Previous => TerminalSearchDirection::Next,
        _ => TerminalSearchDirection::Previous,
    }
}

pub fn opposite_terminal_search_direction(direction: TerminalSearchDirection) -> (r:
    TerminalSearchDirection)
    ensures
        r == opposite_direction(direction),
{
    match direction {
        TerminalSearchDirection::Previous => TerminalSearchDirection::Next,
        TerminalSearchDirection::Current | TerminalSearchDirection::Next => {
            TerminalSearchDirection::Previous
        },
    }
}

/// The direction a repeat walks, given the direction the search started in.
pub open spec fn repeat_direction(
    repeat: CopyModeSearchRepeat,
    started: TerminalSearchDirection,
) -> TerminalSearchDirection {
    match repeat {
        CopyModeSearchRepeat::SameDirection => started,
        CopyModeSearchRepeat::OppositeDirection => opposite_direction(started),
    }
}

impl CopyModeSearchRepeat {
    pub fn direction(self, started_direction: TerminalSearchDirection) -> (r:
        TerminalSearchDirection)
        ensures
            r == repeat_direction(self, started_direction),
    {
        match self {
            CopyModeSearchRepeat::SameDirection => started_direction,
            CopyModeSearchRepeat::OppositeDirection => opposite_terminal_search_direction(
                started_direction,
            ),
        }
    }
}

/// The copy-mode action of a typed character.
pub open spec fn char_action(ch: char) -> Option<CopyModeKeyAction> {
    match ch {
        '/' => Some(CopyModeKeyAction::SearchPrompt(TerminalSearchDirection::Next)),
        '?' => Some(CopyModeKeyAction::SearchPrompt(TerminalSearchDirection::Previous)),
        '*' => Some(CopyModeKeyAction::SearchWord(TerminalSearchDirection::Next)),
        '#' => Some(CopyModeKeyAction::SearchWord(TerminalSearchDirection::Previous)),
        '$' => Some(CopyModeKeyAction::Terminal(TerminalCopyModeAction::Move(TerminalCopyModeMotion::EndOfLine))),
        '^' => Some(CopyModeKeyAction::Terminal(TerminalCopyModeAction::Move(TerminalCopyModeMotion::BackToIndentation))),
        '0' => Some(CopyModeKeyAction::Terminal(TerminalCopyModeAction::Move(TerminalCopyModeMotion::StartOfLine))),
        'b' => Some(CopyModeKeyAction::Terminal(TerminalCopyModeAction::Move(TerminalCopyModeMotion::PreviousWord))),
        'e' => Some(CopyModeKeyAction::Terminal(TerminalCopyModeAction::Move(TerminalCopyModeMotion::NextWordEnd))),
        'g' => Some(CopyModeKeyAction::Terminal(TerminalCopyModeAction::Move(TerminalCopyModeMotion::HistoryTop))),
        'G' => Some(CopyModeKeyAction::Terminal(TerminalCopyModeAction::Move(TerminalCopyModeMotion::HistoryBottom))),
        'h' => Some(CopyModeKeyAction::Terminal(TerminalCopyModeAction::Move(TerminalCopyModeMotion::Left))),
        'H' => Some(CopyModeKeyAction::Terminal(TerminalCopyModeAction::Move(TerminalCopyModeMotion::TopLine))),
        'j' => Some(CopyModeKeyAction::Terminal(TerminalCopyModeAction::Move(TerminalCopyModeMotion::Down))),
        'k' => Some(CopyModeKeyAction::Terminal(TerminalCopyModeAction::Move(TerminalCopyModeMotion::Up))),
        'l' => Some(CopyModeKeyAction::Terminal(TerminalCopyModeAction::Move(TerminalCopyModeMotion::Right))),
        'L' => Some(CopyModeKeyAction::Terminal(TerminalCopyModeAction::Move(TerminalCopyModeMotion::BottomLine))),
        'M' => Some(CopyModeKeyAction::Terminal(TerminalCopyModeAction::Move(TerminalCopyModeMotion::MiddleLine))),
        'n' => Some(CopyModeKeyAction::SearchRepeat(CopyModeSearchRepeat::SameDirection)),
        'N' => Some(CopyModeKeyAction::SearchRepeat(CopyModeSearchRepeat::OppositeDirection)),
        'o' => Some(CopyModeKeyAction::Terminal(TerminalCopyModeAction::ToggleSelectionEnd)),
        'q' => Some(CopyModeKeyAction::Terminal(TerminalCopyModeAction::Cancel)),
        'v' => Some(CopyModeKeyAction::Terminal(TerminalCopyModeAction::ToggleSelection)),
        'V' => Some(CopyModeKeyAction::Terminal(TerminalCopyModeAction::SelectLine)),
        'w' => Some(CopyModeKeyAction::Terminal(TerminalCopyModeAction::Move(TerminalCopyModeMotion::NextWord))),
        'y' => Some(CopyModeKeyAction::Terminal(TerminalCopyModeAction::CopySelectionAndCancel)),
        _ => None,
    }
}

pub fn copy_mode_action_for_char(ch: char) -> (r: Option<CopyModeKeyAction>)
    ensures
        r == char_action(ch),
{
    match ch {
        '/' => Some(CopyModeKeyAction::SearchPrompt(TerminalSearchDirection::Next)),
        '?' => Some(CopyModeKeyAction::SearchPrompt(TerminalSearchDirection::Previous)),
        '*' => Some(CopyModeKeyAction::SearchWord(TerminalSearchDirection::Next)),
        '#' => Some(CopyModeKeyAction::SearchWord(TerminalSearchDirection::Previous)),
        '$' => Some(CopyModeKeyAction::Terminal(TerminalCopyModeAction::Move(TerminalCopyModeMotion::EndOfLine))),
        '^' => Some(CopyModeKeyAction::Terminal(TerminalCopyModeAction::Move(TerminalCopyModeMotion::BackToIndentation))),
        '0' => Some(CopyModeKeyAction::Terminal(TerminalCopyModeAction::Move(TerminalCopyModeMotion::StartOfLine))),
        'b' => Some(CopyModeKeyAction::Terminal(TerminalCopyModeAction::Move(TerminalCopyModeMotion::PreviousWord))),
        'e' => Some(CopyModeKeyAction::Terminal(TerminalCopyModeAction::Move(TerminalCopyModeMotion::NextWordEnd))),
        'g' => Some(CopyModeKeyAction::Terminal(TerminalCopyModeAction::Move(TerminalCopyModeMotion::HistoryTop))),
        'G' => Some(CopyModeKeyAction::Terminal(TerminalCopyModeAction::Move(TerminalCopyModeMotion::HistoryBottom))),
        'h' => Some(CopyModeKeyAction::Terminal(TerminalCopyModeAction::Move(TerminalCopyModeMotion::Left))),
        'H' => Some(CopyModeKeyAction::Terminal(TerminalCopyModeAction::Move(TerminalCopyModeMotion::TopLine))),
        'j' => Some(CopyModeKeyAction::Terminal(TerminalCopyModeAction::Move(TerminalCopyModeMotion::Down))),
        'k' => Some(CopyModeKeyAction::Terminal(TerminalCopyModeAction::Move(TerminalCopyModeMotion::Up))),
        'l' => Some(CopyModeKeyAction::Terminal(TerminalCopyModeAction::Move(TerminalCopyModeMotion::Right))),
        'L' => Some(CopyModeKeyAction::Terminal(TerminalCopyModeAction::Move(TerminalCopyModeMotion::BottomLine))),
        'M' => Some(CopyModeKeyAction::Terminal(TerminalCopyModeAction::Move(TerminalCopyModeMotion::MiddleLine))),
        'n' => Some(CopyModeKeyAction::SearchRepeat(CopyModeSearchRepeat::SameDirection)),
        'N' => Some(CopyModeKeyAction::SearchRepeat(CopyModeSearchRepeat::OppositeDirection)),
        'o' => Some(CopyModeKeyAction::Terminal(TerminalCopyModeAction::ToggleSelectionEnd)),
        'q' => Some(CopyModeKeyAction::Terminal(TerminalCopyModeAction::Cancel)),
        'v' => Some(CopyModeKeyAction::Terminal(TerminalCopyModeAction::ToggleSelection)),
        'V' => Some(CopyModeKeyAction::Terminal(TerminalCopyModeAction::SelectLine)),
        'w' => Some(CopyModeKeyAction::Terminal(TerminalCopyModeAction::Move(TerminalCopyModeMotion::NextWord))),
        'y' => Some(CopyModeKeyAction::Terminal(TerminalCopyModeAction::CopySelectionAndCancel)),
        _ => None,
    }
}

/// The copy-mode action of a terminal key held with ctrl.
pub open spec fn ctrl_terminal_key_action(key: TerminalKey) -> Option<CopyModeKeyAction> {
    match key {
        TerminalKey::B => Some(CopyModeKeyAction::Terminal(TerminalCopyModeAction::Move(TerminalCopyModeMotion::PageUp))),
        TerminalKey::C | TerminalKey::G => Some(CopyModeKeyAction::Terminal(TerminalCopyModeAction::Cancel)),
        TerminalKey::D => Some(CopyModeKeyAction::Terminal(TerminalCopyModeAction::Move(TerminalCopyModeMotion::HalfPageDown))),
        TerminalKey::E => Some(CopyModeKeyAction::Terminal(TerminalCopyModeAction::Move(TerminalCopyModeMotion::ScrollDown))),
        TerminalKey::F => Some(CopyModeKeyAction::Terminal(TerminalCopyModeAction::Move(TerminalCopyModeMotion::PageDown))),
        TerminalKey::J | TerminalKey::Enter | TerminalKey::NumpadEnter => Some(CopyModeKeyAction::Terminal(TerminalCopyModeAction::CopySelectionAndCancel)),
        TerminalKey::N => Some(CopyModeKeyAction::Terminal(TerminalCopyModeAction::Move(TerminalCopyModeMotion::Down))),
        TerminalKey::P => Some(CopyModeKeyAction::Terminal(TerminalCopyModeAction::Move(TerminalCopyModeMotion::Up))),
        TerminalKey::U => Some(CopyModeKeyAction::Terminal(TerminalCopyModeAction::Move(TerminalCopyModeMotion::HalfPageUp))),
        TerminalKey::V => Some(CopyModeKeyAction::Terminal(TerminalCopyModeAction::ToggleRectangle)),
        TerminalKey::Y => Some(CopyModeKeyAction::Terminal(TerminalCopyModeAction::Move(TerminalCopyModeMotion::ScrollUp))),
        _ => None,
    }
}

fn copy_mode_ctrl_terminal_key_action(key: TerminalKey) -> (r: Option<CopyModeKeyAction>)
    ensures
        r == ctrl_terminal_key_action(key),
{
    match key {
        TerminalKey::B => Some(CopyModeKeyAction::Terminal(TerminalCopyModeAction::Move(TerminalCopyModeMotion::PageUp))),
        TerminalKey::C | TerminalKey::G => Some(CopyModeKeyAction::Terminal(TerminalCopyModeAction::Cancel)),
        TerminalKey::D => Some(CopyModeKeyAction::Terminal(TerminalCopyModeAction::Move(TerminalCopyModeMotion::HalfPageDown))),
        TerminalKey::E => Some(CopyModeKeyAction::Terminal(TerminalCopyModeAction::Move(TerminalCopyModeMotion::ScrollDown))),
        TerminalKey::F => Some(CopyModeKeyAction::Terminal(TerminalCopyModeAction::Move(TerminalCopyModeMotion::PageDown))),
        TerminalKey::J | TerminalKey::Enter | TerminalKey::NumpadEnter => Some(CopyModeKeyAction::Terminal(TerminalCopyModeAction::CopySelectionAndCancel)),
        TerminalKey::N => Some(CopyModeKeyAction::Terminal(TerminalCopyModeAction::Move(TerminalCopyModeMotion::Down))),
        TerminalKey::P => Some(CopyModeKeyAction::Terminal(TerminalCopyModeAction::Move(TerminalCopyModeMotion::Up))),
        TerminalKey::U => Some(CopyModeKeyAction::Terminal(TerminalCopyModeAction::Move(TerminalCopyModeMotion::HalfPageUp))),
        TerminalKey::V => Some(CopyModeKeyAction::Terminal(TerminalCopyModeAction::ToggleRectangle)),
        TerminalKey::Y => Some(CopyModeKeyAction::Terminal(TerminalCopyModeAction::Move(TerminalCopyModeMotion::ScrollUp))),
        _ => None,
    }
}

/// The copy-mode action of a terminal key held with shift.
pub open spec fn shift_terminal_key_action(key: TerminalKey) -> Option<CopyModeKeyAction> {
    match key {
        TerminalKey::G => Some(CopyModeKeyAction::Terminal(TerminalCopyModeAction::Move(TerminalCopyModeMotion::HistoryBottom))),
        TerminalKey::H => Some(CopyModeKeyAction::Terminal(TerminalCopyModeAction::Move(TerminalCopyModeMotion::TopLine))),
        TerminalKey::L => Some(CopyModeKeyAction::Terminal(TerminalCopyModeAction::Move(TerminalCopyModeMotion::BottomLine))),
        TerminalKey::M => Some(CopyModeKeyAction::Terminal(TerminalCopyModeAction::Move(TerminalCopyModeMotion::MiddleLine))),
        TerminalKey::V => Some(CopyModeKeyAction::Terminal(TerminalCopyModeAction::SelectLine)),
        TerminalKey::Digit4 => Some(CopyModeKeyAction::Terminal(TerminalCopyModeAction::Move(TerminalCopyModeMotion::EndOfLine))),
        TerminalKey::Digit6 => Some(CopyModeKeyAction::Terminal(TerminalCopyModeAction::Move(TerminalCopyModeMotion::BackToIndentation))),
        _ => None,
    }
}

fn copy_mode_shift_terminal_key_action(key: TerminalKey) -> (r: Option<CopyModeKeyAction>)
    ensures
        r == shift_terminal_key_action(key),
{
    match key {
        TerminalKey::G => Some(CopyModeKeyAction::Terminal(TerminalCopyModeAction::Move(TerminalCopyModeMotion::HistoryBottom))),
        TerminalKey::H => Some(CopyModeKeyAction::Terminal(TerminalCopyModeAction::Move(TerminalCopyModeMotion::TopLine))),
        TerminalKey::L => Some(CopyModeKeyAction::Terminal(TerminalCopyModeAction::Move(TerminalCopyModeMotion::BottomLine))),
        TerminalKey::M => Some(CopyModeKeyAction::Terminal(TerminalCopyModeAction::Move(TerminalCopyModeMotion::MiddleLine))),
        TerminalKey::V => Some(CopyModeKeyAction::Terminal(TerminalCopyModeAction::SelectLine)),
        TerminalKey::Digit4 => Some(CopyModeKeyAction::Terminal(TerminalCopyModeAction::Move(TerminalCopyModeMotion::EndOfLine))),
        TerminalKey::Digit6 => Some(CopyModeKeyAction::Terminal(TerminalCopyModeAction::Move(TerminalCopyModeMotion::BackToIndentation))),
        _ => None,
    }
}

/// The copy-mode action of a terminal key held with no modifier.
pub open spec fn plain_terminal_key_action(key: TerminalKey) -> Option<CopyModeKeyAction> {
    match key {
        TerminalKey::Escape => Some(CopyModeKeyAction::Terminal(TerminalCopyModeAction::CancelOrClearSelection)),
        TerminalKey::Enter | TerminalKey::NumpadEnter => Some(CopyModeKeyAction::Terminal(TerminalCopyModeAction::CopySelectionAndCancel)),
        TerminalKey::Space => Some(CopyModeKeyAction::Terminal(TerminalCopyModeAction::BeginSelection)),
        TerminalKey::ArrowLeft => Some(CopyModeKeyAction::Terminal(TerminalCopyModeAction::Move(TerminalCopyModeMotion::Left))),
        TerminalKey::ArrowRight => Some(CopyModeKeyAction::Terminal(TerminalCopyModeAction::Move(TerminalCopyModeMotion::Right))),
        TerminalKey::ArrowUp => Some(CopyModeKeyAction::Terminal(TerminalCopyModeAction::Move(TerminalCopyModeMotion::Up))),
        TerminalKey::ArrowDown => Some(CopyModeKeyAction::Terminal(TerminalCopyModeAction::Move(TerminalCopyModeMotion::Down))),
        TerminalKey::PageUp => Some(CopyModeKeyAction::Terminal(TerminalCopyModeAction::Move(TerminalCopyModeMotion::PageUp))),
        TerminalKey::PageDown => Some(CopyModeKeyAction::Terminal(TerminalCopyModeAction::Move(TerminalCopyModeMotion::PageDown))),
        TerminalKey::Home => Some(CopyModeKeyAction::Terminal(TerminalCopyModeAction::Move(TerminalCopyModeMotion::StartOfLine))),
        TerminalKey::End => Some(CopyModeKeyAction::Terminal(TerminalCopyModeAction::Move(TerminalCopyModeMotion::EndOfLine))),
        TerminalKey::H => Some(CopyModeKeyAction::Terminal(TerminalCopyModeAction::Move(TerminalCopyModeMotion::Left))),
        TerminalKey::J => Some(CopyModeKeyAction::Terminal(TerminalCopyModeAction::Move(TerminalCopyModeMotion::Down))),
        TerminalKey::K => Some(CopyModeKeyAction::Terminal(TerminalCopyModeAction::Move(TerminalCopyModeMotion::Up))),
        TerminalKey::N => Some(CopyModeKeyAction::SearchRepeat(CopyModeSearchRepeat::SameDirection)),
        TerminalKey::L => Some(CopyModeKeyAction::Terminal(TerminalCopyModeAction::Move(TerminalCopyModeMotion::Right))),
        TerminalKey::G => Some(CopyModeKeyAction::Terminal(TerminalCopyModeAction::Move(TerminalCopyModeMotion::HistoryTop))),
        TerminalKey::W => Some(CopyModeKeyAction::Terminal(TerminalCopyModeAction::Move(TerminalCopyModeMotion::NextWord))),
        TerminalKey::B => Some(CopyModeKeyAction::Terminal(TerminalCopyModeAction::Move(TerminalCopyModeMotion::PreviousWord))),
        TerminalKey::E => Some(CopyModeKeyAction::Terminal(TerminalCopyModeAction::Move(TerminalCopyModeMotion::NextWordEnd))),
        TerminalKey::O => Some(CopyModeKeyAction::Terminal(TerminalCopyModeAction::ToggleSelectionEnd)),
        TerminalKey::V => Some(CopyModeKeyAction::Terminal(TerminalCopyModeAction::ToggleSelection)),
        TerminalKey::Y => Some(CopyModeKeyAction::Terminal(TerminalCopyModeAction::CopySelectionAndCancel)),
        TerminalKey::Q => Some(CopyModeKeyAction::Terminal(TerminalCopyModeAction::Cancel)),
        TerminalKey::Digit0 | TerminalKey::Numpad0 => Some(CopyModeKeyAction::Terminal(TerminalCopyModeAction::Move(TerminalCopyModeMotion::StartOfLine))),
        _ => None,
    }
}

fn copy_mode_terminal_key_action(key: TerminalKey) -> (r: Option<CopyModeKeyAction>)
    ensures
        r == plain_terminal_key_action(key),
{
    match key {
        TerminalKey::Escape => Some(CopyModeKeyAction::Terminal(TerminalCopyModeAction::CancelOrClearSelection)),
        TerminalKey::Enter | TerminalKey::NumpadEnter => Some(CopyModeKeyAction::Terminal(TerminalCopyModeAction::CopySelectionAndCancel)),
        TerminalKey::Space => Some(CopyModeKeyAction::Terminal(TerminalCopyModeAction::BeginSelection)),
        TerminalKey::ArrowLeft => Some(CopyModeKeyAction::Terminal(TerminalCopyModeAction::Move(TerminalCopyModeMotion::Left))),
        TerminalKey::ArrowRight => Some(CopyModeKeyAction::Terminal(TerminalCopyModeAction::Move(TerminalCopyModeMotion::Right))),
        TerminalKey::ArrowUp => Some(CopyModeKeyAction::Terminal(TerminalCopyModeAction::Move(TerminalCopyModeMotion::Up))),
        TerminalKey::ArrowDown => Some(CopyModeKeyAction::Terminal(TerminalCopyModeAction::Move(TerminalCopyModeMotion::Down))),
        TerminalKey::PageUp => Some(CopyModeKeyAction::Terminal(TerminalCopyModeAction::Move(TerminalCopyModeMotion::PageUp))),
        TerminalKey::PageDown => Some(CopyModeKeyAction::Terminal(TerminalCopyModeAction::Move(TerminalCopyModeMotion::PageDown))),
        TerminalKey::Home => Some(CopyModeKeyAction::Terminal(TerminalCopyModeAction::Move(TerminalCopyModeMotion::StartOfLine))),
        TerminalKey::End => Some(CopyModeKeyAction::Terminal(TerminalCopyModeAction::Move(TerminalCopyModeMotion::EndOfLine))),
        TerminalKey::H => Some(CopyModeKeyAction::Terminal(TerminalCopyModeAction::Move(TerminalCopyModeMotion::Left))),
        TerminalKey::J => Some(CopyModeKeyAction::Terminal(TerminalCopyModeAction::Move(TerminalCopyModeMotion::Down))),
        TerminalKey::K => Some(CopyModeKeyAction::Terminal(TerminalCopyModeAction::Move(TerminalCopyModeMotion::Up))),
        TerminalKey::N => Some(CopyModeKeyAction::SearchRepeat(CopyModeSearchRepeat::SameDirection)),
        TerminalKey::L => Some(CopyModeKeyAction::Terminal(TerminalCopyModeAction::Move(TerminalCopyModeMotion::Right))),
        TerminalKey::G => Some(CopyModeKeyAction::Terminal(TerminalCopyModeAction::Move(TerminalCopyModeMotion::HistoryTop))),
        TerminalKey::W => Some(CopyModeKeyAction::Terminal(TerminalCopyModeAction::Move(TerminalCopyModeMotion::NextWord))),
        TerminalKey::B => Some(CopyModeKeyAction::Terminal(TerminalCopyModeAction::Move(TerminalCopyModeMotion::PreviousWord))),
        TerminalKey::E => Some(CopyModeKeyAction::Terminal(TerminalCopyModeAction::Move(TerminalCopyModeMotion::NextWordEnd))),
        TerminalKey::O => Some(CopyModeKeyAction::Terminal(TerminalCopyModeAction::ToggleSelectionEnd)),
        TerminalKey::V => Some(CopyModeKeyAction::Terminal(TerminalCopyModeAction::ToggleSelection)),
        TerminalKey::Y => Some(CopyModeKeyAction::Terminal(TerminalCopyModeAction::CopySelectionAndCancel)),
        TerminalKey::Q => Some(CopyModeKeyAction::Terminal(TerminalCopyModeAction::Cancel)),
        TerminalKey::Digit0 | TerminalKey::Numpad0 => Some(CopyModeKeyAction::Terminal(TerminalCopyModeAction::Move(TerminalCopyModeMotion::StartOfLine))),
        _ => None,
    }
}

/// The copy-mode action of a UI key held with ctrl.
pub open spec fn ctrl_ui_key_action(key: UiKey) -> Option<CopyModeKeyAction> {
    match key {
        UiKey::B => Some(CopyModeKeyAction::Terminal(TerminalCopyModeAction::Move(TerminalCopyModeMotion::PageUp))),
        UiKey::C | UiKey::G => Some(CopyModeKeyAction::Terminal(TerminalCopyModeAction::Cancel)),
        UiKey::D => Some(CopyModeKeyAction::Terminal(TerminalCopyModeAction::Move(TerminalCopyModeMotion::HalfPageDown))),
        UiKey::E => Some(CopyModeKeyAction::Terminal(TerminalCopyModeAction::Move(TerminalCopyModeMotion::ScrollDown))),
        UiKey::F => Some(CopyModeKeyAction::Terminal(TerminalCopyModeAction::Move(TerminalCopyModeMotion::PageDown))),
        UiKey::J => Some(CopyModeKeyAction::Terminal(TerminalCopyModeAction::CopySelectionAndCancel)),
        UiKey::N => Some(CopyModeKeyAction::Terminal(TerminalCopyModeAction::Move(TerminalCopyModeMotion::Down))),
        UiKey::P => Some(CopyModeKeyAction::Terminal(TerminalCopyModeAction::Move(TerminalCopyModeMotion::Up))),
        UiKey::U => Some(CopyModeKeyAction::Terminal(TerminalCopyModeAction::Move(TerminalCopyModeMotion::HalfPageUp))),
        UiKey::V => Some(CopyModeKeyAction::Terminal(TerminalCopyModeAction::ToggleRectangle)),
        UiKey::Y => Some(CopyModeKeyAction::Terminal(TerminalCopyModeAction::Move(TerminalCopyModeMotion::ScrollUp))),
        _ => None,
    }
}

fn copy_mode_ctrl_key_action(key: UiKey) -> (r: Option<CopyModeKeyAction>)
    ensures
        r == ctrl_ui_key_action(key),
{
    match key {
        UiKey::B => Some(CopyModeKeyAction::Terminal(TerminalCopyModeAction::Move(TerminalCopyModeMotion::PageUp))),
        UiKey::C | UiKey::G => Some(CopyModeKeyAction::Terminal(TerminalCopyModeAction::Cancel)),
        UiKey::D => Some(CopyModeKeyAction::Terminal(TerminalCopyModeAction::Move(TerminalCopyModeMotion::HalfPageDown))),
        UiKey::E => Some(CopyModeKeyAction::Terminal(TerminalCopyModeAction::Move(TerminalCopyModeMotion::ScrollDown))),
        UiKey::F => Some(CopyModeKeyAction::Terminal(TerminalCopyModeAction::Move(TerminalCopyModeMotion::PageDown))),
        UiKey::J => Some(CopyModeKeyAction::Terminal(TerminalCopyModeAction::CopySelectionAndCancel)),
        UiKey::N => Some(CopyModeKeyAction::Terminal(TerminalCopyModeAction::Move(TerminalCopyModeMotion::Down))),
        UiKey::P => Some(CopyModeKeyAction::Terminal(TerminalCopyModeAction::Move(TerminalCopyModeMotion::Up))),
        UiKey::U => Some(CopyModeKeyAction::Terminal(TerminalCopyModeAction::Move(TerminalCopyModeMotion::HalfPageUp))),
        UiKey::V => Some(CopyModeKeyAction::Terminal(TerminalCopyModeAction::ToggleRectangle)),
        UiKey::Y => Some(CopyModeKeyAction::Terminal(TerminalCopyModeAction::Move(TerminalCopyModeMotion::ScrollUp))),
        _ => None,
    }
}

/// The copy-mode action of a UI key held with shift (after the search keys).
pub open spec fn shift_ui_key_action(key: UiKey) -> Option<CopyModeKeyAction> {
    match key {
        UiKey::G => Some(CopyModeKeyAction::Terminal(TerminalCopyModeAction::Move(TerminalCopyModeMotion::HistoryBottom))),
        UiKey::H => Some(CopyModeKeyAction::Terminal(TerminalCopyModeAction::Move(TerminalCopyModeMotion::TopLine))),
        UiKey::L => Some(CopyModeKeyAction::Terminal(TerminalCopyModeAction::Move(TerminalCopyModeMotion::BottomLine))),
        UiKey::M => Some(CopyModeKeyAction::Terminal(TerminalCopyModeAction::Move(TerminalCopyModeMotion::MiddleLine))),
        UiKey::V => Some(CopyModeKeyAction::Terminal(TerminalCopyModeAction::SelectLine)),
        UiKey::Num4 => Some(CopyModeKeyAction::Terminal(TerminalCopyModeAction::Move(TerminalCopyModeMotion::EndOfLine))),
        UiKey::Num6 => Some(CopyModeKeyAction::Terminal(TerminalCopyModeAction::Move(TerminalCopyModeMotion::BackToIndentation))),
        _ => None,
    }
}

fn copy_mode_shift_ui_key_action(key: UiKey) -> (r: Option<CopyModeKeyAction>)
    ensures
        r == shift_ui_key_action(key),
{
    match key {
        UiKey::G => Some(CopyModeKeyAction::Terminal(TerminalCopyModeAction::Move(TerminalCopyModeMotion::HistoryBottom))),
        UiKey::H => Some(CopyModeKeyAction::Terminal(TerminalCopyModeAction::Move(TerminalCopyModeMotion::TopLine))),
        UiKey::L => Some(CopyModeKeyAction::Terminal(TerminalCopyModeAction::Move(TerminalCopyModeMotion::BottomLine))),
        UiKey::M => Some(CopyModeKeyAction::Terminal(TerminalCopyModeAction::Move(TerminalCopyModeMotion::MiddleLine))),
        UiKey::V => Some(CopyModeKeyAction::Terminal(TerminalCopyModeAction::SelectLine)),
        UiKey::Num4 => Some(CopyModeKeyAction::Terminal(TerminalCopyModeAction::Move(TerminalCopyModeMotion::EndOfLine))),
        UiKey::Num6 => Some(CopyModeKeyAction::Terminal(TerminalCopyModeAction::Move(TerminalCopyModeMotion::BackToIndentation))),
        _ => None,
    }
}

/// The copy-mode action of a UI key held with no modifier (after the search keys).
pub open spec fn plain_ui_key_action(key: UiKey) -> Option<CopyModeKeyAction> {
    match key {
        UiKey::Escape => Some(CopyModeKeyAction::Terminal(TerminalCopyModeAction::CancelOrClearSelection)),
        UiKey::Enter => Some(CopyModeKeyAction::Terminal(TerminalCopyModeAction::CopySelectionAndCancel)),
        UiKey::Space => Some(CopyModeKeyAction::Terminal(TerminalCopyModeAction::BeginSelection)),
        UiKey::ArrowLeft => Some(CopyModeKeyAction::Terminal(TerminalCopyModeAction::Move(TerminalCopyModeMotion::Left))),
        UiKey::ArrowRight => Some(CopyModeKeyAction::Terminal(TerminalCopyModeAction::Move(TerminalCopyModeMotion::Right))),
        UiKey::ArrowUp => Some(CopyModeKeyAction::Terminal(TerminalCopyModeAction::Move(TerminalCopyModeMotion::Up))),
        UiKey::ArrowDown => Some(CopyModeKeyAction::Terminal(TerminalCopyModeAction::Move(TerminalCopyModeMotion::Down))),
        UiKey::PageUp => Some(CopyModeKeyAction::Terminal(TerminalCopyModeAction::Move(TerminalCopyModeMotion::PageUp))),
        UiKey::PageDown => Some(CopyModeKeyAction::Terminal(TerminalCopyModeAction::Move(TerminalCopyModeMotion::PageDown))),
        UiKey::Home => Some(CopyModeKeyAction::Terminal(TerminalCopyModeAction::Move(TerminalCopyModeMotion::StartOfLine))),
        UiKey::End => Some(CopyModeKeyAction::Terminal(TerminalCopyModeAction::Move(TerminalCopyModeMotion::EndOfLine))),
        UiKey::H => Some(CopyModeKeyAction::Terminal(TerminalCopyModeAction::Move(TerminalCopyModeMotion::Left))),
        UiKey::J => Some(CopyModeKeyAction::Terminal(TerminalCopyModeAction::Move(TerminalCopyModeMotion::Down))),
        UiKey::K => Some(CopyModeKeyAction::Terminal(TerminalCopyModeAction::Move(TerminalCopyModeMotion::Up))),
        UiKey::L => Some(CopyModeKeyAction::Terminal(TerminalCopyModeAction::Move(TerminalCopyModeMotion::Right))),
        UiKey::N => Some(CopyModeKeyAction::SearchRepeat(CopyModeSearchRepeat::SameDirection)),
        UiKey::G => Some(CopyModeKeyAction::Terminal(TerminalCopyModeAction::Move(TerminalCopyModeMotion::HistoryTop))),
        UiKey::W => Some(CopyModeKeyAction::Terminal(TerminalCopyModeAction::Move(TerminalCopyModeMotion::NextWord))),
        UiKey::B => Some(CopyModeKeyAction::Terminal(TerminalCopyModeAction::Move(TerminalCopyModeMotion::PreviousWord))),
        UiKey::E => Some(CopyModeKeyAction::Terminal(TerminalCopyModeAction::Move(TerminalCopyModeMotion::NextWordEnd))),
        UiKey::V => Some(CopyModeKeyAction::Terminal(TerminalCopyModeAction::ToggleSelection)),
        UiKey::Y => Some(CopyModeKeyAction::Terminal(TerminalCopyModeAction::CopySelectionAndCancel)),
        UiKey::Q => Some(CopyModeKeyAction::Terminal(TerminalCopyModeAction::Cancel)),
        UiKey::Num0 => Some(CopyModeKeyAction::Terminal(TerminalCopyModeAction::Move(TerminalCopyModeMotion::StartOfLine))),
        _ => None,
    }
}

fn copy_mode_plain_ui_key_action(key: UiKey) -> (r: Option<CopyModeKeyAction>)
    ensures
        r == plain_ui_key_action(key),
{
    match key {
        UiKey::Escape => Some(CopyModeKeyAction::Terminal(TerminalCopyModeAction::CancelOrClearSelection)),
        UiKey::Enter => Some(CopyModeKeyAction::Terminal(TerminalCopyModeAction::CopySelectionAndCancel)),
        UiKey::Space => Some(CopyModeKeyAction::Terminal(TerminalCopyModeAction::BeginSelection)),
        UiKey::ArrowLeft => Some(CopyModeKeyAction::Terminal(TerminalCopyModeAction::Move(TerminalCopyModeMotion::Left))),
        UiKey::ArrowRight => Some(CopyModeKeyAction::Terminal(TerminalCopyModeAction::Move(TerminalCopyModeMotion::Right))),
        UiKey::ArrowUp => Some(CopyModeKeyAction::Terminal(TerminalCopyModeAction::Move(TerminalCopyModeMotion::Up))),
        UiKey::ArrowDown => Some(CopyModeKeyAction::Terminal(TerminalCopyModeAction::Move(TerminalCopyModeMotion::Down))),
        UiKey::PageUp => Some(CopyModeKeyAction::Terminal(TerminalCopyModeAction::Move(TerminalCopyModeMotion::PageUp))),
        UiKey::PageDown => Some(CopyModeKeyAction::Terminal(TerminalCopyModeAction::Move(TerminalCopyModeMotion::PageDown))),
        UiKey::Home => Some(CopyModeKeyAction::Terminal(TerminalCopyModeAction::Move(TerminalCopyModeMotion::StartOfLine))),
        UiKey::End => Some(CopyModeKeyAction::Terminal(TerminalCopyModeAction::Move(TerminalCopyModeMotion::EndOfLine))),
        UiKey::H => Some(CopyModeKeyAction::Terminal(TerminalCopyModeAction::Move(TerminalCopyModeMotion::Left))),
        UiKey::J => Some(CopyModeKeyAction::Terminal(TerminalCopyModeAction::Move(TerminalCopyModeMotion::Down))),
        UiKey::K => Some(CopyModeKeyAction::Terminal(TerminalCopyModeAction::Move(TerminalCopyModeMotion::Up))),
        UiKey::L => Some(CopyModeKeyAction::Terminal(TerminalCopyModeAction::Move(TerminalCopyModeMotion::Right))),
        UiKey::N => Some(CopyModeKeyAction::SearchRepeat(CopyModeSearchRepeat::SameDirection)),
        UiKey::G => Some(CopyModeKeyAction::Terminal(TerminalCopyModeAction::Move(TerminalCopyModeMotion::HistoryTop))),
        UiKey::W => Some(CopyModeKeyAction::Terminal(TerminalCopyModeAction::Move(TerminalCopyModeMotion::NextWord))),
        UiKey::B => Some(CopyModeKeyAction::Terminal(TerminalCopyModeAction::Move(TerminalCopyModeMotion::PreviousWord))),
        UiKey::E => Some(CopyModeKeyAction::Terminal(TerminalCopyModeAction::Move(TerminalCopyModeMotion::NextWordEnd))),
        UiKey::V => Some(CopyModeKeyAction::Terminal(TerminalCopyModeAction::ToggleSelection)),
        UiKey::Y => Some(CopyModeKeyAction::Terminal(TerminalCopyModeAction::CopySelectionAndCancel)),
        UiKey::Q => Some(CopyModeKeyAction::Terminal(TerminalCopyModeAction::Cancel)),
        UiKey::Num0 => Some(CopyModeKeyAction::Terminal(TerminalCopyModeAction::Move(TerminalCopyModeMotion::StartOfLine))),
        _ => None,
    }
}

/// Whether a UI key may also produce a text event.
pub open spec fn ui_key_may_emit_text(key: UiKey) -> bool {
    match key {
        UiKey::Questionmark | UiKey::Slash | UiKey::A | UiKey::B | UiKey::C | UiKey::D | UiKey::E | UiKey::F | UiKey::G | UiKey::H | UiKey::I | UiKey::J | UiKey::K | UiKey::L | UiKey::M | UiKey::N | UiKey::O | UiKey::P | UiKey::Q | UiKey::R | UiKey::S | UiKey::T | UiKey::U | UiKey::V | UiKey::W | UiKey::X | UiKey::Y | UiKey::Z | UiKey::Num0 | UiKey::Num1 | UiKey::Num2 | UiKey::Num3 | UiKey::Num4 | UiKey::Num5 | UiKey::Num6 | UiKey::Num7 | UiKey::Num8 | UiKey::Num9 | UiKey::Space => true,
        _ => false,
    }
}

pub fn copy_mode_egui_key_may_emit_text(key: UiKey) -> (r: bool)
    ensures
        r == ui_key_may_emit_text(key),
{
    match key {
        UiKey::Questionmark | UiKey::Slash | UiKey::A | UiKey::B | UiKey::C | UiKey::D | UiKey::E | UiKey::F | UiKey::G | UiKey::H | UiKey::I | UiKey::J | UiKey::K | UiKey::L | UiKey::M | UiKey::N | UiKey::O | UiKey::P | UiKey::Q | UiKey::R | UiKey::S | UiKey::T | UiKey::U | UiKey::V | UiKey::W | UiKey::X | UiKey::Y | UiKey::Z | UiKey::Num0 | UiKey::Num1 | UiKey::Num2 | UiKey::Num3 | UiKey::Num4 | UiKey::Num5 | UiKey::Num6 | UiKey::Num7 | UiKey::Num8 | UiKey::Num9 | UiKey::Space => true,
        _ => false,
    }
}
/// The platform copy chord on the direct path: command+C without ctrl or alt, not a repeat.
pub open spec fn is_copy_shortcut(input: KeyInput) -> bool {
    &&& input.key == TerminalKey::C
    &&& input.mods.command
    &&& !input.mods.ctrl
    &&& !input.mods.alt
    &&& !input.repeat
}

pub fn direct_copy_shortcut_pressed(input: KeyInput) -> (r: bool)
    ensures
        r == is_copy_shortcut(input),
{
    input.key == TerminalKey::C && input.mods.command && !input.mods.ctrl && !input.mods.alt
        && !input.repeat
}

/// Whether a direct-path key skips copy mode and goes to the app's own keybindings: alt
/// chords, and command chords other than the copy chord.
pub open spec fn input_passes_to_app(input: KeyInput) -> bool {
    input.mods.alt || (input.mods.command && !is_copy_shortcut(input))
}

pub fn copy_mode_input_should_pass_to_app(input: KeyInput) -> (r: bool)
    ensures
        r == input_passes_to_app(input),
{
    input.mods.alt || (input.mods.command && !direct_copy_shortcut_pressed(input))
}

/// The one character of a text, if it has exactly one.
pub open spec fn single_char_of(s: Seq<char>) -> Option<char> {
    if s.len() == 1 {
        Some(s[0])
    } else {
        None
    }
}

pub fn single_char(value: &str) -> (r: Option<char>)
    ensures
        r == single_char_of(value@),
{
    if value.unicode_len() == 1 {
        Some(value.get_char(0))
    } else {
        None
    }
}

/// The copy-mode action of the text a key would type, when that text is one character.
pub open spec fn typed_char_action(utf8: Option<&str>) -> Option<CopyModeKeyAction> {
    match utf8 {
        Some(text) => match single_char_of(text@) {
            Some(ch) => char_action(ch),
            None => None,
        },
        None => None,
    }
}

fn copy_mode_typed_char_action(utf8: Option<&str>) -> (r: Option<CopyModeKeyAction>)
    ensures
        r == typed_char_action(utf8),
{
    match utf8 {
        Some(text) => match single_char(text) {
            Some(ch) => copy_mode_action_for_char(ch),
            None => None,
        },
        None => None,
    }
}

/// The copy-mode action of a direct-path key press: the copy chord copies and leaves; other
/// command and alt chords do nothing here; ctrl and shift chords, then plain keys, go through
/// their tables, and a shifted or plain key with no entry falls back to the character it types.
pub open spec fn input_action(input: KeyInput) -> Option<CopyModeKeyAction> {
    if is_copy_shortcut(input) {
        Some(CopyModeKeyAction::Terminal(TerminalCopyModeAction::CopySelectionAndCancel))
    } else if input.mods.command || input.mods.alt {
        None
    } else if input.mods.ctrl {
        ctrl_terminal_key_action(input.key)
    } else if input.mods.shift {
        match shift_terminal_key_action(input.key) {
            Some(action) => Some(action),
            None => typed_char_action(input.utf8),
        }
    } else {
        match plain_terminal_key_action(input.key) {
            Some(action) => Some(action),
            None => typed_char_action(input.utf8),
        }
    }
}

pub fn copy_mode_action_for_input(input: KeyInput) -> (r: Option<CopyModeKeyAction>)
    ensures
        r == input_action(input),
{
    if direct_copy_shortcut_pressed(input) {
        return Some(CopyModeKeyAction::Terminal(TerminalCopyModeAction::CopySelectionAndCancel));
    }
    if input.mods.command || input.mods.alt {
        return None;
    }
    if input.mods.ctrl {
        return copy_mode_ctrl_terminal_key_action(input.key);
    }
    if input.mods.shift {
        return match copy_mode_shift_terminal_key_action(input.key) {
            Some(action) => Some(action),
            None => copy_mode_typed_char_action(input.utf8),
        };
    }
    match copy_mode_terminal_key_action(input.key) {
        Some(action) => Some(action),
        None => copy_mode_typed_char_action(input.utf8),
    }
}

/// The platform copy chord on the UI path: command+C without ctrl or alt.
pub open spec fn is_ui_copy_chord(key: UiKey, modifiers: UiModifiers) -> bool {
    key == UiKey::C && modifiers.command && !modifiers.ctrl && !modifiers.alt
}

/// Whether a UI key event skips copy mode and goes to the app's own keybindings.
pub open spec fn ui_key_passes_to_app(key: UiKey, modifiers: UiModifiers) -> bool {
    modifiers.alt || (modifiers.command && !is_ui_copy_chord(key, modifiers))
}

pub fn copy_mode_egui_key_should_pass_to_app(key: UiKey, modifiers: UiModifiers) -> (r: bool)
    ensures
        r == ui_key_passes_to_app(key, modifiers),
{
    modifiers.alt || (modifiers.command && !(key == UiKey::C && modifiers.command
        && !modifiers.ctrl && !modifiers.alt))
}

/// The character a UI key types when pressed alone.
pub open spec fn ui_key_char(key: UiKey) -> Option<char> {
    match key {
        UiKey::A => Some('a'),
        UiKey::B => Some('b'),
        UiKey::C => Some('c'),
        UiKey::D => Some('d'),
        UiKey::E => Some('e'),
        UiKey::F => Some('f'),
        UiKey::G => Some('g'),
        UiKey::H => Some('h'),
        UiKey::I => Some('i'),
        UiKey::J => Some('j'),
        UiKey::K => Some('k'),
        UiKey::L => Some('l'),
        UiKey::M => Some('m'),
        UiKey::N => Some('n'),
        UiKey::O => Some('o'),
        UiKey::P => Some('p'),
        UiKey::Q => Some('q'),
        UiKey::R => Some('r'),
        UiKey::S => Some('s'),
        UiKey::T => Some('t'),
        UiKey::U => Some('u'),
        UiKey::V => Some('v'),
        UiKey::W => Some('w'),
        UiKey::X => Some('x'),
        UiKey::Y => Some('y'),
        UiKey::Z => Some('z'),
        UiKey::Num0 => Some('0'),
        UiKey::Num1 => Some('1'),
        UiKey::Num2 => Some('2'),
        UiKey::Num3 => Some('3'),
        UiKey::Num4 => Some('4'),
        UiKey::Num5 => Some('5'),
        UiKey::Num6 => Some('6'),
        UiKey::Num7 => Some('7'),
        UiKey::Num8 => Some('8'),
        UiKey::Num9 => Some('9'),
        _ => None,
    }
}

/// The character a UI key types with shift held (US layout).
pub open spec fn ui_key_shifted_char(key: UiKey) -> Option<char> {
    match key {
        UiKey::A => Some('A'),
        UiKey::B => Some('B'),
        UiKey::C => Some('C'),
        UiKey::D => Some('D'),
        UiKey::E => Some('E'),
        UiKey::F => Some('F'),
        UiKey::G => Some('G'),
        UiKey::H => Some('H'),
        UiKey::I => Some('I'),
        UiKey::J => Some('J'),
        UiKey::K => Some('K'),
        UiKey::L => Some('L'),
        UiKey::M => Some('M'),
        UiKey::N => Some('N'),
        UiKey::O => Some('O'),
        UiKey::P => Some('P'),
        UiKey::Q => Some('Q'),
        UiKey::R => Some('R'),
        UiKey::S => Some('S'),
        UiKey::T => Some('T'),
        UiKey::U => Some('U'),
        UiKey::V => Some('V'),
        UiKey::W => Some('W'),
        UiKey::X => Some('X'),
        UiKey::Y => Some('Y'),
        UiKey::Z => Some('Z'),
        UiKey::Num3 => Some('#'),
        UiKey::Num4 => Some('$'),
        UiKey::Num6 => Some('^'),
        UiKey::Num8 => Some('*'),
        UiKey::Slash => Some('?'),
        _ => None,
    }
}

/// The character a terminal key types when pressed alone.
pub open spec fn terminal_key_char(key: TerminalKey) -> Option<char> {
    match key {
        TerminalKey::A => Some('a'),
        TerminalKey::B => Some('b'),
        TerminalKey::C => Some('c'),
        TerminalKey::D => Some('d'),
        TerminalKey::E => Some('e'),
        TerminalKey::F => Some('f'),
        TerminalKey::G => Some('g'),
        TerminalKey::H => Some('h'),
        TerminalKey::I => Some('i'),
        TerminalKey::J => Some('j'),
        TerminalKey::K => Some('k'),
        TerminalKey::L => Some('l'),
        TerminalKey::M => Some('m'),
        TerminalKey::N => Some('n'),
        TerminalKey::O => Some('o'),
        TerminalKey::P => Some('p'),
        TerminalKey::Q => Some('q'),
        TerminalKey::R => Some('r'),
        TerminalKey::S => Some('s'),
        TerminalKey::T => Some('t'),
        TerminalKey::U => Some('u'),
        TerminalKey::V => Some('v'),
        TerminalKey::W => Some('w'),
        TerminalKey::X => Some('x'),
        TerminalKey::Y => Some('y'),
        TerminalKey::Z => Some('z'),
        TerminalKey::Digit0 => Some('0'),
        TerminalKey::Digit1 => Some('1'),
        TerminalKey::Digit2 => Some('2'),
        TerminalKey::Digit3 => Some('3'),
        TerminalKey::Digit4 => Some('4'),
        TerminalKey::Digit5 => Some('5'),
        TerminalKey::Digit6 => Some('6'),
        TerminalKey::Digit7 => Some('7'),
        TerminalKey::Digit8 => Some('8'),
        TerminalKey::Digit9 => Some('9'),
        TerminalKey::Numpad0 => Some('0'),
        _ => None,
    }
}

pub open spec fn no_ui_modifiers() -> UiModifiers {
    UiModifiers { alt: false, ctrl: false, shift: false, mac_cmd: false, command: false }
}

pub open spec fn shift_only() -> UiModifiers {
    UiModifiers { alt: false, ctrl: false, shift: true, mac_cmd: false, command: false }
}

/// In copy mode a letter or digit key does what typing its character does: on the direct path
/// for every such key, and on the UI path for every one but `o`, which acts through the text
/// event the key also produces. With shift held, a UI key that acts at all does what typing its
/// shifted character does.
pub proof fn lemma_keys_act_as_their_characters(ui: UiKey, tk: TerminalKey)
    ensures
        ui != UiKey::O ==> (ui_key_char(ui) matches Some(c) ==> ui_key_action(ui, no_ui_modifiers())
            == char_action(c)),
        ui == UiKey::O ==> ui_key_action(ui, no_ui_modifiers()) is None && ui_key_may_emit_text(ui),
        ui_key_action(ui, shift_only()) is Some ==> (ui_key_shifted_char(ui) matches Some(c)
            ==> ui_key_action(ui, shift_only()) == char_action(c)),
        terminal_key_char(tk) matches Some(c) ==> plain_terminal_key_action(tk) == char_action(c),
{
}

/// The two input paths agree: a letter or digit key does the same in copy mode whether it
/// comes from the UI toolkit or the direct key path, alone, with ctrl or with shift (a UI `o`
/// acts through its text instead).
pub proof fn lemma_input_paths_agree(ui: UiKey, tk: TerminalKey)
    requires
        ui_key_char(ui) is Some,
        ui_key_char(ui) == terminal_key_char(tk),
    ensures
        ctrl_ui_key_action(ui) == ctrl_terminal_key_action(tk),
        shift_ui_key_action(ui) == shift_terminal_key_action(tk),
        ui != UiKey::O ==> plain_ui_key_action(ui) == plain_terminal_key_action(tk),
{
}

/// The copy-mode action of a UI key press.
pub open spec fn ui_key_action(key: UiKey, modifiers: UiModifiers) -> Option<CopyModeKeyAction> {
    if is_ui_copy_chord(key, modifiers) {
        Some(CopyModeKeyAction::Terminal(TerminalCopyModeAction::CopySelectionAndCancel))
    } else if modifiers.command || modifiers.alt {
        None
    } else if modifiers.ctrl {
        ctrl_ui_key_action(key)
    } else if key == UiKey::Questionmark {
        Some(CopyModeKeyAction::SearchPrompt(TerminalSearchDirection::Previous))
    } else if key == UiKey::Slash && modifiers.shift {
        Some(CopyModeKeyAction::SearchPrompt(TerminalSearchDirection::Previous))
    } else if key == UiKey::Slash {
        Some(CopyModeKeyAction::SearchPrompt(TerminalSearchDirection::Next))
    } else if key == UiKey::Num3 && modifiers.shift {
        Some(CopyModeKeyAction::SearchWord(TerminalSearchDirection::Previous))
    } else if key == UiKey::Num8 && modifiers.shift {
        Some(CopyModeKeyAction::SearchWord(TerminalSearchDirection::Next))
    } else if modifiers.shift {
        shift_ui_key_action(key)
    } else {
        plain_ui_key_action(key)
    }
}

pub fn copy_mode_action_for_egui_key(key: UiKey, modifiers: UiModifiers) -> (r: Option<
    CopyModeKeyAction,
>)
    ensures
        r == ui_key_action(key, modifiers),
{
    if key == UiKey::C && modifiers.command && !modifiers.ctrl && !modifiers.alt {
        return Some(CopyModeKeyAction::Terminal(TerminalCopyModeAction::CopySelectionAndCancel));
    }
    if modifiers.command || modifiers.alt {
        return None;
    }
    if modifiers.ctrl {
        return copy_mode_ctrl_key_action(key);
    }
    if key == UiKey::Questionmark {
        return Some(CopyModeKeyAction::SearchPrompt(TerminalSearchDirection::Previous));
    }
    if key == UiKey::Slash && modifiers.shift {
        return Some(CopyModeKeyAction::SearchPrompt(TerminalSearchDirection::Previous));
    }
    if key == UiKey::Slash {
        return Some(CopyModeKeyAction::SearchPrompt(TerminalSearchDirection::Next));
    }
    if key == UiKey::Num3 && modifiers.shift {
        return Some(CopyModeKeyAction::SearchWord(TerminalSearchDirection::Previous));
    }
    if key == UiKey::Num8 && modifiers.shift {
        return Some(CopyModeKeyAction::SearchWord(TerminalSearchDirection::Next));
    }
    if modifiers.shift {
        return copy_mode_shift_ui_key_action(key);
    }
    copy_mode_plain_ui_key_action(key)
}

/// The action of the first character of `s` that has one.
pub open spec fn first_char_action(s: Seq<char>) -> Option<CopyModeKeyAction>
    decreases s.len(),
{
    if s.len() == 0 {
        None
    } else {
        match char_action(s[0]) {
            Some(action) => Some(action),
            None => first_char_action(s.drop_first()),
        }
    }
}

proof fn lemma_first_char_action_skip(s: Seq<char>, i: int)
    requires
        0 <= i < s.len(),
        forall|j: int| 0 <= j < i ==> char_action(#[trigger] s[j]) is None,
    ensures
        first_char_action(s) == first_char_action(s.subrange(i, s.len() as int)),
    decreases i,
{
    if i > 0 {
        assert(char_action(s[0]) is None);
        let rest = s.drop_first();
        assert forall|j: int| 0 <= j < i - 1 implies char_action(#[trigger] rest[j]) is None by {
            assert(rest[j] == s[j + 1]);
        }
        lemma_first_char_action_skip(rest, i - 1);
        assert(rest.subrange(i - 1, rest.len() as int) =~= s.subrange(i, s.len() as int));
    } else {
        assert(s.subrange(0, s.len() as int) =~= s);
    }
}

proof fn lemma_first_char_action_none(s: Seq<char>)
    requires
        forall|j: int| 0 <= j < s.len() ==> char_action(#[trigger] s[j]) is None,
    ensures
        first_char_action(s) is None,
    decreases s.len(),
{
    if s.len() > 0 {
        let rest = s.drop_first();
        assert forall|j: int| 0 <= j < rest.len() implies char_action(#[trigger] rest[j]) is None by {
            assert(rest[j] == s[j + 1]);
        }
        lemma_first_char_action_none(rest);
    }
}

fn copy_mode_first_char_action(text: &str) -> (r: Option<CopyModeKeyAction>)
    ensures
        r == first_char_action(text@),
{
    let n = text.unicode_len();
    let mut i: usize = 0;
    while i < n
        invariant
            n == text@.len(),
            i <= n,
            forall|j: int| 0 <= j < i ==> char_action(#[trigger] text@[j]) is None,
        decreases n - i,
    {
        let ch = text.get_char(i);
        let action = copy_mode_action_for_char(ch);
        if action.is_some() {
            proof {
                lemma_first_char_action_skip(text@, i as int);
                let rest = text@.subrange(i as int, text@.len() as int);
                assert(rest[0] == ch);
            }
            return action;
        }
        i = i + 1;
    }
    proof {
        lemma_first_char_action_none(text@);
    }
    None
}

/// The action of a UI event and whether the text event right after it is to be ignored.
/// A pressed key with an action that may also type text suppresses that text, so the key is
/// not acted on twice; a text event acts through its first character with an action.
pub open spec fn ui_event_action(event: UiEvent, suppress_next_text: bool) -> (
    Option<CopyModeKeyAction>,
    bool,
) {
    match event {
        UiEvent::Key { key, pressed, modifiers, .. } => {
            if pressed {
                let action = ui_key_action(key, modifiers);
                (action, action is Some && ui_key_may_emit_text(key))
            } else {
                (None, suppress_next_text)
            }
        },
        UiEvent::Text(text) => {
            if suppress_next_text {
                (None, false)
            } else {
                (first_char_action(text@), false)
            }
        },
        UiEvent::Other(_) | UiEvent::Paste(_) => (None, suppress_next_text),
    }
}

pub fn copy_mode_action_for_egui_event(event: &UiEvent, suppress_next_text: &mut bool) -> (r:
    Option<CopyModeKeyAction>)
    ensures
        (r, *final(suppress_next_text)) == ui_event_action(*event, *old(suppress_next_text)),
{
    match event {
        UiEvent::Key { key, pressed, modifiers, .. } => {
            if *pressed {
                let action = copy_mode_action_for_egui_key(*key, *modifiers);
                *suppress_next_text = action.is_some() && copy_mode_egui_key_may_emit_text(*key);
                action
            } else {
                None
            }
        },
        UiEvent::Text(text) => {
            if *suppress_next_text {
                *suppress_next_text = false;
                None
            } else {
                copy_mode_first_char_action(text.as_str())
            }
        },
        UiEvent::Other(_) | UiEvent::Paste(_) => None,
    }
}

/// The platform copy chord as a UI key event: command+C pressed, not a repeat, without ctrl or
/// alt.
pub open spec fn is_ui_copy_shortcut(event: UiEvent) -> bool {
    match event {
        UiEvent::Key { key, pressed, repeat, modifiers } => pressed && !repeat
            && is_ui_copy_chord(key, modifiers),
        _ => false,
    }
}

pub fn copy_shortcut_pressed(event: &UiEvent) -> (r: bool)
    ensures
        r == is_ui_copy_shortcut(*event),
{
    match event {
        UiEvent::Key { key, pressed, repeat, modifiers } => *pressed && !*repeat && *key
            == UiKey::C && modifiers.command && !modifiers.ctrl && !modifiers.alt,
        _ => false,
    }
}

/// Whether an event is a key or a text event: the kinds copy mode reads.
pub open spec fn is_key_or_text(event: UiEvent) -> bool {
    event is Key || event is Text
}

pub fn copy_mode_key_input_present(events: &[UiEvent]) -> (r: bool)
    ensures
        r == exists|i: int| 0 <= i < events@.len() && is_key_or_text(#[trigger] events@[i]),
{
    let mut i: usize = 0;
    while i < events.len()
        invariant
            i <= events@.len(),
            forall|j: int| 0 <= j < i ==> !is_key_or_text(#[trigger] events@[j]),
        decreases events@.len() - i,
    {
        match &events[i] {
            UiEvent::Key { .. } | UiEvent::Text(_) => {
                return true;
            },
            UiEvent::Other(_) | UiEvent::Paste(_) => {},
        }
        i = i + 1;
    }
    false
}

/// One event's routing while copy mode listens: the suppression and pass-through flags after
/// it, whether the event stays in the stream for the app, and the copy-mode action it triggers.
/// Key presses that belong to the app stay, and so does the text right after one that may type;
/// other key and text events are taken by copy mode; every other event stays.
pub open spec fn route_step(suppress_next_text: bool, pass_next_text: bool, event: UiEvent) -> (
    bool,
    bool,
    bool,
    Option<CopyModeKeyAction>,
) {
    match event {
        UiEvent::Key { key, pressed, modifiers, .. } => {
            if pressed && ui_key_passes_to_app(key, modifiers) {
                (suppress_next_text, ui_key_may_emit_text(key), true, None)
            } else {
                let (action, suppress) = ui_event_action(event, suppress_next_text);
                (suppress, false, false, action)
            }
        },
        UiEvent::Text(_) => {
            if pass_next_text {
                (suppress_next_text, false, true, None)
            } else {
                let (action, suppress) = ui_event_action(event, suppress_next_text);
                (suppress, false, false, action)
            }
        },
        UiEvent::Other(_) | UiEvent::Paste(_) => (suppress_next_text, false, true, None),
    }
}

/// Routing a whole stream: the flags after it, the events left for the app, the copy-mode
/// actions in order, and how many events copy mode took.
pub open spec fn route_events(events: Seq<UiEvent>) -> (
    bool,
    bool,
    Seq<UiEvent>,
    Seq<CopyModeKeyAction>,
    nat,
)
    decreases events.len(),
{
    if events.len() == 0 {
        (false, false, Seq::empty(), Seq::empty(), 0)
    } else {
        let prev = route_events(events.drop_last());
        let step = route_step(prev.0, prev.1, events.last());
        (
            step.0,
            step.1,
            if step.2 {
                prev.2.push(events.last())
            } else {
                prev.2
            },
            match step.3 {
                Some(action) => prev.3.push(action),
                None => prev.3,
            },
            if step.2 {
                prev.4
            } else {
                prev.4 + 1
            },
        )
    }
}

/// What copy mode made of one frame's UI events.
pub struct CopyModeRouting {
    /// The events left for the rest of the input pipeline, in order.
    pub retained: Vec<UiEvent>,
    /// The copy-mode actions to apply, in order.
    pub actions: Vec<CopyModeKeyAction>,
    /// How many events copy mode took.
    pub consumed: usize,
}

/// Take copy mode's key and text events out of one frame's UI events. `listening` says whether
/// copy mode reads this frame's events at all: the terminal owns input, no find bar has the
/// focus, and copy mode is active. Without it, or without any key or text event, nothing is
/// taken.
pub fn consume_copy_mode_events(events: Vec<UiEvent>, listening: bool) -> (r: CopyModeRouting)
    ensures
        if !listening || !(exists|i: int|
            0 <= i < events@.len() && is_key_or_text(#[trigger] events@[i])) {
            &&& r.retained@ == events@
            &&& r.actions@.len() == 0
            &&& r.consumed == 0
        } else {
            let routed = route_events(events@);
            &&& r.retained@ == routed.2
            &&& r.actions@ == routed.3
            &&& r.consumed == routed.4
        },
{
    if !listening || !copy_mode_key_input_present(events.as_slice()) {
        return CopyModeRouting { retained: events, actions: Vec::new(), consumed: 0 };
    }
    let ghost incoming = events@;
    let mut rest = events;
    let mut retained: Vec<UiEvent> = Vec::new();
    let mut actions: Vec<CopyModeKeyAction> = Vec::new();
    let mut consumed: usize = 0;
    let mut suppress_next_text = false;
    let mut pass_next_text = false;
    let ghost mut i: int = 0;
    assert(incoming.len() == rest.len());
    while rest.len() > 0
        invariant
            0 <= i <= incoming.len(),
            incoming.len() <= usize::MAX,
            rest@ == incoming.subrange(i, incoming.len() as int),
            ({
                let routed = route_events(incoming.subrange(0, i));
                &&& suppress_next_text == routed.0
                &&& pass_next_text == routed.1
                &&& retained@ == routed.2
                &&& actions@ == routed.3
                &&& consumed == routed.4
            }),
            consumed <= i,
        decreases rest@.len(),
    {
        let event = rest.remove(0);
        proof {
            assert(event == incoming[i]);
            assert(incoming.subrange(0, i + 1).drop_last() =~= incoming.subrange(0, i));
            assert(incoming.subrange(0, i + 1).last() == incoming[i]);
        }
        let pass_key = match &event {
            UiEvent::Key { key, pressed, modifiers, .. } => *pressed
                && copy_mode_egui_key_should_pass_to_app(*key, *modifiers),
            _ => false,
        };
        if pass_key {
            pass_next_text = match &event {
                UiEvent::Key { key, .. } => copy_mode_egui_key_may_emit_text(*key),
                _ => false,
            };
            retained.push(event);
        } else {
            let is_text = match &event {
                UiEvent::Text(_) => true,
                _ => false,
            };
            let is_other = match &event {
                UiEvent::Other(_) | UiEvent::Paste(_) => true,
                _ => false,
            };
            if is_text && pass_next_text {
                pass_next_text = false;
                retained.push(event);
            } else if is_other {
                pass_next_text = false;
                retained.push(event);
            } else {
                pass_next_text = false;
                consumed = consumed + 1;
                let action = copy_mode_action_for_egui_event(&event, &mut suppress_next_text);
                match action {
                    Some(a) => actions.push(a),
                    None => {},
                }
            }
        }
        proof {
            i = i + 1;
            assert(rest@ =~= incoming.subrange(i, incoming.len() as int));
        }
    }
    proof {
        assert(incoming.subrange(0, i) =~= incoming);
    }
    CopyModeRouting { retained, actions, consumed }
}

/// Every event of a frame is either left for the app or taken by copy mode, and copy mode acts
/// at most once per event it takes.
pub proof fn lemma_routing_accounts_for_every_event(events: Seq<UiEvent>)
    ensures
        route_events(events).2.len() + route_events(events).4 == events.len(),
        route_events(events).3.len() <= route_events(events).4,
    decreases events.len(),
{
    if events.len() > 0 {
        lemma_routing_accounts_for_every_event(events.drop_last());
    }
}

/// Keys that belong to the app's own keybindings never act in copy mode, on the direct path.
pub proof fn lemma_app_keys_have_no_copy_mode_action(input: KeyInput)
    requires
        input_passes_to_app(input),
    ensures
        input_action(input) is None,
{
}

/// Keys that belong to the app's own keybindings never act in copy mode, on the UI path.
pub proof fn lemma_app_ui_keys_have_no_copy_mode_action(key: UiKey, modifiers: UiModifiers)
    requires
        ui_key_passes_to_app(key, modifiers),
    ensures
        ui_key_action(key, modifiers) is None,
{
}

/// The copy chord stays in copy mode and copies the selection, on both input paths.
pub proof fn lemma_copy_chord_copies_selection(input: KeyInput, modifiers: UiModifiers)
    ensures
        is_copy_shortcut(input) ==> !input_passes_to_app(input) && input_action(input) == Some(
            CopyModeKeyAction::Terminal(TerminalCopyModeAction::CopySelectionAndCancel),
        ),
        is_ui_copy_chord(UiKey::C, modifiers) ==> !ui_key_passes_to_app(UiKey::C, modifiers)
            && ui_key_action(UiKey::C, modifiers) == Some(
            CopyModeKeyAction::Terminal(TerminalCopyModeAction::CopySelectionAndCancel),
        ),
{
}

/// A same-direction repeat walks the way the search started; two opposite repeats of a
/// search that walks one way come back to that way; an opposite repeat never stays put.
pub proof fn lemma_repeat_directions(started: TerminalSearchDirection)
    ensures
        repeat_direction(CopyModeSearchRepeat::SameDirection, started) == started,
        repeat_direction(CopyModeSearchRepeat::OppositeDirection, started)
            != TerminalSearchDirection::Current,
        started != TerminalSearchDirection::Current ==> repeat_direction(
            CopyModeSearchRepeat::OppositeDirection,
            repeat_direction(CopyModeSearchRepeat::OppositeDirection, started),
        ) == started,
{
}

/// The direction a copy-mode search started in. Search repeats walk relative to it; only an
/// explicit search in a direction changes it.
pub struct TerminalSearchMemory {
    pub last_direction: TerminalSearchDirection,
}

impl TerminalSearchMemory {
    pub fn new() -> (r: Self)
        ensures
            r.last_direction == TerminalSearchDirection::Next,
    {
        TerminalSearchMemory { last_direction: TerminalSearchDirection::Next }
    }

    /// Remember the direction of an explicit search; a search at the current match changes
    /// nothing.
    pub fn record(&mut self, direction: TerminalSearchDirection)
        ensures
            final(self).last_direction == if direction == TerminalSearchDirection::Current {
                old(self).last_direction
            } else {
                direction
            },
    {
        if direction != TerminalSearchDirection::Current {
            self.last_direction = direction;
        }
    }

    /// The direction a repeat walks now.
    pub fn repeat(&self, repeat: CopyModeSearchRepeat) -> (r: TerminalSearchDirection)
        ensures
            r == repeat_direction(repeat, self.last_direction),
    {
        repeat.direction(self.last_direction)
    }
}

/// The place of the first paste event.
pub open spec fn first_paste_from(events: Seq<UiEvent>, start: int) -> Option<int>
    decreases events.len() - start,
{
    if start < 0 || start >= events.len() {
        None
    } else if events[start] is Paste {
        Some(start)
    } else {
        first_paste_from(events, start + 1)
    }
}

proof fn lemma_first_paste_in_range(events: Seq<UiEvent>, start: int)
    ensures
        first_paste_from(events, start) matches Some(i) ==> start <= i < events.len(),
    decreases events.len() - start,
{
    if start >= 0 && start < events.len() && !(events[start] is Paste) {
        lemma_first_paste_in_range(events, start + 1);
    }
}

/// Takes the first paste event out of a frame's events (the paste already went to the
/// terminal); whether there was one.
pub fn remove_first_paste_event(events: &mut Vec<UiEvent>) -> (r: bool)
    ensures
        r == first_paste_from(old(events)@, 0) is Some,
        match first_paste_from(old(events)@, 0) {
            Some(i) => final(events)@ == old(events)@.remove(i),
            None => final(events)@ == old(events)@,
        },
{
    let mut i: usize = 0;
    while i < events.len()
        invariant
            events@ == old(events)@,
            i <= events@.len(),
            first_paste_from(events@, 0) == first_paste_from(events@, i as int),
        decreases events@.len() - i,
    {
        let is_paste = match &events[i] {
            UiEvent::Paste(_) => true,
            _ => false,
        };
        if is_paste {
            proof {
                lemma_first_paste_in_range(events@, 0);
            }
            events.remove(i);
            return true;
        }
        i = i + 1;
    }
    false
}

} // verus!
