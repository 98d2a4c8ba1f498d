//! The terminal's mouse pointer: the shape a program asks for (OSC 22) and hiding the pointer
//! while the user types.
use vstd::prelude::*;

use crate::text::{chars_of, lower_char, to_ascii_lower};

verus! {

/// A mouse-pointer shape.
#[derive(Clone, Copy, Debug, PartialEq, Eq, Structural)]
pub enum CursorIcon {
    Default,
    Hidden,
    PointingHand,
    Text,
    VerticalText,
    Crosshair,
    Help,
    Wait,
    Progress,
    Cell,
    Copy,
    Alias,
    Move,
    NoDrop,
    NotAllowed,
    Grab,
    Grabbing,
    AllScroll,
    ResizeHorizontal,
    ResizeVertical,
    ResizeNeSw,
    ResizeNwSe,
    ResizeEast,
    ResizeSouth,
    ResizeWest,
    ResizeNorth,
    ResizeNorthEast,
    ResizeNorthWest,
    ResizeSouthEast,
    ResizeSouthWest,
    ZoomIn,
    ZoomOut,
}

/// The pointer shape a token of a mouse-shape request names, if any.
pub open spec fn icon_for_token(t: Seq<char>) -> Option<CursorIcon> {
    if t == "default"@ || t == "reset"@ || t == "arrow"@ {
        Some(CursorIcon::Default)
    } else if t == "none"@ || t == "hidden"@ {
        Some(CursorIcon::Hidden)
    } else if t == "pointer"@ || t == "hand"@ || t == "pointing-hand"@ {
        Some(CursorIcon::PointingHand)
    } else if t == "text"@ || t == "ibeam"@ || t == "i-beam"@ {
        Some(CursorIcon::Text)
    } else if t == "vertical-text"@ {
        Some(CursorIcon::VerticalText)
    } else if t == "crosshair"@ {
        Some(CursorIcon::Crosshair)
    } else if t == "help"@ {
        Some(CursorIcon::Help)
    } else if t == "wait"@ {
        Some(CursorIcon::Wait)
    } else if t == "progress"@ {
        Some(CursorIcon::Progress)
    } else if t == "cell"@ {
        Some(CursorIcon::Cell)
    } else if t == "copy"@ {
        Some(CursorIcon::Copy)
    } else if t == "alias"@ {
        Some(CursorIcon::Alias)
    } else if t == "move"@ {
        Some(CursorIcon::Move)
    } else if t == "no-drop"@ {
        Some(CursorIcon::NoDrop)
    } else if t == "not-allowed"@ || t == "forbidden"@ {
        Some(CursorIcon::NotAllowed)
    } else if t == "grab"@ {
        Some(CursorIcon::Grab)
    } else if t == "grabbing"@ {
        Some(CursorIcon::Grabbing)
    } else if t == "all-scroll"@ {
        Some(CursorIcon::AllScroll)
    } else if t == "ew-resize"@ || t == "col-resize"@ || t == "resize-horizontal"@ {
        Some(CursorIcon::ResizeHorizontal)
    } else if t == "ns-resize"@ || t == "row-resize"@ || t == "resize-vertical"@ {
        Some(CursorIcon::ResizeVertical)
    } else if t == "nesw-resize"@ || t == "resize-nesw"@ {
        Some(CursorIcon::ResizeNeSw)
    } else if t == "nwse-resize"@ || t == "resize-nwse"@ {
        Some(CursorIcon::ResizeNwSe)
    } else if t == "e-resize"@ || t == "resize-east"@ {
        Some(CursorIcon::ResizeEast)
    } else if t == "s-resize"@ || t == "resize-south"@ {
        Some(CursorIcon::ResizeSouth)
    } else if t == "w-resize"@ || t == "resize-west"@ {
        Some(CursorIcon::ResizeWest)
    } else if t == "n-resize"@ || t == "resize-north"@ {
        Some(CursorIcon::ResizeNorth)
    } else if t == "ne-resize"@ || t == "resize-north-east"@ {
        Some(CursorIcon::ResizeNorthEast)
    } else if t == "nw-resize"@ || t == "resize-north-west"@ {
        Some(CursorIcon::ResizeNorthWest)
    } else if t == "se-resize"@ || t == "resize-south-east"@ {
        Some(CursorIcon::ResizeSouthEast)
    } else if t == "sw-resize"@ || t == "resize-south-west"@ {
        Some(CursorIcon::ResizeSouthWest)
    } else if t == "zoom-in"@ {
        Some(CursorIcon::ZoomIn)
    } else if t == "zoom-out"@ {
        Some(CursorIcon::ZoomOut)
    } else {
        None
    }
}

/// Whether `cs[start..end]` holds exactly the characters of `lit`.
fn token_is(cs: &Vec<char>, start: usize, end: usize, lit: &str) -> (r: bool)
    requires
        start <= end <= cs@.len(),
    ensures
        r == (cs@.subrange(start as int, end as int) == lit@),
{
    let n = lit.unicode_len();
    if end - start != n {
        return false;
    }
    let mut i: usize = 0;
    while i < n
        invariant
            start <= end <= cs@.len(),
            end - start == n == lit@.len(),
            i <= n,
            forall|j: int| 0 <= j < i ==> cs@[start + j] == lit@[j],
        decreases n - i,
    {
        if cs[start + i] != lit.get_char(i) {
            assert(cs@.subrange(start as int, end as int)[i as int] != lit@[i as int]);
            return false;
        }
        i = i + 1;
    }
    assert(cs@.subrange(start as int, end as int) =~= lit@);
    true
}

fn icon_for_token_exec(cs: &Vec<char>, start: usize, end: usize) -> (r: Option<CursorIcon>)
    requires
        start <= end <= cs@.len(),
    ensures
        r == icon_for_token(cs@.subrange(start as int, end as int)),
{
    if token_is(cs, start, end, "default") || token_is(cs, start, end, "reset") || token_is(cs, start, end, "arrow") {
        return Some(CursorIcon::Default);
    }
    if token_is(cs, start, end, "none") || token_is(cs, start, end, "hidden") {
        return Some(CursorIcon::Hidden);
    }
    if token_is(cs, start, end, "pointer") || token_is(cs, start, end, "hand") || token_is(cs, start, end, "pointing-hand") {
        return Some(CursorIcon::PointingHand);
    }
    if token_is(cs, start, end, "text") || token_is(cs, start, end, "ibeam") || token_is(cs, start, end, "i-beam") {
        return Some(CursorIcon::Text);
    }
    if token_is(cs, start, end, "vertical-text") {
        return Some(CursorIcon::VerticalText);
    }
    if token_is(cs, start, end, "crosshair") {
        return Some(CursorIcon::Crosshair);
    }
    if token_is(cs, start, end, "help") {
        return Some(CursorIcon::Help);
    }
    if token_is(cs, start, end, "wait") {
        return Some(CursorIcon::Wait);
    }
    if token_is(cs, start, end, "progress") {
        return Some(CursorIcon::Progress);
    }
    if token_is(cs, start, end, "cell") {
        return Some(CursorIcon::Cell);
    }
    if token_is(cs, start, end, "copy") {
        return Some(CursorIcon::Copy);
    }
    if token_is(cs, start, end, "alias") {
        return Some(CursorIcon::Alias);
    }
    if token_is(cs, start, end, "move") {
        return Some(CursorIcon::Move);
    }
    if token_is(cs, start, end, "no-drop") {
        return Some(CursorIcon::NoDrop);
    }
    if token_is(cs, start, end, "not-allowed") || token_is(cs, start, end, "forbidden") {
        return Some(CursorIcon::NotAllowed);
    }
    if token_is(cs, start, end, "grab") {
        return Some(CursorIcon::Grab);
    }
    if token_is(cs, start, end, "grabbing") {
        return Some(CursorIcon::Grabbing);
    }
    if token_is(cs, start, end, "all-scroll") {
        return Some(CursorIcon::AllScroll);
    }
    if token_is(cs, start, end, "ew-resize") || token_is(cs, start, end, "col-resize") || token_is(cs, start, end, "resize-horizontal") {
        return Some(CursorIcon::ResizeHorizontal);
    }
    if token_is(cs, start, end, "ns-resize") || token_is(cs, start, end, "row-resize") || token_is(cs, start, end, "resize-vertical") {
        return Some(CursorIcon::ResizeVertical);
    }
    if token_is(cs, start, end, "nesw-resize") || token_is(cs, start, end, "resize-nesw") {
        return Some(CursorIcon::ResizeNeSw);
    }
    if token_is(cs, start, end, "nwse-resize") || token_is(cs, start, end, "resize-nwse") {
        return Some(CursorIcon::ResizeNwSe);
    }
    if token_is(cs, start, end, "e-resize") || token_is(cs, start, end, "resize-east") {
        return Some(CursorIcon::ResizeEast);
    }
    if token_is(cs, start, end, "s-resize") || token_is(cs, start, end, "resize-south") {
        return Some(CursorIcon::ResizeSouth);
    }
    if token_is(cs, start, end, "w-resize") || token_is(cs, start, end, "resize-west") {
        return Some(CursorIcon::ResizeWest);
    }
    if token_is(cs, start, end, "n-resize") || token_is(cs, start, end, "resize-north") {
        return Some(CursorIcon::ResizeNorth);
    }
    if token_is(cs, start, end, "ne-resize") || token_is(cs, start, end, "resize-north-east") {
        return Some(CursorIcon::ResizeNorthEast);
    }
    if token_is(cs, start, end, "nw-resize") || token_is(cs, start, end, "resize-north-west") {
        return Some(CursorIcon::ResizeNorthWest);
    }
    if token_is(cs, start, end, "se-resize") || token_is(cs, start, end, "resize-south-east") {
        return Some(CursorIcon::ResizeSouthEast);
    }
    if token_is(cs, start, end, "sw-resize") || token_is(cs, start, end, "resize-south-west") {
        return Some(CursorIcon::ResizeSouthWest);
    }
    if token_is(cs, start, end, "zoom-in") {
        return Some(CursorIcon::ZoomIn);
    }
    if token_is(cs, start, end, "zoom-out") {
        return Some(CursorIcon::ZoomOut);
    }
    None
}
/// A mouse-shape request is read case-insensitively, with `_` and `-` alike.
pub open spec fn normalize_shape_char(c: char) -> char {
    if c == '_' {
        '-'
    } else {
        lower_char(c)
    }
}

/// The characters that separate the tokens of a mouse-shape request.
pub open spec fn is_shape_separator(c: char) -> bool {
    c == ';' || c == ',' || c == ':' || c == '=' || c == ' '
}

/// Scanning a normalized request from position `i`, inside the token that began at `start`:
/// the first token (in order) that names a pointer shape decides.
pub open spec fn scan_shape(s: Seq<char>, start: int, i: int) -> Option<CursorIcon>
    decreases s.len() - i,
{
    if i >= s.len() || i < start || start < 0 {
        if 0 <= start <= s.len() {
            icon_for_token(s.subrange(start, s.len() as int))
        } else {
            None
        }
    } else if is_shape_separator(s[i]) {
        match icon_for_token(s.subrange(start, i)) {
            Some(icon) => Some(icon),
            None => scan_shape(s, i + 1, i + 1),
        }
    } else {
        scan_shape(s, start, i + 1)
    }
}

/// The pointer shape a mouse-shape request (such as `shape=pointing_hand` or `ew-resize`)
/// asks for: its first token that names one.
pub open spec fn mouse_shape_icon(shape: Seq<char>) -> Option<CursorIcon> {
    scan_shape(normalized_shape(shape), 0, 0)
}

/// A mouse-shape request with every character normalized.
pub open spec fn normalized_shape(shape: Seq<char>) -> Seq<char> {
    shape.map_values(|c: char| normalize_shape_char(c))
}

pub fn terminal_cursor_icon_for_mouse_shape(shape: &str) -> (r: Option<CursorIcon>)
    ensures
        r == mouse_shape_icon(shape@),
{
    let raw = chars_of(shape);
    let ghost norm = normalized_shape(shape@);
    let mut cs: Vec<char> = Vec::new();
    let mut k: usize = 0;
    while k < raw.len()
        invariant
            raw@ == shape@,
            norm.len() == raw@.len(),
            forall|j: int| 0 <= j < norm.len() ==> norm[j] == normalize_shape_char(#[trigger] raw@[j]),
            k <= raw@.len(),
            cs@ == norm.subrange(0, k as int),
        decreases raw@.len() - k,
    {
        let c = raw[k];
        let n = if c == '_' {
            '-'
        } else {
            to_ascii_lower(c)
        };
        cs.push(n);
        k = k + 1;
        assert(cs@ =~= norm.subrange(0, k as int));
    }
    assert(cs@ =~= norm);
    let len = cs.len();
    let mut start: usize = 0;
    let mut i: usize = 0;
    while i < len
        invariant
            cs@ == norm,
            norm == normalized_shape(shape@),
            len == cs@.len(),
            start <= i <= len,
            scan_shape(norm, 0, 0) == scan_shape(norm, start as int, i as int),
        decreases len - i,
    {
        let c = cs[i];
        if c == ';' || c == ',' || c == ':' || c == '=' || c == ' ' {
            let icon = icon_for_token_exec(&cs, start, i);
            if icon.is_some() {
                assert(is_shape_separator(norm[i as int]));
                assert(scan_shape(norm, start as int, i as int) == icon);
                return icon;
            }
            start = i + 1;
        }
        i = i + 1;
    }
    icon_for_token_exec(&cs, start, len)
}

/// The terminal's pointer: the shape the program last asked for, and whether it is hidden
/// because the user is typing.
pub struct TerminalPointer {
    pub icon: CursorIcon,
    pub hidden_while_typing: bool,
}

/// The pointer shape to show.
pub open spec fn shown_icon(p: TerminalPointer) -> CursorIcon {
    if p.hidden_while_typing {
        CursorIcon::Hidden
    } else {
        p.icon
    }
}

impl TerminalPointer {
    /// A visible text pointer.
    pub fn new() -> (r: Self)
        ensures
            r.icon == CursorIcon::Text,
            !r.hidden_while_typing,
    {
        TerminalPointer { icon: CursorIcon::Text, hidden_while_typing: false }
    }

    pub fn effective_icon(&self) -> (r: CursorIcon)
        ensures
            r == shown_icon(*self),
    {
        if self.hidden_while_typing {
            CursorIcon::Hidden
        } else {
            self.icon
        }
    }

    /// Hide or show the pointer for typing; hiding only happens when the setting allows it.
    /// Returns the shape to show when it changed.
    pub fn set_hidden_while_typing(&mut self, hidden: bool, setting_enabled: bool) -> (r: Option<
        CursorIcon,
    >)
        ensures
            final(self).icon == old(self).icon,
            final(self).hidden_while_typing == (hidden && setting_enabled),
            r == if old(self).hidden_while_typing == (hidden && setting_enabled) {
                None
            } else {
                Some(shown_icon(*final(self)))
            },
    {
        let hidden = hidden && setting_enabled;
        if self.hidden_while_typing == hidden {
            return None;
        }
        self.hidden_while_typing = hidden;
        Some(self.effective_icon())
    }

    /// A program's mouse-shape request: a request that names a shape replaces the shape and
    /// returns the one to show (still hidden while typing); any other request changes nothing.
    pub fn apply_mouse_shape(&mut self, shape: &str) -> (r: Option<CursorIcon>)
        ensures
            final(self).hidden_while_typing == old(self).hidden_while_typing,
            match mouse_shape_icon(shape@) {
                Some(icon) => final(self).icon == icon && r == Some(shown_icon(*final(self))),
                None => final(self).icon == old(self).icon && r is None,
            },
    {
        match terminal_cursor_icon_for_mouse_shape(shape) {
            Some(icon) => {
                self.icon = icon;
                Some(self.effective_icon())
            },
            None => None,
        }
    }
}

/// While the pointer is hidden for typing, a shape request changes what will show later but
/// keeps the pointer hidden; once it is shown again, the last requested shape shows.
pub proof fn lemma_hidden_pointer_keeps_requested_shape(p: TerminalPointer, icon: CursorIcon)
    ensures
        shown_icon(TerminalPointer { icon, ..p }) == if p.hidden_while_typing {
            CursorIcon::Hidden
        } else {
            icon
        },
        shown_icon(TerminalPointer { icon, hidden_while_typing: false }) == icon,
{
}

} // verus!
