//! Scripted multiplexer actions for diagnosing the native layout: the script's grammar, its
//! schedule, and what each action does.
use vstd::prelude::*;
use crate::layout::{MuxDirection, SplitDirection};
use crate::mux_keys::{MuxKeyAction, mux_action_name};
use crate::order::{stable_order, stable_order_of};

verus! {

/// An action a diagnostic script can run.
#[derive(Clone, Copy, Debug, PartialEq, Eq, Structural)]
pub enum DiagnosticAction {
    NewTab,
    NextTab,
    PreviousTab,
    SplitRight,
    SplitDown,
    SelectPaneLeft,
    SelectPaneRight,
    SelectPaneUp,
    SelectPaneDown,
    NextPane,
}

/// The name an action has in scripts and traces.
pub open spec fn action_label(a: DiagnosticAction) -> Seq<char> {
    match a {
        DiagnosticAction::NewTab => "new_tab"@,
        DiagnosticAction::NextTab => "next_tab"@,
        DiagnosticAction::PreviousTab => "previous_tab"@,
        DiagnosticAction::SplitRight => "split_right"@,
        DiagnosticAction::SplitDown => "split_down"@,
        DiagnosticAction::SelectPaneLeft => "select_pane_left"@,
        DiagnosticAction::SelectPaneRight => "select_pane_right"@,
        DiagnosticAction::SelectPaneUp => "select_pane_up"@,
        DiagnosticAction::SelectPaneDown => "select_pane_down"@,
        DiagnosticAction::NextPane => "next_pane"@,
    }
}

/// The action named exactly `name`.
pub open spec fn action_named(name: Seq<char>) -> Option<DiagnosticAction> {
    if name == "new_tab"@ {
        Some(DiagnosticAction::NewTab)
    } else if name == "next_tab"@ {
        Some(DiagnosticAction::NextTab)
    } else if name == "previous_tab"@ {
        Some(DiagnosticAction::PreviousTab)
    } else if name == "split_right"@ {
        Some(DiagnosticAction::SplitRight)
    } else if name == "split_down"@ {
        Some(DiagnosticAction::SplitDown)
    } else if name == "select_pane_left"@ {
        Some(DiagnosticAction::SelectPaneLeft)
    } else if name == "select_pane_right"@ {
        Some(DiagnosticAction::SelectPaneRight)
    } else if name == "select_pane_up"@ {
        Some(DiagnosticAction::SelectPaneUp)
    } else if name == "select_pane_down"@ {
        Some(DiagnosticAction::SelectPaneDown)
    } else if name == "next_pane"@ {
        Some(DiagnosticAction::NextPane)
    } else {
        None
    }
}

/// The characters `char::is_whitespace` accepts (Unicode `White_Space`).
pub open spec fn is_white_space(c: char) -> bool {
    ||| '\u{9}' <= c <= '\u{d}'
    ||| c == ' '
    ||| c == '\u{85}'
    ||| c == '\u{a0}'
    ||| c == '\u{1680}'
    ||| '\u{2000}' <= c <= '\u{200a}'
    ||| c == '\u{2028}'
    ||| c == '\u{2029}'
    ||| c == '\u{202f}'
    ||| c == '\u{205f}'
    ||| c == '\u{3000}'
}

pub fn white_space(c: char) -> (r: bool)
    ensures
        r == is_white_space(c),
{
    ('\u{9}' <= c && c <= '\u{d}') || c == ' ' || c == '\u{85}' || c == '\u{a0}' || c
        == '\u{1680}' || ('\u{2000}' <= c && c <= '\u{200a}') || c == '\u{2028}' || c
        == '\u{2029}' || c == '\u{202f}' || c == '\u{205f}' || c == '\u{3000}'
}

/// `s` without its leading white space.
pub open spec fn trim_start(s: Seq<char>) -> Seq<char>
    decreases s.len(),
{
    if s.len() > 0 && is_white_space(s[0]) {
        trim_start(s.skip(1))
    } else {
        s
    }
}

/// `s` without its trailing white space.
pub open spec fn trim_end(s: Seq<char>) -> Seq<char>
    decreases s.len(),
{
    if s.len() > 0 && is_white_space(s.last()) {
        trim_end(s.drop_last())
    } else {
        s
    }
}

/// `s` without white space at either end (`str::trim`).
pub open spec fn trimmed(s: Seq<char>) -> Seq<char> {
    trim_end(trim_start(s))
}

/// The bounds of `cs[lo..hi]` with white space trimmed from both ends.
pub fn trim_range(cs: &[char], lo: usize, hi: usize) -> (r: (usize, usize))
    requires
        lo <= hi <= cs@.len(),
    ensures
        lo <= r.0 <= r.1 <= hi,
        cs@.subrange(r.0 as int, r.1 as int) == trimmed(cs@.subrange(lo as int, hi as int)),
{
    let mut a = lo;
    while a < hi && white_space(cs[a])
        invariant
            lo <= a <= hi <= cs@.len(),
            trim_start(cs@.subrange(lo as int, hi as int)) == trim_start(cs@.subrange(a as int, hi as int)),
        decreases hi - a,
    {
        assert(cs@.subrange(a as int, hi as int).skip(1) =~= cs@.subrange(a + 1, hi as int));
        a = a + 1;
    }
    let mut b = hi;
    while b > a && white_space(cs[b - 1])
        invariant
            lo <= a <= b <= hi <= cs@.len(),
            trim_end(cs@.subrange(a as int, hi as int)) == trim_end(cs@.subrange(a as int, b as int)),
        decreases b - a,
    {
        assert(cs@.subrange(a as int, b as int).drop_last() =~= cs@.subrange(a as int, b - 1));
        b = b - 1;
    }
    (a, b)
}

/// Whether `cs[a..b]` reads `lit`.
pub fn range_is(cs: &[char], a: usize, b: usize, lit: &str) -> (r: bool)
    requires
        a <= b <= cs@.len(),
    ensures
        r == (cs@.subrange(a as int, b as int) == lit@),
{
    let n = lit.unicode_len();
    if b - a != n {
        return false;
    }
    let mut k: usize = 0;
    while k < n
        invariant
            n == lit@.len(),
            b - a == n,
            a <= b <= cs@.len(),
            k <= n,
            forall|m: int| 0 <= m < k ==> cs@[a + m] == lit@[m],
        decreases n - k,
    {
        if cs[a + k] != lit.get_char(k) {
            assert(cs@.subrange(a as int, b as int)[k as int] != lit@[k as int]);
            return false;
        }
        k = k + 1;
    }
    assert(cs@.subrange(a as int, b as int) =~= lit@);
    true
}

/// The action named by `cs[a..b]`.
pub fn action_in_range(cs: &[char], a: usize, b: usize) -> (r: Option<DiagnosticAction>)
    requires
        a <= b <= cs@.len(),
    ensures
        r == action_named(cs@.subrange(a as int, b as int)),
{
    if range_is(cs, a, b, "new_tab") {
        Some(DiagnosticAction::NewTab)
    } else if range_is(cs, a, b, "next_tab") {
        Some(DiagnosticAction::NextTab)
    } else if range_is(cs, a, b, "previous_tab") {
        Some(DiagnosticAction::PreviousTab)
    } else if range_is(cs, a, b, "split_right") {
        Some(DiagnosticAction::SplitRight)
    } else if range_is(cs, a, b, "split_down") {
        Some(DiagnosticAction::SplitDown)
    } else if range_is(cs, a, b, "select_pane_left") {
        Some(DiagnosticAction::SelectPaneLeft)
    } else if range_is(cs, a, b, "select_pane_right") {
        Some(DiagnosticAction::SelectPaneRight)
    } else if range_is(cs, a, b, "select_pane_up") {
        Some(DiagnosticAction::SelectPaneUp)
    } else if range_is(cs, a, b, "select_pane_down") {
        Some(DiagnosticAction::SelectPaneDown)
    } else if range_is(cs, a, b, "next_pane") {
        Some(DiagnosticAction::NextPane)
    } else {
        None
    }
}

impl DiagnosticAction {
    /// The action a script names, ignoring white space around the name.
    pub fn parse(value: &str) -> (r: Option<Self>)
        ensures
            r == action_named(trimmed(value@)),
    {
        let cs = crate::text::chars_of(value);
        let (a, b) = trim_range(cs.as_slice(), 0, cs.len());
        assert(cs@.subrange(0, cs@.len() as int) =~= value@);
        action_in_range(cs.as_slice(), a, b)
    }

    /// The action's name.
    pub fn label(self) -> (r: &'static str)
        ensures
            r@ == action_label(self),
    {
        match self {
            DiagnosticAction::NewTab => "new_tab",
            DiagnosticAction::NextTab => "next_tab",
            DiagnosticAction::PreviousTab => "previous_tab",
            DiagnosticAction::SplitRight => "split_right",
            DiagnosticAction::SplitDown => "split_down",
            DiagnosticAction::SelectPaneLeft => "select_pane_left",
            DiagnosticAction::SelectPaneRight => "select_pane_right",
            DiagnosticAction::SelectPaneUp => "select_pane_up",
            DiagnosticAction::SelectPaneDown => "select_pane_down",
            DiagnosticAction::NextPane => "next_pane",
        }
    }

    /// The multiplexer key action the diagnostic action performs.
    pub fn mux_action(self) -> (r: MuxKeyAction)
        ensures
            r == diagnostic_mux_action(self),
    {
        match self {
            DiagnosticAction::NewTab => MuxKeyAction::NewTab,
            DiagnosticAction::NextTab => MuxKeyAction::NextTab,
            DiagnosticAction::PreviousTab => MuxKeyAction::PreviousTab,
            DiagnosticAction::SplitRight => MuxKeyAction::SplitPane(SplitDirection::Right),
            DiagnosticAction::SplitDown => MuxKeyAction::SplitPane(SplitDirection::Down),
            DiagnosticAction::SelectPaneLeft => MuxKeyAction::SelectPane(MuxDirection::Left),
            DiagnosticAction::SelectPaneRight => MuxKeyAction::SelectPane(MuxDirection::Right),
            DiagnosticAction::SelectPaneUp => MuxKeyAction::SelectPane(MuxDirection::Up),
            DiagnosticAction::SelectPaneDown => MuxKeyAction::SelectPane(MuxDirection::Down),
            DiagnosticAction::NextPane => MuxKeyAction::NextPane,
        }
    }
}

pub open spec fn diagnostic_mux_action(a: DiagnosticAction) -> MuxKeyAction {
    match a {
        DiagnosticAction::NewTab => MuxKeyAction::NewTab,
        DiagnosticAction::NextTab => MuxKeyAction::NextTab,
        DiagnosticAction::PreviousTab => MuxKeyAction::PreviousTab,
        DiagnosticAction::SplitRight => MuxKeyAction::SplitPane(SplitDirection::Right),
        DiagnosticAction::SplitDown => MuxKeyAction::SplitPane(SplitDirection::Down),
        DiagnosticAction::SelectPaneLeft => MuxKeyAction::SelectPane(MuxDirection::Left),
        DiagnosticAction::SelectPaneRight => MuxKeyAction::SelectPane(MuxDirection::Right),
        DiagnosticAction::SelectPaneUp => MuxKeyAction::SelectPane(MuxDirection::Up),
        DiagnosticAction::SelectPaneDown => MuxKeyAction::SelectPane(MuxDirection::Down),
        DiagnosticAction::NextPane => MuxKeyAction::NextPane,
    }
}

/// Reading an action's name back gives the action: names and actions correspond one to one.
pub proof fn lemma_label_round_trip(a: DiagnosticAction)
    ensures
        action_named(action_label(a)) == Some(a),
        trimmed(action_label(a)) == action_label(a),
{
    reveal_strlit("new_tab");
    reveal_strlit("next_tab");
    reveal_strlit("previous_tab");
    reveal_strlit("split_right");
    reveal_strlit("split_down");
    reveal_strlit("select_pane_left");
    reveal_strlit("select_pane_right");
    reveal_strlit("select_pane_up");
    reveal_strlit("select_pane_down");
    reveal_strlit("next_pane");
    let l = action_label(a);
    assert(l.len() > 0 && !is_white_space(l[0]) && !is_white_space(l.last()));
    assert(trim_start(l) == l);
    assert(trim_end(l) == l);
}

/// The value of a run of decimal digits.
pub open spec fn digits_value(ds: Seq<char>) -> nat
    decreases ds.len(),
{
    if ds.len() == 0 {
        0
    } else {
        digits_value(ds.drop_last()) * 10 + (ds.last() as nat - '0' as nat) as nat
    }
}

/// `s` without a leading `+`.
pub open spec fn sign_stripped(s: Seq<char>) -> Seq<char> {
    if s.len() > 0 && s[0] == '+' {
        s.skip(1)
    } else {
        s
    }
}

pub open spec fn all_digits(b: Seq<char>) -> bool {
    forall|i: int| 0 <= i < b.len() ==> '0' <= #[trigger] b[i] <= '9'
}

/// What `u64::from_str` reads: an optional `+`, then one or more decimal digits whose value
/// fits in 64 bits.
pub open spec fn parsed_u64(s: Seq<char>) -> Option<u64> {
    let body = sign_stripped(s);
    if body.len() == 0 {
        None
    } else if !all_digits(body) {
        None
    } else if digits_value(body) > u64::MAX {
        None
    } else {
        Some(digits_value(body) as u64)
    }
}

/// Reads `cs[a..b]` as a `u64` (see `parsed_u64`).
pub fn parse_u64_range(cs: &[char], a: usize, b: usize) -> (r: Option<u64>)
    requires
        a <= b <= cs@.len(),
    ensures
        r == parsed_u64(cs@.subrange(a as int, b as int)),
{
    let ghost s = cs@.subrange(a as int, b as int);
    let start = if a < b && cs[a] == '+' {
        a + 1
    } else {
        a
    };
    let ghost body = sign_stripped(s);
    assert(body =~= cs@.subrange(start as int, b as int));
    if start == b {
        assert(body.len() == 0);
        assert(parsed_u64(s) is None);
        return None;
    }
    let mut v: u64 = 0;
    let mut overflow = false;
    let mut i = start;
    while i < b
        invariant
            a <= start <= i <= b <= cs@.len(),
            s == cs@.subrange(a as int, b as int),
            body == sign_stripped(s),
            body.len() > 0,
            body == cs@.subrange(start as int, b as int),
            forall|k: int| start <= k < i ==> '0' <= #[trigger] cs@[k] <= '9',
            overflow ==> digits_value(cs@.subrange(start as int, i as int)) > u64::MAX,
            !overflow ==> v == digits_value(cs@.subrange(start as int, i as int)),
        decreases b - i,
    {
        let c = cs[i];
        if !('0' <= c && c <= '9') {
            assert(body[i - start] == c);
            assert(!('0' <= body[i - start] <= '9'));
            return None;
        }
        let d = (c as u32 - '0' as u32) as u64;
        let ghost pre = cs@.subrange(start as int, i as int);
        assert(cs@.subrange(start as int, i + 1).drop_last() =~= pre);
        assert(digits_value(cs@.subrange(start as int, i + 1)) == digits_value(pre) * 10 + d);
        if !overflow {
            match v.checked_mul(10) {
                Some(t) => match t.checked_add(d) {
                    Some(u) => {
                        v = u;
                    },
                    None => {
                        overflow = true;
                    },
                },
                None => {
                    overflow = true;
                },
            }
        }
        i = i + 1;
    }
    assert(cs@.subrange(start as int, b as int) =~= body);
    assert(all_digits(body)) by {
        assert forall|k: int| 0 <= k < body.len() implies '0' <= #[trigger] body[k] <= '9' by {
            assert(body[k] == cs@[start + k]);
        }
    }
    if overflow {
        None
    } else {
        Some(v)
    }
}

/// One step of a script: an action and the time it is due, in milliseconds from the start.
#[derive(Clone, Copy, Debug, PartialEq, Eq, Structural)]
pub struct DiagnosticStep {
    pub at_ms: u64,
    pub action: DiagnosticAction,
}

/// The first place at or after `start` holding `c`.
pub open spec fn next_char_from(s: Seq<char>, c: char, start: int) -> Option<int>
    decreases s.len() - start,
{
    if start < 0 || start >= s.len() {
        None
    } else if s[start] == c {
        Some(start)
    } else {
        next_char_from(s, c, start + 1)
    }
}

pub proof fn lemma_next_char_found(s: Seq<char>, c: char, start: int)
    ensures
        next_char_from(s, c, start) matches Some(i) ==> start <= i < s.len() && s[i] == c,
    decreases s.len() - start,
{
    if start >= 0 && start < s.len() && s[start] != c {
        lemma_next_char_found(s, c, start + 1);
    }
}

/// One entry of a script, `<ms>:<action>`, white space allowed round either part.
pub open spec fn parsed_entry(e: Seq<char>) -> Option<DiagnosticStep> {
    match next_char_from(e, ':', 0) {
        None => None,
        Some(i) => match (
            parsed_u64(trimmed(e.subrange(0, i))),
            action_named(trimmed(e.subrange(i + 1, e.len() as int))),
        ) {
            (Some(at), Some(action)) => Some(DiagnosticStep { at_ms: at, action }),
            _ => None,
        },
    }
}

/// The comma-separated entries of `s` from `start` on; none when any entry does not read.
pub open spec fn parsed_entries_from(s: Seq<char>, start: int) -> Option<Seq<DiagnosticStep>>
    decreases s.len() - start,
{
    if start < 0 || start > s.len() {
        None
    } else {
        match next_char_from(s, ',', start) {
            None => match parsed_entry(s.subrange(start, s.len() as int)) {
                Some(e) => Some(seq![e]),
                None => None,
            },
            Some(i) => if i < start || i >= s.len() {
                None
            } else {
                match parsed_entry(s.subrange(start, i)) {
                    None => None,
                    Some(e) => match parsed_entries_from(s, i + 1) {
                        Some(rest) => Some(seq![e] + rest),
                        None => None,
                    },
                }
            },
        }
    }
}

pub open spec fn step_keys(steps: Seq<DiagnosticStep>) -> Seq<i64> {
    Seq::new(steps.len(), |i: int| (steps[i].at_ms - 0x8000_0000_0000_0000int) as i64)
}

/// A script's steps: its entries in the order they fall due, entries due at the same time in
/// the order the script lists them.
pub open spec fn script_steps(script: Seq<char>) -> Option<Seq<DiagnosticStep>> {
    match parsed_entries_from(script, 0) {
        Some(entries) => Some(
            Seq::new(entries.len(), |k: int| entries[stable_order_of(step_keys(entries))[k] as int]),
        ),
        None => None,
    }
}

fn parse_entry_range(cs: &[char], lo: usize, hi: usize) -> (r: Option<DiagnosticStep>)
    requires
        lo <= hi <= cs@.len(),
    ensures
        r == parsed_entry(cs@.subrange(lo as int, hi as int)),
{
    let ghost e = cs@.subrange(lo as int, hi as int);
    let mut i = lo;
    while i < hi && cs[i] != ':'
        invariant
            lo <= i <= hi <= cs@.len(),
            e == cs@.subrange(lo as int, hi as int),
            next_char_from(e, ':', 0) == next_char_from(e, ':', i - lo),
        decreases hi - i,
    {
        assert(e[i - lo] == cs@[i as int]);
        i = i + 1;
    }
    if i == hi {
        return None;
    }
    assert(e[i - lo] == cs@[i as int]);
    assert(next_char_from(e, ':', i - lo) == Some(i - lo));
    assert(e.subrange(0, i - lo) =~= cs@.subrange(lo as int, i as int));
    assert(e.subrange(i - lo + 1, e.len() as int) =~= cs@.subrange(i + 1, hi as int));
    let (a, b) = trim_range(cs, lo, i);
    let at = parse_u64_range(cs, a, b);
    let (c, d) = trim_range(cs, i + 1, hi);
    let action = action_in_range(cs, c, d);
    match (at, action) {
        (Some(at), Some(action)) => Some(DiagnosticStep { at_ms: at, action }),
        _ => None,
    }
}

/// The entries of a script, in the order it lists them (see `parsed_entries_from`).
pub fn parse_entries(script: &str) -> (r: Option<Vec<DiagnosticStep>>)
    ensures
        match r {
            Some(v) => parsed_entries_from(script@, 0) == Some(v@),
            None => parsed_entries_from(script@, 0) is None,
        },
{
    let cs = crate::text::chars_of(script);
    let n = cs.len();
    let mut done: Vec<DiagnosticStep> = Vec::new();
    let mut start: usize = 0;
    loop
        invariant
            cs@ == script@,
            n == cs@.len(),
            start <= n,
            parsed_entries_from(script@, 0) == match parsed_entries_from(script@, start as int) {
                Some(rest) => Some(done@ + rest),
                None => None::<Seq<DiagnosticStep>>,
            },
        decreases n - start,
    {
        let mut i = start;
        while i < n && cs[i] != ','
            invariant
                cs@ == script@,
                n == cs@.len(),
                start <= i <= n,
                next_char_from(script@, ',', start as int) == next_char_from(script@, ',', i as int),
            decreases n - i,
        {
            i = i + 1;
        }
        let entry = parse_entry_range(cs.as_slice(), start, i);
        if i == n {
            assert(next_char_from(script@, ',', start as int) is None);
            return match entry {
                Some(e) => {
                    proof {
                        assert(done@ + seq![e] == done@.push(e));
                    }
                    done.push(e);
                    Some(done)
                },
                None => None,
            };
        }
        assert(next_char_from(script@, ',', start as int) == Some(i as int));
        match entry {
            Some(e) => {
                let ghost before = done@;
                done.push(e);
                proof {
                    match parsed_entries_from(script@, i + 1) {
                        Some(rest) => {
                            assert(before + (seq![e] + rest) =~= done@ + rest);
                        },
                        None => {},
                    }
                }
                start = i + 1;
            },
            None => {
                return None;
            },
        }
    }
}

/// The schedule of a script (see `script_steps`): `None` when any entry does not read.
pub fn parse_diagnostic_script(script: &str) -> (r: Option<Vec<DiagnosticStep>>)
    ensures
        match r {
            Some(v) => script_steps(script@) == Some(v@),
            None => script_steps(script@) is None,
        },
        r matches Some(v) ==> forall|k: int, l: int|
            0 <= k < l < v@.len() ==> (#[trigger] v@[k]).at_ms <= (#[trigger] v@[l]).at_ms,
{
    let entries = match parse_entries(script) {
        Some(e) => e,
        None => return None,
    };
    let mut keys: Vec<i64> = Vec::new();
    let mut i: usize = 0;
    while i < entries.len()
        invariant
            i <= entries@.len(),
            keys@ == step_keys(entries@).subrange(0, i as int),
        decreases entries@.len() - i,
    {
        let at = entries[i].at_ms;
        let key: i64 = if at >= 0x8000_0000_0000_0000u64 {
            (at - 0x8000_0000_0000_0000u64) as i64
        } else {
            -((0x8000_0000_0000_0000u64 - at - 1) as i64) - 1
        };
        keys.push(key);
        i = i + 1;
    }
    assert(keys@ == step_keys(entries@));
    let order = stable_order(keys.as_slice());
    let mut out: Vec<DiagnosticStep> = Vec::new();
    let mut k: usize = 0;
    while k < order.len()
        invariant
            keys@ == step_keys(entries@),
            order@ == stable_order_of(keys@),
            crate::order::is_stable_order(order@, keys@),
            k <= order@.len(),
            out@.len() == k,
            forall|m: int| 0 <= m < k ==> #[trigger] out@[m] == entries@[order@[m] as int],
        decreases order@.len() - k,
    {
        out.push(entries[order[k]]);
        k = k + 1;
    }
    assert(out@ =~= Seq::new(
        entries@.len(),
        |k: int| entries@[stable_order_of(step_keys(entries@))[k] as int],
    ));
    assert forall|k: int, l: int| 0 <= k < l < out@.len() implies (#[trigger] out@[k]).at_ms <= (
    #[trigger] out@[l]).at_ms by {
        assert(crate::order::key_before(keys@, order@[k] as int, order@[l] as int));
    }
    Some(out)
}

/// A running script: its steps in order and how many have been handed out.
pub struct DiagnosticSchedule {
    pub steps: Vec<DiagnosticStep>,
    pub next_step: usize,
}

impl DiagnosticSchedule {
    /// The steps not handed out yet that are due at `elapsed_ms`, in order; each is handed out
    /// once. A step still waiting holds back the ones after it.
    pub fn due_actions(&mut self, elapsed_ms: u64) -> (r: Vec<DiagnosticAction>)
        ensures
            old(self).next_step >= old(self).steps@.len() ==> r@.len() == 0 && *final(self) == *old(self),
            final(self).steps@ == old(self).steps@,
            old(self).next_step < old(self).steps@.len() ==> old(self).next_step <= final(self).next_step <= final(self).steps@.len(),
            r@.len() == final(self).next_step - old(self).next_step,
            forall|k: int|
                0 <= k < r@.len() ==> #[trigger] r@[k] == old(self).steps@[old(self).next_step + k].action
                    && old(self).steps@[old(self).next_step + k].at_ms <= elapsed_ms,
            final(self).next_step < final(self).steps@.len() ==> final(self).steps@[final(self).next_step as int].at_ms > elapsed_ms,
    {
        let ghost first = self.next_step;
        let mut actions: Vec<DiagnosticAction> = Vec::new();
        if self.next_step >= self.steps.len() {
            return actions;
        }
        while self.next_step < self.steps.len() && self.steps[self.next_step].at_ms <= elapsed_ms
            invariant
                self.steps@ == old(self).steps@,
                first == old(self).next_step,
                first <= self.next_step <= self.steps@.len(),
                actions@.len() == self.next_step - first,
                forall|k: int|
                    0 <= k < actions@.len() ==> #[trigger] actions@[k] == self.steps@[first + k].action
                        && self.steps@[first + k].at_ms <= elapsed_ms,
            decreases self.steps@.len() - self.next_step,
        {
            actions.push(self.steps[self.next_step].action);
            self.next_step = self.next_step + 1;
        }
        actions
    }
}

proof fn lemma_trim_start_padding(pad: Seq<char>, s: Seq<char>)
    requires
        forall|i: int| 0 <= i < pad.len() ==> is_white_space(#[trigger] pad[i]),
        s.len() > 0,
        !is_white_space(s[0]),
    ensures
        trim_start(pad + s) == s,
    decreases pad.len(),
{
    if pad.len() == 0 {
        assert(pad + s =~= s);
    } else {
        let rest = pad.skip(1);
        assert forall|i: int| 0 <= i < rest.len() implies is_white_space(#[trigger] rest[i]) by {
            assert(rest[i] == pad[i + 1]);
        }
        assert((pad + s).skip(1) =~= rest + s);
        assert((pad + s)[0] == pad[0]);
        lemma_trim_start_padding(rest, s);
    }
}

proof fn lemma_trim_end_padding(s: Seq<char>, pad: Seq<char>)
    requires
        forall|i: int| 0 <= i < pad.len() ==> is_white_space(#[trigger] pad[i]),
        s.len() > 0,
        !is_white_space(s.last()),
    ensures
        trim_end(s + pad) == s,
    decreases pad.len(),
{
    if pad.len() == 0 {
        assert(s + pad =~= s);
    } else {
        let rest = pad.drop_last();
        assert forall|i: int| 0 <= i < rest.len() implies is_white_space(#[trigger] rest[i]) by {
            assert(rest[i] == pad[i]);
        }
        assert((s + pad).drop_last() =~= s + rest);
        assert((s + pad).last() == pad[pad.len() - 1]);
        lemma_trim_end_padding(s, rest);
    }
}

/// An action's name parses with any white space around it.
pub proof fn lemma_padded_label_parses(a: DiagnosticAction, before: Seq<char>, after: Seq<char>)
    requires
        forall|i: int| 0 <= i < before.len() ==> is_white_space(#[trigger] before[i]),
        forall|i: int| 0 <= i < after.len() ==> is_white_space(#[trigger] after[i]),
    ensures
        trimmed(before + action_label(a) + after) == action_label(a),
        action_named(trimmed(before + action_label(a) + after)) == Some(a),
{
    lemma_label_round_trip(a);
    let l = action_label(a);
    reveal_strlit("new_tab");
    reveal_strlit("next_tab");
    reveal_strlit("previous_tab");
    reveal_strlit("split_right");
    reveal_strlit("split_down");
    reveal_strlit("select_pane_left");
    reveal_strlit("select_pane_right");
    reveal_strlit("select_pane_up");
    reveal_strlit("select_pane_down");
    reveal_strlit("next_pane");
    assert(l.len() > 0 && !is_white_space(l[0]) && !is_white_space(l.last()));
    assert(before + l + after =~= before + (l + after));
    assert((l + after)[0] == l[0]);
    lemma_trim_start_padding(before, l + after);
    lemma_trim_end_padding(l, after);
}

/// A text names an action only when, white space trimmed, it is that action's name.
pub proof fn lemma_only_labels_parse(s: Seq<char>)
    ensures
        action_named(trimmed(s)) matches Some(a) ==> trimmed(s) == action_label(a),
        (forall|a: DiagnosticAction| trimmed(s) != #[trigger] action_label(a)) ==> action_named(
            trimmed(s),
        ) is None,
{
    if let Some(a) = action_named(trimmed(s)) {
        assert(trimmed(s) == action_label(a));
    }
}

/// A scripted step performs the multiplexer action of its own name, so different steps perform
/// different actions.
pub proof fn lemma_steps_perform_their_named_action(a: DiagnosticAction, b: DiagnosticAction)
    ensures
        mux_action_name(diagnostic_mux_action(a)) == Some(action_label(a)),
        a != b ==> diagnostic_mux_action(a) != diagnostic_mux_action(b),
{
}

} // verus!
