//! Progress reported by programs in a terminal (ConEmu's OSC 9;4) and by backends, and the
//! open ports programs advertise: what a tab's indicator shows.
use vstd::prelude::*;

use crate::config::MultiplexerBackendConfig;
use crate::text::str_eq;

verus! {

#[derive(Clone, Copy, Debug, PartialEq, Eq, Structural)]
pub enum TerminalProgressState {
    Normal,
    Error,
    Indeterminate,
    Warning,
}

/// A progress report: its state and, when the program gave one, its percentage.
#[derive(Clone, Copy, Debug, PartialEq, Eq, Structural)]
pub struct TerminalProgress {
    pub state: TerminalProgressState,
    pub value: Option<u8>,
}

/// The progress a ConEmu state name reports; `inactive` and unknown names report none.
pub open spec fn conemu_progress(state: Seq<char>, value: Option<u8>) -> Option<TerminalProgress> {
    if state == "normal"@ {
        Some(TerminalProgress { state: TerminalProgressState::Normal, value })
    } else if state == "error"@ {
        Some(TerminalProgress { state: TerminalProgressState::Error, value })
    } else if state == "indeterminate"@ {
        Some(TerminalProgress { state: TerminalProgressState::Indeterminate, value })
    } else if state == "warning"@ {
        Some(TerminalProgress { state: TerminalProgressState::Warning, value })
    } else {
        None
    }
}

/// The ConEmu name of a progress state.
pub open spec fn conemu_state_name(state: TerminalProgressState) -> Seq<char> {
    match state {
        TerminalProgressState::Normal => "normal"@,
        TerminalProgressState::Error => "error"@,
        TerminalProgressState::Indeterminate => "indeterminate"@,
        TerminalProgressState::Warning => "warning"@,
    }
}

/// A report names its state: each state's ConEmu name reads back as that state with the
/// report's value, and a name that reads as some progress is exactly that progress's state
/// name. So the four names give four different states.
pub proof fn lemma_conemu_names_read_back(state: TerminalProgressState, name: Seq<char>, value: Option<u8>)
    ensures
        conemu_progress(conemu_state_name(state), value) == Some(
            TerminalProgress { state, value },
        ),
        conemu_progress(name, value) matches Some(p) ==> p.value == value && conemu_state_name(p.state)
            == name,
{
    reveal_strlit("normal");
    reveal_strlit("error");
    reveal_strlit("indeterminate");
    reveal_strlit("warning");
    assert("normal"@.len() == 6 && "error"@.len() == 5 && "indeterminate"@.len() == 13
        && "warning"@.len() == 7);
}

/// The percentage a progress shows: its own, or half way for an indeterminate one without.
pub open spec fn progress_percent(p: TerminalProgress) -> Option<u8> {
    match p.value {
        Some(v) => Some(v),
        None => if p.state == TerminalProgressState::Indeterminate {
            Some(50u8)
        } else {
            None
        },
    }
}

/// A window's progress as a multiplexer backend reports it.
#[derive(Clone, Debug)]
pub struct MuxWindowProgress {
    pub state: String,
    pub percent: Option<u8>,
}

impl TerminalProgress {
    /// The progress a backend report shows (read as an OSC 9;4 report would be).
    pub fn from_mux(progress: &MuxWindowProgress) -> (r: Option<Self>)
        ensures
            r == conemu_progress(progress.state@, progress.percent),
    {
        Self::from_conemu(progress.state.as_str(), progress.percent)
    }

    pub fn from_conemu(state: &str, value: Option<u8>) -> (r: Option<Self>)
        ensures
            r == conemu_progress(state@, value),
    {
        if str_eq(state, "normal") {
            Some(TerminalProgress { state: TerminalProgressState::Normal, value })
        } else if str_eq(state, "error") {
            Some(TerminalProgress { state: TerminalProgressState::Error, value })
        } else if str_eq(state, "indeterminate") {
            Some(TerminalProgress { state: TerminalProgressState::Indeterminate, value })
        } else if str_eq(state, "warning") {
            Some(TerminalProgress { state: TerminalProgressState::Warning, value })
        } else {
            None
        }
    }

    pub fn percent(self) -> (r: Option<u8>)
        ensures
            r == progress_percent(self),
    {
        match self.value {
            Some(v) => Some(v),
            None => if self.state == TerminalProgressState::Indeterminate {
                Some(50)
            } else {
                None
            },
        }
    }
}

/// What a progress report does to the pane it came from.
#[derive(Clone, Copy, Debug, PartialEq, Eq, Structural)]
pub enum ProgressUpdate {
    /// Leave the recorded progress as it is.
    Ignore,
    /// Record this progress.
    Record(TerminalProgress),
    /// Forget the recorded progress.
    Clear,
}

/// A report in the `unknown` state is ignored, and so is every report relayed by a tmux client:
/// tmux keeps per-window progress itself and forwards OSC 9;4 only for the pane it shows, which
/// would credit it to the wrong window. Any other report sets the progress, or clears it when
/// its state names no progress.
pub open spec fn progress_update_for(
    state: Seq<char>,
    value: Option<u8>,
    backend: MultiplexerBackendConfig,
) -> ProgressUpdate {
    if state == "unknown"@ || backend == MultiplexerBackendConfig::Tmux {
        ProgressUpdate::Ignore
    } else {
        match conemu_progress(state, value) {
            Some(p) => ProgressUpdate::Record(p),
            None => ProgressUpdate::Clear,
        }
    }
}

pub fn terminal_progress_update(
    state: &str,
    value: Option<u8>,
    backend: MultiplexerBackendConfig,
) -> (r: ProgressUpdate)
    ensures
        r == progress_update_for(state@, value, backend),
{
    if str_eq(state, "unknown") {
        return ProgressUpdate::Ignore;
    }
    if backend == MultiplexerBackendConfig::Tmux {
        return ProgressUpdate::Ignore;
    }
    match TerminalProgress::from_conemu(state, value) {
        Some(p) => ProgressUpdate::Record(p),
        None => ProgressUpdate::Clear,
    }
}

/// The largest percentage among the panes' progress reports, if any shows one.
pub open spec fn max_pane_percent(panes: Seq<Option<TerminalProgress>>) -> Option<u8>
    decreases panes.len(),
{
    if panes.len() == 0 {
        None
    } else {
        let rest = max_pane_percent(panes.drop_last());
        let last = match panes.last() {
            Some(p) => progress_percent(p),
            None => None,
        };
        match (rest, last) {
            (Some(a), Some(b)) => Some(if a >= b {
                a
            } else {
                b
            }),
            (Some(a), None) => Some(a),
            (None, b) => b,
        }
    }
}

/// The percentage a window's tab shows: the backend's own per-window report when there is one
/// (an attached client only forwards the pane it shows, so the backend alone speaks for a
/// background window), else the largest among its panes' reports.
pub fn window_progress(
    backend: Option<TerminalProgress>,
    panes: &[Option<TerminalProgress>],
) -> (r: Option<u8>)
    ensures
        r == match backend {
            Some(p) => progress_percent(p),
            None => max_pane_percent(panes@),
        },
{
    if let Some(p) = backend {
        return p.percent();
    }
    let mut best: Option<u8> = None;
    let mut i: usize = 0;
    while i < panes.len()
        invariant
            i <= panes@.len(),
            backend is None,
            best == max_pane_percent(panes@.subrange(0, i as int)),
        decreases panes@.len() - i,
    {
        let last = match panes[i] {
            Some(p) => p.percent(),
            None => None,
        };
        best = match (best, last) {
            (Some(a), Some(b)) => Some(
                if a >= b {
                    a
                } else {
                    b
                },
            ),
            (Some(a), None) => Some(a),
            (None, b) => b,
        };
        proof {
            assert(panes@.subrange(0, i + 1).drop_last() =~= panes@.subrange(0, i as int));
        }
        i = i + 1;
    }
    assert(panes@.subrange(0, panes@.len() as int) =~= panes@);
    best
}

/// The tab shows a percentage at least as large as each pane's when the backend has no report
/// of its own.
pub proof fn lemma_window_progress_covers_panes(panes: Seq<Option<TerminalProgress>>, i: int)
    requires
        0 <= i < panes.len(),
        panes[i] matches Some(p) && progress_percent(p) is Some,
    ensures
        max_pane_percent(panes) matches Some(m) && m >= progress_percent(panes[i]->0)->0,
    decreases panes.len(),
{
    let v = progress_percent(panes[i]->0)->0;
    let rest = max_pane_percent(panes.drop_last());
    let last = match panes.last() {
        Some(p) => progress_percent(p),
        None => None,
    };
    if i < panes.len() - 1 {
        assert(panes.drop_last()[i] == panes[i]);
        lemma_window_progress_covers_panes(panes.drop_last(), i);
        assert(rest matches Some(m) && m >= v);
    } else {
        assert(last == Some(v));
    }
}

/// Whether a window is busy without a measurable percentage: the backend's own report decides
/// when there is one, else any pane reporting indeterminate progress.
pub open spec fn window_indeterminate(
    backend: Option<TerminalProgress>,
    panes: Seq<Option<TerminalProgress>>,
) -> bool {
    match backend {
        Some(p) => p.state == TerminalProgressState::Indeterminate,
        None => exists|i: int| 0 <= i < panes.len() && is_indeterminate(#[trigger] panes[i]),
    }
}

/// Whether a pane reports indeterminate progress.
pub open spec fn is_indeterminate(p: Option<TerminalProgress>) -> bool {
    match p {
        Some(p) => p.state == TerminalProgressState::Indeterminate,
        None => false,
    }
}

pub fn window_has_indeterminate_progress(
    backend: Option<TerminalProgress>,
    panes: &[Option<TerminalProgress>],
) -> (r: bool)
    ensures
        r == window_indeterminate(backend, panes@),
{
    if let Some(p) = backend {
        return p.state == TerminalProgressState::Indeterminate;
    }
    let mut i: usize = 0;
    while i < panes.len()
        invariant
            i <= panes@.len(),
            backend is None,
            forall|j: int| 0 <= j < i ==> !is_indeterminate(#[trigger] panes@[j]),
        decreases panes@.len() - i,
    {
        if let Some(p) = panes[i] {
            if p.state == TerminalProgressState::Indeterminate {
                assert(is_indeterminate(panes@[i as int]));
                return true;
            }
        }
        i = i + 1;
    }
    false
}

/// The ports of a session: those the session's own shell reported, then each pane's reports
/// in order, each port once.
pub open spec fn merged_ports(initial: Seq<u16>, reported: Seq<Seq<u16>>) -> Seq<u16>
    decreases reported.len(),
{
    if reported.len() == 0 {
        initial
    } else {
        add_new_ports(merged_ports(initial, reported.drop_last()), reported.last())
    }
}

/// `ports` followed by those of `more` it does not hold yet, in order.
pub open spec fn add_new_ports(ports: Seq<u16>, more: Seq<u16>) -> Seq<u16>
    decreases more.len(),
{
    if more.len() == 0 {
        ports
    } else {
        let before = add_new_ports(ports, more.drop_last());
        if before.contains(more.last()) {
            before
        } else {
            before.push(more.last())
        }
    }
}

fn add_new_ports_exec(ports: &mut Vec<u16>, more: &Vec<u16>)
    ensures
        final(ports)@ == add_new_ports(old(ports)@, more@),
{
    let ghost start = ports@;
    let mut i: usize = 0;
    while i < more.len()
        invariant
            i <= more@.len(),
            ports@ == add_new_ports(start, more@.subrange(0, i as int)),
        decreases more@.len() - i,
    {
        let port = more[i];
        let mut present = false;
        let mut j: usize = 0;
        while j < ports.len()
            invariant
                j <= ports@.len(),
                present == exists|k: int| 0 <= k < j && ports@[k] == port,
            decreases ports@.len() - j,
        {
            if ports[j] == port {
                present = true;
            }
            j = j + 1;
        }
        proof {
            let prefix = more@.subrange(0, i + 1);
            assert(prefix.drop_last() =~= more@.subrange(0, i as int));
            assert(prefix.last() == port);
            if present {
                let k = choose|k: int| 0 <= k < j && ports@[k] == port;
                assert(ports@.contains(port));
            } else {
                assert(!ports@.contains(port));
            }
        }
        if !present {
            ports.push(port);
        }
        i = i + 1;
    }
    assert(more@.subrange(0, more@.len() as int) =~= more@);
}

/// Merge the port reports of a session; see [`merged_ports`].
pub fn session_ports(initial: Vec<u16>, reported: &Vec<Vec<u16>>) -> (r: Vec<u16>)
    ensures
        r@ == merged_ports(initial@, reported@.map_values(|v: Vec<u16>| v@)),
{
    let ghost views = reported@.map_values(|v: Vec<u16>| v@);
    let mut ports = initial;
    let mut i: usize = 0;
    while i < reported.len()
        invariant
            views == reported@.map_values(|v: Vec<u16>| v@),
            i <= reported@.len(),
            ports@ == merged_ports(initial@, views.subrange(0, i as int)),
        decreases reported@.len() - i,
    {
        add_new_ports_exec(&mut ports, &reported[i]);
        proof {
            assert(views.subrange(0, i + 1).drop_last() =~= views.subrange(0, i as int));
            assert(views[i as int] == reported@[i as int]@);
        }
        i = i + 1;
    }
    assert(views.subrange(0, reported@.len() as int) =~= views);
    ports
}

/// A merge never lists a port twice when the session's own report did not.
pub proof fn lemma_merged_ports_distinct(initial: Seq<u16>, reported: Seq<Seq<u16>>)
    requires
        initial.no_duplicates(),
    ensures
        merged_ports(initial, reported).no_duplicates(),
    decreases reported.len(),
{
    if reported.len() > 0 {
        lemma_merged_ports_distinct(initial, reported.drop_last());
        lemma_add_new_ports_distinct(merged_ports(initial, reported.drop_last()), reported.last());
    }
}

proof fn lemma_add_new_ports_distinct(ports: Seq<u16>, more: Seq<u16>)
    requires
        ports.no_duplicates(),
    ensures
        add_new_ports(ports, more).no_duplicates(),
    decreases more.len(),
{
    if more.len() > 0 {
        lemma_add_new_ports_distinct(ports, more.drop_last());
        let before = add_new_ports(ports, more.drop_last());
        if !before.contains(more.last()) {
            let after = before.push(more.last());
            assert forall|a: int, b: int|
                0 <= a < after.len() && 0 <= b < after.len() && a != b implies after[a]
                != after[b] by {
                if a < before.len() && b < before.len() {
                } else if a == before.len() {
                    assert(after[b] == before[b]);
                } else {
                    assert(after[a] == before[a]);
                }
            }
        }
    }
}

} // verus!
