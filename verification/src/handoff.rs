//! Handing files dropped on the window to the terminal as pasted paths.
use vstd::prelude::*;

verus! {

/// What a file drop gives the terminal.
#[derive(Clone, Debug, PartialEq, Eq)]
pub enum LocalFileHandoff {
    /// Paste this text.
    Ready(String),
    /// Paste nothing, for this reason.
    Rejected(&'static str),
}

/// A drop pastes the formatted paths when there are some, all exist and they could be
/// formatted; otherwise it is rejected, with the first of those reasons that applies.
pub open spec fn handoff_for(
    path_count: nat,
    all_exist: bool,
    formatted: Option<Seq<char>>,
    h: LocalFileHandoff,
) -> bool {
    if path_count == 0 {
        h matches LocalFileHandoff::Rejected(m) && m@ == "file handoff ignored: no local files"@
    } else if !all_exist {
        h matches LocalFileHandoff::Rejected(m) && m@
            == "file handoff rejected: local path is unavailable"@
    } else {
        match formatted {
            Some(text) => h matches LocalFileHandoff::Ready(t) && t@ == text,
            None => h matches LocalFileHandoff::Rejected(m) && m@
                == "file handoff rejected: unsupported local path"@,
        }
    }
}

/// The handoff of a drop of `path_count` paths (see `handoff_for`): `all_exist` says whether
/// every path exists, `formatted` is the paths formatted for pasting when that succeeded.
pub fn local_file_handoff(path_count: usize, all_exist: bool, formatted: Option<String>) -> (h:
    LocalFileHandoff)
    ensures
        handoff_for(path_count as nat, all_exist, crate::layout::opt_string(formatted), h),
{
    if path_count == 0 {
        return LocalFileHandoff::Rejected("file handoff ignored: no local files");
    }
    if !all_exist {
        return LocalFileHandoff::Rejected("file handoff rejected: local path is unavailable");
    }
    match formatted {
        Some(text) => LocalFileHandoff::Ready(text),
        None => LocalFileHandoff::Rejected("file handoff rejected: unsupported local path"),
    }
}

} // verus!
