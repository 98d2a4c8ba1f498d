//! One frame of the window: what it runs before drawing (a command-palette choice, the
//! attach client's state, failed commands, the session poll, a changed configuration file) and
//! when the next frame is drawn (the repaint scheduler's wait, capped by the interval at which
//! the configuration file is checked).
use vstd::prelude::*;
use crate::keybind::KeybindAction;

verus! {

/// What the end of a frame asks of the window.
#[derive(Clone, Copy, Debug, PartialEq, Eq, Structural)]
pub enum FrameRepaint {
    /// Draw again at once.
    Now,
    /// Draw again after this wait.
    After(u64),
}

/// The wait before the next frame: the scheduler's wait, never longer than the configuration
/// check interval (both in the same unit).
pub open spec fn frame_wait(scheduled: u64, reload_interval: u64) -> u64 {
    if scheduled <= reload_interval {
        scheduled
    } else {
        reload_interval
    }
}

/// The repaint a frame ends with: with no wait, an immediate repaint unless the frame already
/// asked for one (so it is asked once); otherwise a repaint after the wait.
pub fn frame_repaint(already_requested: bool, scheduled: u64, reload_interval: u64) -> (r: Option<
    FrameRepaint,
>)
    ensures
        frame_wait(scheduled, reload_interval) == 0 ==> r == if already_requested {
            None
        } else {
            Some(FrameRepaint::Now)
        },
        frame_wait(scheduled, reload_interval) > 0 ==> r == Some(
            FrameRepaint::After(frame_wait(scheduled, reload_interval)),
        ),
{
    let wait = if scheduled <= reload_interval {
        scheduled
    } else {
        reload_interval
    };
    if wait == 0 {
        if already_requested {
            None
        } else {
            Some(FrameRepaint::Now)
        }
    } else {
        Some(FrameRepaint::After(wait))
    }
}

/// What the attach client of a non-native binding reported this frame.
#[derive(Clone, Debug, PartialEq, Eq)]
pub enum AttachStatus {
    Exited,
    Alive,
    Failed(String),
}

/// What a frame sees before it decides.
#[derive(Clone, Debug)]
pub struct FrameFacts {
    /// A command-palette choice from the previous frame.
    pub pending_command: Option<KeybindAction>,
    /// Whether the active binding runs the native multiplexer (in-process sessions).
    pub native: bool,
    pub attach: AttachStatus,
    /// The active binding's last multiplexer command failed.
    pub command_failed: bool,
    /// How soon the backend is polled for sessions (depends on window focus).
    pub refresh_interval: u64,
    /// The configuration file changed since it was last read.
    pub config_changed: bool,
}

/// What to do about the attach client.
#[derive(Clone, Debug, PartialEq, Eq)]
pub enum AttachStep {
    /// Close the pane, or reconnect a remote binding.
    HandleExit,
    /// Note that the client is still running.
    NoteAlive,
    ShowError(String),
}

/// The work of a frame before it draws, in this order.
#[derive(Clone, Debug)]
pub struct FrameStep {
    /// Run the palette choice first, before the session poll can retarget it.
    pub run_command: Option<KeybindAction>,
    /// Close the panes whose shells exited (native).
    pub close_exited_panes: bool,
    pub attach: Option<AttachStep>,
    /// Start a reconnect that is due (non-native).
    pub start_due_reattach: bool,
    /// Drop the pending generated names: the command that would have applied them failed.
    pub clear_pending_names: bool,
    /// Repaint after this wait so the backend is polled again (non-native).
    pub poll_repaint_after: Option<u64>,
    /// Reload the configuration.
    pub reload_config: bool,
}

pub open spec fn attach_step(native: bool, a: AttachStatus) -> Option<AttachStep> {
    if native {
        None
    } else {
        match a {
            AttachStatus::Exited => Some(AttachStep::HandleExit),
            AttachStatus::Alive => Some(AttachStep::NoteAlive),
            AttachStatus::Failed(e) => Some(AttachStep::ShowError(e)),
        }
    }
}

/// The decisions of a frame (see `FrameStep`).
pub open spec fn frame_step_spec(f: FrameFacts) -> FrameStep {
    FrameStep {
        run_command: f.pending_command,
        close_exited_panes: f.native,
        attach: attach_step(f.native, f.attach),
        start_due_reattach: !f.native,
        clear_pending_names: f.command_failed,
        poll_repaint_after: if f.native {
            None
        } else {
            Some(f.refresh_interval)
        },
        reload_config: f.config_changed,
    }
}

/// Decides a frame's work from what it sees.
pub fn frame_step(facts: FrameFacts) -> (r: FrameStep)
    ensures
        r == frame_step_spec(facts),
{
    let attach = if facts.native {
        None
    } else {
        match facts.attach {
            AttachStatus::Exited => Some(AttachStep::HandleExit),
            AttachStatus::Alive => Some(AttachStep::NoteAlive),
            AttachStatus::Failed(e) => Some(AttachStep::ShowError(e)),
        }
    };
    FrameStep {
        run_command: facts.pending_command,
        close_exited_panes: facts.native,
        attach,
        start_due_reattach: !facts.native,
        clear_pending_names: facts.command_failed,
        poll_repaint_after: if facts.native {
            None
        } else {
            Some(facts.refresh_interval)
        },
        reload_config: facts.config_changed,
    }
}

} // verus!
