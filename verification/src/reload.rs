//! Reloading the configuration file: which failure rejects a reload, what an accepted reload
//! asks of the window, and the message it leaves.
use vstd::prelude::*;
use crate::text::push_str;

verus! {

/// What each stage of a reload reported, as an error message when it failed. The stages run in
/// this order and the first failure ends the reload; the three terminal updates run only for
/// what changed (see `ConfigDiff`), so a stage that did not run reports nothing.
#[derive(Clone, Debug)]
pub struct ReloadOutcome {
    /// Reading and parsing the file.
    pub load: Option<String>,
    /// The modifier remaps of the new input settings.
    pub modifier_remaps: Option<String>,
    /// The app keybindings for the active backend.
    pub keybinds: Option<String>,
    /// The sidebar keybindings.
    pub sidebar_keybinds: Option<String>,
    /// Handing changed terminal colors to the terminals.
    pub terminal_colors: Option<String>,
    /// Handing a changed cursor style to the terminals.
    pub cursor: Option<String>,
    /// Handing changed terminal features (the glyph protocol) to the terminals.
    pub features: Option<String>,
}

/// What differs between the running configuration and the one read from the file.
#[derive(Clone, Copy, Debug, PartialEq, Eq, Structural)]
pub struct ConfigDiff {
    pub colors: bool,
    pub cursor: bool,
    pub glyph_protocol: bool,
    pub font: bool,
    pub ui_families: bool,
    pub window_title: bool,
    pub diagnostics: bool,
    /// A setting changed that only new sessions or windows pick up.
    pub new_session_settings: bool,
    /// The new configuration hides the mouse pointer while typing.
    pub hides_pointer_while_typing: bool,
}

/// What an accepted reload asks of the window; the values come from the new configuration.
#[derive(Clone, Copy, Debug, PartialEq, Eq, Structural)]
pub enum ReloadEffect {
    SetTerminalTextConfig,
    SetUiFonts,
    SetWindowTitle,
    /// The pointer shows again over the terminal (the new configuration stopped hiding it).
    SetTerminalCursorIcon,
    RequestRepaint,
}

/// The result of a reload.
#[derive(Clone, Debug)]
pub enum ReloadPlan {
    /// Keep the previous configuration, ask nothing of the window, and show this error.
    Rejected { error: String },
    /// Take the new configuration.
    Accepted {
        /// What to ask of the window, in order.
        effects: Vec<ReloadEffect>,
        /// Rebuild the stability trace for the new diagnostics settings.
        rebuild_stability_trace: bool,
        /// Whether settings that need a new window are still waiting.
        pending_new_session_changes: bool,
        /// The message to show, if any.
        last_error: Option<String>,
        /// Whether the pointer stays hidden while typing.
        pointer_hidden: bool,
        /// Reload the session-name and session-order stores for the new configuration and drop
        /// the generated names still pending.
        reset_session_names: bool,
    },
}

pub open spec fn opt_text(s: Option<String>) -> Option<Seq<char>> {
    match s {
        Some(t) => Some(t@),
        None => None,
    }
}

/// The error that rejects the reload: the first failing stage, the terminal updates counting
/// only where their part of the configuration changed.
pub open spec fn first_failure(o: ReloadOutcome, d: ConfigDiff) -> Option<Seq<char>> {
    if o.load is Some {
        opt_text(o.load)
    } else if o.modifier_remaps is Some {
        opt_text(o.modifier_remaps)
    } else if o.keybinds is Some {
        opt_text(o.keybinds)
    } else if o.sidebar_keybinds is Some {
        opt_text(o.sidebar_keybinds)
    } else if d.colors && o.terminal_colors is Some {
        opt_text(o.terminal_colors)
    } else if d.cursor && o.cursor is Some {
        opt_text(o.cursor)
    } else if d.glyph_protocol && o.features is Some {
        opt_text(o.features)
    } else {
        None
    }
}

/// The window requests of an accepted reload: the terminal text settings when the font
/// changed, then the UI fonts when their families changed too, then the window title, then the
/// pointer's icon when a hidden pointer is no longer to be hidden, and last a repaint.
pub open spec fn reload_effects(d: ConfigDiff, pointer_hidden: bool) -> Seq<ReloadEffect> {
    let font = if d.font {
        if d.ui_families {
            seq![ReloadEffect::SetTerminalTextConfig, ReloadEffect::SetUiFonts]
        } else {
            seq![ReloadEffect::SetTerminalTextConfig]
        }
    } else {
        Seq::empty()
    };
    let titled = if d.window_title {
        font.push(ReloadEffect::SetWindowTitle)
    } else {
        font
    };
    let pointed = if pointer_hidden && !d.hides_pointer_while_typing {
        titled.push(ReloadEffect::SetTerminalCursorIcon)
    } else {
        titled
    };
    pointed.push(ReloadEffect::RequestRepaint)
}

/// The note shown while settings that need a new window are waiting.
pub open spec fn restart_note() -> Seq<char> {
    "config reloaded; session/window settings require a new window or restart"@
}

/// The message an accepted reload leaves: the restart note while such settings wait, followed
/// by the compatibility warning when there is one; otherwise the warning alone.
pub open spec fn reload_message(pending: bool, warning: Option<Seq<char>>) -> Option<Seq<char>> {
    if pending {
        match warning {
            Some(w) => Some(restart_note() + "; "@ + w),
            None => Some(restart_note()),
        }
    } else {
        warning
    }
}

/// Decides a reload from what its stages reported and what changed. `pending_before` says
/// whether settings needing a new window were already waiting; `warning` is the compatibility
/// warning of the new file; `pointer_hidden` whether the pointer is hidden while typing now.
pub fn reload_plan(
    outcome: ReloadOutcome,
    diff: ConfigDiff,
    pending_before: bool,
    warning: Option<String>,
    pointer_hidden: bool,
) -> (r: ReloadPlan)
    ensures
        match first_failure(outcome, diff) {
            Some(e) => r matches ReloadPlan::Rejected { error } && error@ == e,
            None => r matches ReloadPlan::Accepted {
                effects,
                rebuild_stability_trace,
                pending_new_session_changes,
                last_error,
                pointer_hidden: hidden_after,
                reset_session_names,
            } && effects@ == reload_effects(diff, pointer_hidden) && hidden_after == (pointer_hidden
                && diff.hides_pointer_while_typing) && reset_session_names && rebuild_stability_trace == diff.diagnostics
                && pending_new_session_changes == (diff.new_session_settings || pending_before)
                && opt_text(last_error) == reload_message(
                diff.new_session_settings || pending_before,
                opt_text(warning),
            ),
        },
{
    let failure: Option<String> = if outcome.load.is_some() {
        outcome.load
    } else if outcome.modifier_remaps.is_some() {
        outcome.modifier_remaps
    } else if outcome.keybinds.is_some() {
        outcome.keybinds
    } else if outcome.sidebar_keybinds.is_some() {
        outcome.sidebar_keybinds
    } else if diff.colors && outcome.terminal_colors.is_some() {
        outcome.terminal_colors
    } else if diff.cursor && outcome.cursor.is_some() {
        outcome.cursor
    } else if diff.glyph_protocol && outcome.features.is_some() {
        outcome.features
    } else {
        None
    };
    if let Some(error) = failure {
        return ReloadPlan::Rejected { error };
    }
    let mut effects: Vec<ReloadEffect> = Vec::new();
    if diff.font {
        effects.push(ReloadEffect::SetTerminalTextConfig);
        if diff.ui_families {
            effects.push(ReloadEffect::SetUiFonts);
        }
    }
    if diff.window_title {
        effects.push(ReloadEffect::SetWindowTitle);
    }
    let hidden_after = pointer_hidden && diff.hides_pointer_while_typing;
    if hidden_after != pointer_hidden {
        effects.push(ReloadEffect::SetTerminalCursorIcon);
    }
    effects.push(ReloadEffect::RequestRepaint);
    proof {
        assert(effects@ =~= reload_effects(diff, pointer_hidden));
    }
    let pending = diff.new_session_settings || pending_before;
    let last_error = if pending {
        let mut note = String::new();
        push_str(&mut note, "config reloaded; session/window settings require a new window or restart");
        match warning {
            Some(w) => {
                push_str(&mut note, "; ");
                push_str(&mut note, w.as_str());
                Some(note)
            },
            None => Some(note),
        }
    } else {
        warning
    };
    ReloadPlan::Accepted {
        effects,
        rebuild_stability_trace: diff.diagnostics,
        pending_new_session_changes: pending,
        last_error,
        pointer_hidden: hidden_after,
        reset_session_names: true,
    }
}

/// A reload is rejected only when some stage reported a failure, and while settings that need
/// a new window are waiting, the message of an accepted reload starts with the restart note.
pub proof fn lemma_reload_rejection_and_pending(o: ReloadOutcome, d: ConfigDiff, warning: Option<
    Seq<char>,
>)
    ensures
        first_failure(o, d) is Some ==> o.load is Some || o.modifier_remaps is Some || o.keybinds is Some
            || o.sidebar_keybinds is Some || o.terminal_colors is Some || o.cursor is Some
            || o.features is Some,
        reload_message(true, warning) matches Some(m) && m.subrange(0, restart_note().len() as int)
            == restart_note(),
{
    match warning {
        Some(w) => {
            assert((restart_note() + "; "@ + w).subrange(0, restart_note().len() as int) =~= restart_note());
        },
        None => {
            assert(restart_note().subrange(0, restart_note().len() as int) =~= restart_note());
        },
    }
}

} // verus!
