//! Terminal mode state machine.
//!
//! The terminal itself is an external collaborator: the library only decides
//! *which* mode change must be performed, remembering which modes are already
//! in force so that every operation is idempotent. Each method updates the
//! recorded state and returns the command the embedding program must run
//! against the real terminal, or `None` when the terminal is already in the
//! requested mode.

use vstd::prelude::*;

verus! {

/// One mode change to perform against the real terminal.
#[derive(Clone, Copy, Debug, PartialEq, Eq, Structural)]
pub enum TermCommand {
    /// Switch to the alternate screen buffer.
    EnterAlternate,
    /// Switch back to the main screen buffer.
    LeaveAlternate,
    /// Enable raw (uncooked) input.
    EnableRaw,
    /// Disable raw input.
    DisableRaw,
    /// Hide the cursor.
    HideCursor,
    /// Show the cursor.
    ShowCursor,
    /// Disable automatic line wrapping.
    DisableWrap,
    /// Enable automatic line wrapping.
    EnableWrap,
}

/// The modes currently in force on the terminal, as far as this state
/// machine has been told. A fresh terminal is cooked, on the main screen,
/// with a visible cursor and wrapping enabled.
pub struct Terminal {
    /// Raw input is enabled.
    pub raw: bool,
    /// The alternate screen buffer is active.
    pub alternate: bool,
    /// The cursor is hidden.
    pub cursor_hidden: bool,
    /// Automatic line wrapping is enabled.
    pub wrapping: bool,
}

impl Terminal {
    /// The state of an untouched terminal.
    pub fn new() -> (t: Terminal)
        ensures
            !t.raw,
            !t.alternate,
            !t.cursor_hidden,
            t.wrapping,
    {
        Terminal { raw: false, alternate: false, cursor_hidden: false, wrapping: true }
    }

    /// Enter the alternate screen; a second call changes nothing.
    pub fn enter_alternate(&mut self) -> (cmd: Option<TermCommand>)
        ensures
            final(self).alternate,
            final(self).raw == old(self).raw,
            final(self).cursor_hidden == old(self).cursor_hidden,
            final(self).wrapping == old(self).wrapping,
            cmd == (if old(self).alternate {
                Option::<TermCommand>::None
            } else {
                Some(TermCommand::EnterAlternate)
            }),
    {
        if self.alternate {
            None
        } else {
            self.alternate = true;
            Some(TermCommand::EnterAlternate)
        }
    }

    /// Leave the alternate screen; a no-op when already on the main screen.
    pub fn leave_alternate(&mut self) -> (cmd: Option<TermCommand>)
        ensures
            !final(self).alternate,
            final(self).raw == old(self).raw,
            final(self).cursor_hidden == old(self).cursor_hidden,
            final(self).wrapping == old(self).wrapping,
            cmd == (if old(self).alternate {
                Some(TermCommand::LeaveAlternate)
            } else {
                Option::<TermCommand>::None
            }),
    {
        if self.alternate {
            self.alternate = false;
            Some(TermCommand::LeaveAlternate)
        } else {
            None
        }
    }

    /// Enable raw input on a writer already known not to be a terminal;
    /// a second call changes nothing.
    pub fn make_raw_nontty(&mut self) -> (cmd: Option<TermCommand>)
        ensures
            final(self).raw,
            final(self).alternate == old(self).alternate,
            final(self).cursor_hidden == old(self).cursor_hidden,
            final(self).wrapping == old(self).wrapping,
            cmd == (if old(self).raw {
                Option::<TermCommand>::None
            } else {
                Some(TermCommand::EnableRaw)
            }),
    {
        if self.raw {
            None
        } else {
            self.raw = true;
            Some(TermCommand::EnableRaw)
        }
    }

    /// Enable raw input; the mode change is only performed when the writer
    /// is a real terminal, but the state is recorded either way.
    pub fn make_raw(&mut self, is_tty: bool) -> (cmd: Option<TermCommand>)
        ensures
            final(self).raw,
            final(self).alternate == old(self).alternate,
            final(self).cursor_hidden == old(self).cursor_hidden,
            final(self).wrapping == old(self).wrapping,
            cmd == (if is_tty {
                Some(TermCommand::EnableRaw)
            } else {
                Option::<TermCommand>::None
            }),
    {
        self.raw = true;
        if is_tty {
            Some(TermCommand::EnableRaw)
        } else {
            None
        }
    }

    /// Disable raw input; a no-op when the terminal is already cooked.
    pub fn make_cooked(&mut self) -> (cmd: Option<TermCommand>)
        ensures
            !final(self).raw,
            final(self).alternate == old(self).alternate,
            final(self).cursor_hidden == old(self).cursor_hidden,
            final(self).wrapping == old(self).wrapping,
            cmd == (if old(self).raw {
                Some(TermCommand::DisableRaw)
            } else {
                Option::<TermCommand>::None
            }),
    {
        if self.raw {
            self.raw = false;
            Some(TermCommand::DisableRaw)
        } else {
            None
        }
    }

    /// Hide the cursor; a second call changes nothing.
    pub fn hide_cursor(&mut self) -> (cmd: Option<TermCommand>)
        ensures
            final(self).cursor_hidden,
            final(self).raw == old(self).raw,
            final(self).alternate == old(self).alternate,
            final(self).wrapping == old(self).wrapping,
            cmd == (if old(self).cursor_hidden {
                Option::<TermCommand>::None
            } else {
                Some(TermCommand::HideCursor)
            }),
    {
        if self.cursor_hidden {
            None
        } else {
            self.cursor_hidden = true;
            Some(TermCommand::HideCursor)
        }
    }

    /// Show the cursor; a no-op when it is already visible.
    pub fn show_cursor(&mut self) -> (cmd: Option<TermCommand>)
        ensures
            !final(self).cursor_hidden,
            final(self).raw == old(self).raw,
            final(self).alternate == old(self).alternate,
            final(self).wrapping == old(self).wrapping,
            cmd == (if old(self).cursor_hidden {
                Some(TermCommand::ShowCursor)
            } else {
                Option::<TermCommand>::None
            }),
    {
        if self.cursor_hidden {
            self.cursor_hidden = false;
            Some(TermCommand::ShowCursor)
        } else {
            None
        }
    }

    /// Disable automatic line wrapping; a second call changes nothing.
    pub fn disable_wrapping(&mut self) -> (cmd: Option<TermCommand>)
        ensures
            !final(self).wrapping,
            final(self).raw == old(self).raw,
            final(self).alternate == old(self).alternate,
            final(self).cursor_hidden == old(self).cursor_hidden,
            cmd == (if old(self).wrapping {
                Some(TermCommand::DisableWrap)
            } else {
                Option::<TermCommand>::None
            }),
    {
        if self.wrapping {
            self.wrapping = false;
            Some(TermCommand::DisableWrap)
        } else {
            None
        }
    }

    /// Re-enable automatic line wrapping; a no-op when it is already on.
    pub fn enable_wrapping(&mut self) -> (cmd: Option<TermCommand>)
        ensures
            final(self).wrapping,
            final(self).raw == old(self).raw,
            final(self).alternate == old(self).alternate,
            final(self).cursor_hidden == old(self).cursor_hidden,
            cmd == (if old(self).wrapping {
                Option::<TermCommand>::None
            } else {
                Some(TermCommand::EnableWrap)
            }),
    {
        if self.wrapping {
            None
        } else {
            self.wrapping = true;
            Some(TermCommand::EnableWrap)
        }
    }
}

} // verus!
