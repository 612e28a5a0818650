use vstd::prelude::*;

verus! {

/// A request to the windowing layer, produced by the popup controller.
#[derive(Debug, Clone, Copy, PartialEq, Eq, Structural)]
pub enum WindowCommand {
    /// Create a popup window carrying this identifier.
    Open(u64),
    /// Destroy the popup window carrying this identifier.
    Close(u64),
}

/// Tracks at most one open popup window.
///
/// Identifiers are handed out from a counter, so an identifier is never
/// reused once it has been issued.
#[derive(Debug, Clone, Copy, PartialEq, Eq, Structural)]
pub struct Popup {
    pub current: Option<u64>,
    pub next_id: u64,
}

impl Popup {
    /// Every identifier handed out so far is below `next_id`.
    pub open spec fn wf(self) -> bool {
        match self.current {
            Some(id) => id < self.next_id,
            None => true,
        }
    }

    /// The controller after a toggle.
    pub open spec fn toggled(self) -> Popup {
        match self.current {
            Some(_) => Popup { current: None, next_id: self.next_id },
            None => if self.next_id < u64::MAX {
                Popup { current: Some(self.next_id), next_id: (self.next_id + 1) as u64 }
            } else {
                self
            },
        }
    }

    /// The window command that a toggle issues.
    pub open spec fn toggle_command(self) -> Option<WindowCommand> {
        match self.current {
            Some(id) => Some(WindowCommand::Close(id)),
            None => if self.next_id < u64::MAX {
                Some(WindowCommand::Open(self.next_id))
            } else {
                None
            },
        }
    }

    /// The controller after the windowing layer reports that `id` closed.
    pub open spec fn closed(self, id: u64) -> Popup {
        if self.current == Some(id) {
            Popup { current: None, next_id: self.next_id }
        } else {
            self
        }
    }

    pub fn new() -> (r: Popup)
        ensures
            r.current is None,
            r.next_id == 0,
            r.wf(),
    {
        Popup { current: None, next_id: 0 }
    }

    /// Opens a fresh window when none is open, and closes the open one otherwise.
    pub fn toggle(&mut self) -> (r: Option<WindowCommand>)
        requires
            old(self).wf(),
        ensures
            *final(self) == old(self).toggled(),
            r == old(self).toggle_command(),
            final(self).wf(),
    {
        match self.current {
            Some(id) => {
                self.current = None;
                Some(WindowCommand::Close(id))
            },
            None => {
                if self.next_id < u64::MAX {
                    let id = self.next_id;
                    self.current = Some(id);
                    self.next_id = id + 1;
                    Some(WindowCommand::Open(id))
                } else {
                    None
                }
            },
        }
    }

    /// Forgets the tracked window if `id` is the one that closed; a stale
    /// notification for an older window is ignored.
    pub fn close(&mut self, id: u64)
        requires
            old(self).wf(),
        ensures
            *final(self) == old(self).closed(id),
            final(self).wf(),
    {
        if self.current == Some(id) {
            self.current = None;
        }
    }
}

} // verus!
