//! Physical input sources and the raw per-step snapshot.

use vstd::prelude::*;

verus! {

/// A physical input source the engine can observe.
///
/// The set is closed and known at configuration time; a source with no
/// binding in the active input map is simply ignored.
#[derive(Clone, Copy, Debug, PartialEq, Eq, Structural)]
pub enum Key {
    ArrowUp,
    ArrowDown,
    Enter,
    Escape,
}

/// One raw-input sample: the down/up state of every physical source during
/// one step, as provided by the host's poller.
#[derive(Clone, Copy, Debug, PartialEq, Eq, Structural)]
pub struct InputSnapshot {
    pub arrow_up: bool,
    pub arrow_down: bool,
    pub enter: bool,
    pub escape: bool,
}

impl InputSnapshot {
    /// Whether `key` is down in this snapshot.
    pub open spec fn spec_down(self, key: Key) -> bool {
        match key {
            Key::ArrowUp => self.arrow_up,
            Key::ArrowDown => self.arrow_down,
            Key::Enter => self.enter,
            Key::Escape => self.escape,
        }
    }

    /// A snapshot in which no source is down.
    pub open spec fn spec_idle() -> InputSnapshot {
        InputSnapshot { arrow_up: false, arrow_down: false, enter: false, escape: false }
    }

    /// Builds the snapshot of a step during which no source was down.
    pub fn idle() -> (snap: InputSnapshot)
        ensures
            snap == Self::spec_idle(),
    {
        InputSnapshot { arrow_up: false, arrow_down: false, enter: false, escape: false }
    }

    /// Reports whether `key` is down in this snapshot.
    pub fn down(&self, key: Key) -> (r: bool)
        ensures
            r == self.spec_down(key),
    {
        match key {
            Key::ArrowUp => self.arrow_up,
            Key::ArrowDown => self.arrow_down,
            Key::Enter => self.enter,
            Key::Escape => self.escape,
        }
    }
}

} // verus!
