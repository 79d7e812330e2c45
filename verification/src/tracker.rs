//! The per-action debounced transition-status state machine.

use vstd::prelude::*;

use crate::actions::MenuAction;
use crate::input_map::InputMap;
use crate::keys::InputSnapshot;

verus! {

/// The transition status of one action for the current step, obtained by
/// comparing the raw "down" sample against the previous step's status.
#[derive(Clone, Copy, Debug, PartialEq, Eq, Structural)]
pub enum ButtonStatus {
    /// The action's source went down this very step (down-edge).
    JustPressed,
    /// The action's source was already down and is still down.
    Held,
    /// The action's source went up this very step (up-edge).
    JustReleased,
    /// The action's source is up and was already up.
    Released,
}

impl ButtonStatus {
    /// Whether this status counts as "down": true for a fresh down-edge and
    /// for a sustained hold alike (pressed-or-held semantics).
    pub open spec fn spec_is_down(self) -> bool {
        self == ButtonStatus::JustPressed || self == ButtonStatus::Held
    }

    /// The status of the next step, given whether the action's raw sample is
    /// down during that step:
    /// up then down gives `JustPressed`; down then down gives `Held`;
    /// down then up gives `JustReleased`; up then up gives `Released`.
    pub open spec fn spec_transition(self, down: bool) -> ButtonStatus {
        if down {
            if self.spec_is_down() {
                ButtonStatus::Held
            } else {
                ButtonStatus::JustPressed
            }
        } else {
            if self.spec_is_down() {
                ButtonStatus::JustReleased
            } else {
                ButtonStatus::Released
            }
        }
    }

    /// Reports whether this status counts as "down".
    pub fn is_down(&self) -> (r: bool)
        ensures
            r == self.spec_is_down(),
    {
        match self {
            ButtonStatus::JustPressed => true,
            ButtonStatus::Held => true,
            ButtonStatus::JustReleased => false,
            ButtonStatus::Released => false,
        }
    }

    /// Advances this status by one step, given the raw "down" sample of that
    /// step.
    pub fn transition(self, down: bool) -> (next: ButtonStatus)
        ensures
            next == self.spec_transition(down),
    {
        if down {
            if self.is_down() {
                ButtonStatus::Held
            } else {
                ButtonStatus::JustPressed
            }
        } else {
            if self.is_down() {
                ButtonStatus::JustReleased
            } else {
                ButtonStatus::Released
            }
        }
    }
}

/// The per-action action state: one transition status for every action of
/// the closed action set, advanced exactly once per step and only queried
/// otherwise.
#[derive(Clone, Copy, Debug, PartialEq, Eq, Structural)]
pub struct ActionTracker {
    pub previous: ButtonStatus,
    pub next: ButtonStatus,
    pub click: ButtonStatus,
}

impl ActionTracker {
    /// The status this tracker records for `action`.
    pub open spec fn spec_status(self, action: MenuAction) -> ButtonStatus {
        match action {
            MenuAction::Previous => self.previous,
            MenuAction::Next => self.next,
            MenuAction::Click => self.click,
        }
    }

    /// A fresh tracker: every action starts fully released, so the first
    /// step after installation treats a down source as a fresh down-edge.
    pub open spec fn spec_fresh() -> ActionTracker {
        ActionTracker {
            previous: ButtonStatus::Released,
            next: ButtonStatus::Released,
            click: ButtonStatus::Released,
        }
    }

    /// The tracker after consuming one raw snapshot: every action's status
    /// advances once, driven by whether any of its bound sources is down.
    pub open spec fn spec_update(self, map: InputMap, snap: InputSnapshot) -> ActionTracker {
        ActionTracker {
            previous: self.previous.spec_transition(
                map.spec_action_down(snap, MenuAction::Previous),
            ),
            next: self.next.spec_transition(map.spec_action_down(snap, MenuAction::Next)),
            click: self.click.spec_transition(map.spec_action_down(snap, MenuAction::Click)),
        }
    }

    /// Whether `action` saw its down-edge this very step.
    pub open spec fn spec_just_pressed(self, action: MenuAction) -> bool {
        self.spec_status(action) == ButtonStatus::JustPressed
    }

    /// Whether `action` is down this step, freshly or sustained.
    pub open spec fn spec_held(self, action: MenuAction) -> bool {
        self.spec_status(action).spec_is_down()
    }

    /// Whether `action` saw its up-edge this very step.
    pub open spec fn spec_just_released(self, action: MenuAction) -> bool {
        self.spec_status(action) == ButtonStatus::JustReleased
    }

    /// Builds a fresh tracker with every action released.
    pub fn new() -> (tracker: ActionTracker)
        ensures
            tracker == Self::spec_fresh(),
    {
        ActionTracker {
            previous: ButtonStatus::Released,
            next: ButtonStatus::Released,
            click: ButtonStatus::Released,
        }
    }

    /// Consumes one raw snapshot and advances every action's status exactly
    /// once, comparing the current raw sample against the previous status.
    pub fn update(&mut self, map: &InputMap, snap: &InputSnapshot)
        ensures
            *final(self) == old(self).spec_update(*map, *snap),
    {
        self.previous = self.previous.transition(map.action_down(snap, MenuAction::Previous));
        self.next = self.next.transition(map.action_down(snap, MenuAction::Next));
        self.click = self.click.transition(map.action_down(snap, MenuAction::Click));
    }

    /// Returns the status recorded for `action`. Querying never mutates.
    pub fn status(&self, action: MenuAction) -> (status: ButtonStatus)
        ensures
            status == self.spec_status(action),
    {
        match action {
            MenuAction::Previous => self.previous,
            MenuAction::Next => self.next,
            MenuAction::Click => self.click,
        }
    }

    /// Reports whether `action` saw its down-edge this step.
    pub fn just_pressed(&self, action: MenuAction) -> (r: bool)
        ensures
            r == self.spec_just_pressed(action),
    {
        let status = self.status(action);
        match status {
            ButtonStatus::JustPressed => true,
            _ => false,
        }
    }

    /// Reports whether `action` is down this step, freshly or sustained.
    pub fn held(&self, action: MenuAction) -> (r: bool)
        ensures
            r == self.spec_held(action),
    {
        self.status(action).is_down()
    }

    /// Reports whether `action` saw its up-edge this step.
    pub fn just_released(&self, action: MenuAction) -> (r: bool)
        ensures
            r == self.spec_just_released(action),
    {
        let status = self.status(action);
        match status {
            ButtonStatus::JustReleased => true,
            _ => false,
        }
    }
}

/// An action none of whose bound sources is down never comes out of an
/// update as held or just-pressed: with no raw source down there is no
/// active action.
pub proof fn lemma_no_source_down_is_neutral(
    tracker: ActionTracker,
    map: InputMap,
    snap: InputSnapshot,
    action: MenuAction,
)
    requires
        !map.spec_action_down(snap, action),
    ensures
        !tracker.spec_update(map, snap).spec_held(action),
        !tracker.spec_update(map, snap).spec_just_pressed(action),
{
}

/// The down-edge lasts exactly one step: if an action is held (down) at one
/// step and its bound sources remain down, then after the next update it is
/// still held but no longer just-pressed.
pub proof fn lemma_held_stays_held(
    tracker: ActionTracker,
    map: InputMap,
    snap: InputSnapshot,
    action: MenuAction,
)
    requires
        tracker.spec_held(action),
        map.spec_action_down(snap, action),
    ensures
        tracker.spec_update(map, snap).spec_held(action),
        !tracker.spec_update(map, snap).spec_just_pressed(action),
{
}

} // verus!
