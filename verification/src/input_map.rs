//! The table binding physical sources to logical actions.

use vstd::prelude::*;

use crate::actions::MenuAction;
use crate::keys::{InputSnapshot, Key};

verus! {

/// A configurable table mapping each physical source to at most one logical
/// action. Several sources may map to the same action; rebinding a source
/// silently overwrites its prior binding.
#[derive(Clone, Copy, Debug, PartialEq, Eq, Structural)]
pub struct InputMap {
    pub arrow_up: Option<MenuAction>,
    pub arrow_down: Option<MenuAction>,
    pub enter: Option<MenuAction>,
    pub escape: Option<MenuAction>,
}

impl InputMap {
    /// The action bound to `key`, if any.
    pub open spec fn spec_resolve(self, key: Key) -> Option<MenuAction> {
        match key {
            Key::ArrowUp => self.arrow_up,
            Key::ArrowDown => self.arrow_down,
            Key::Enter => self.enter,
            Key::Escape => self.escape,
        }
    }

    /// A map with no bindings at all.
    pub open spec fn spec_empty() -> InputMap {
        InputMap { arrow_up: None, arrow_down: None, enter: None, escape: None }
    }

    /// The map as it stands after binding `key` to `action`: `key` now
    /// resolves to `action` and every other source keeps its binding.
    pub open spec fn spec_bind(self, key: Key, action: MenuAction) -> InputMap {
        match key {
            Key::ArrowUp => InputMap { arrow_up: Some(action), ..self },
            Key::ArrowDown => InputMap { arrow_down: Some(action), ..self },
            Key::Enter => InputMap { enter: Some(action), ..self },
            Key::Escape => InputMap { escape: Some(action), ..self },
        }
    }

    /// Whether `key` both is bound to `action` and is down in `snap`.
    pub open spec fn spec_key_triggers(
        self,
        snap: InputSnapshot,
        key: Key,
        action: MenuAction,
    ) -> bool {
        self.spec_resolve(key) == Some(action) && snap.spec_down(key)
    }

    /// Whether `action` counts as down under `snap`: true when any source
    /// bound to it is down (logical OR over its sources).
    pub open spec fn spec_action_down(self, snap: InputSnapshot, action: MenuAction) -> bool {
        exists|key: Key| self.spec_key_triggers(snap, key, action)
    }

    /// Builds a map with no bindings.
    pub fn empty() -> (map: InputMap)
        ensures
            map == Self::spec_empty(),
    {
        InputMap { arrow_up: None, arrow_down: None, enter: None, escape: None }
    }

    /// Registers a binding from `key` to `action`, silently overwriting any
    /// prior binding of `key` and leaving every other source untouched.
    pub fn bind(&mut self, key: Key, action: MenuAction)
        ensures
            *final(self) == old(self).spec_bind(key, action),
            final(self).spec_resolve(key) == Some(action),
            forall|other: Key| other != key
                ==> final(self).spec_resolve(other) == old(self).spec_resolve(other),
    {
        match key {
            Key::ArrowUp => self.arrow_up = Some(action),
            Key::ArrowDown => self.arrow_down = Some(action),
            Key::Enter => self.enter = Some(action),
            Key::Escape => self.escape = Some(action),
        }
    }

    /// Looks up the action bound to `key`, or `None` for an unbound source.
    pub fn resolve(&self, key: Key) -> (r: Option<MenuAction>)
        ensures
            r == self.spec_resolve(key),
    {
        match key {
            Key::ArrowUp => self.arrow_up,
            Key::ArrowDown => self.arrow_down,
            Key::Enter => self.enter,
            Key::Escape => self.escape,
        }
    }

    /// Reports whether `key` is bound to `action` and down in `snap`.
    fn key_triggers(&self, snap: &InputSnapshot, key: Key, action: MenuAction) -> (r: bool)
        ensures
            r == self.spec_key_triggers(*snap, key, action),
    {
        match self.resolve(key) {
            Some(bound) => bound == action && snap.down(key),
            None => false,
        }
    }

    /// Reports whether `action` is down under `snap`: true exactly when some
    /// source bound to `action` is down.
    pub fn action_down(&self, snap: &InputSnapshot, action: MenuAction) -> (r: bool)
        ensures
            r == self.spec_action_down(*snap, action),
    {
        let r = self.key_triggers(snap, Key::ArrowUp, action)
            || self.key_triggers(snap, Key::ArrowDown, action)
            || self.key_triggers(snap, Key::Enter, action)
            || self.key_triggers(snap, Key::Escape, action);
        proof {
            if r {
                assert(exists|key: Key| self.spec_key_triggers(*snap, key, action));
            } else {
                assert forall|key: Key| !self.spec_key_triggers(*snap, key, action) by {
                    match key {
                        Key::ArrowUp => {}
                        Key::ArrowDown => {}
                        Key::Enter => {}
                        Key::Escape => {}
                    }
                }
            }
        }
        r
    }
}

impl MenuAction {
    /// The default bindings of a freshly installed menu input map:
    /// arrow-up to `Previous`, arrow-down to `Next`, enter to `Click`,
    /// and escape left unbound.
    pub open spec fn spec_default_input_map() -> InputMap {
        InputMap {
            arrow_up: Some(MenuAction::Previous),
            arrow_down: Some(MenuAction::Next),
            enter: Some(MenuAction::Click),
            escape: None,
        }
    }

    /// Builds the default menu input map.
    pub fn default_input_map() -> (map: InputMap)
        ensures
            map == Self::spec_default_input_map(),
            map.spec_resolve(Key::ArrowUp) == Some(MenuAction::Previous),
            map.spec_resolve(Key::ArrowDown) == Some(MenuAction::Next),
            map.spec_resolve(Key::Enter) == Some(MenuAction::Click),
            map.spec_resolve(Key::Escape) is None,
    {
        let mut map = InputMap::empty();
        map.bind(Key::ArrowUp, MenuAction::Previous);
        map.bind(Key::ArrowDown, MenuAction::Next);
        map.bind(Key::Enter, MenuAction::Click);
        map
    }
}

/// Under the default bindings each action has exactly one source, so the
/// action is down exactly when that source is down: arrow-up drives
/// `Previous`, arrow-down drives `Next`, and enter drives `Click`.
pub proof fn lemma_default_map_action_down(snap: InputSnapshot, action: MenuAction)
    ensures
        MenuAction::spec_default_input_map().spec_action_down(snap, action) == (match action {
            MenuAction::Previous => snap.arrow_up,
            MenuAction::Next => snap.arrow_down,
            MenuAction::Click => snap.enter,
        }),
{
    let map = MenuAction::spec_default_input_map();
    match action {
        MenuAction::Previous => {
            if snap.arrow_up {
                assert(map.spec_key_triggers(snap, Key::ArrowUp, action));
            }
        },
        MenuAction::Next => {
            if snap.arrow_down {
                assert(map.spec_key_triggers(snap, Key::ArrowDown, action));
            }
        },
        MenuAction::Click => {
            if snap.enter {
                assert(map.spec_key_triggers(snap, Key::Enter, action));
            }
        },
    }
    if map.spec_action_down(snap, action) {
        let key = choose|key: Key| map.spec_key_triggers(snap, key, action);
        match key {
            Key::ArrowUp => {},
            Key::ArrowDown => {},
            Key::Enter => {},
            Key::Escape => {},
        }
    }
}

} // verus!
