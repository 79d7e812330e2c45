//! The mode-scoped binding lifecycle and the per-step dispatch pipeline.

use vstd::prelude::*;

use crate::actions::{MenuAction, MenuEvent};
use crate::input_map::InputMap;
use crate::keys::InputSnapshot;
use crate::stages::MenuSet;
use crate::tracker::ActionTracker;

verus! {

/// The application's top-level context. Exactly one mode is active at a
/// time; transitions are driven by the host and flow through
/// [`MenuPlugin::set_mode`], which fires the lifecycle hooks.
#[derive(Clone, Copy, Debug, PartialEq, Eq, Hash, Structural)]
pub enum GameState {
    Uninitialized,
    Menu,
}

impl Default for GameState {
    /// The application starts out uninitialized.
    fn default() -> (mode: Self)
        ensures
            mode == GameState::Uninitialized,
    {
        GameState::Uninitialized
    }
}

/// The pair the lifecycle installs while the menu is active: the input map
/// and the action state tracker whose lifetime is bound to the menu's
/// active interval.
#[derive(Clone, Copy, Debug, PartialEq, Eq, Structural)]
pub struct Binding {
    pub map: InputMap,
    pub tracker: ActionTracker,
}

/// The engine: current mode plus the at-most-one installed binding. The
/// binding is exclusively owned here; consumers only query it.
#[derive(Clone, Copy, Debug, PartialEq, Eq, Structural)]
pub struct MenuPlugin {
    pub mode: GameState,
    pub binding: Option<Binding>,
}

impl MenuPlugin {
    /// The singleton invariant: the tracker exists exactly while the mode
    /// requiring input is active, and never outlives it.
    pub open spec fn wf(self) -> bool {
        self.binding is Some <==> self.mode == GameState::Menu
    }

    /// The engine after an install: a no-op when a binding already exists,
    /// otherwise the default input map with a fresh, fully released tracker.
    pub open spec fn spec_install(self) -> MenuPlugin {
        if self.binding is Some {
            self
        } else {
            MenuPlugin {
                mode: self.mode,
                binding: Some(
                    Binding {
                        map: MenuAction::spec_default_input_map(),
                        tracker: ActionTracker::spec_fresh(),
                    },
                ),
            }
        }
    }

    /// The engine after an uninstall: map and tracker both gone.
    pub open spec fn spec_uninstall(self) -> MenuPlugin {
        MenuPlugin { mode: self.mode, binding: None }
    }

    /// The engine after a mode transition: the new mode, with the binding
    /// installed on entry to the menu and destroyed on exit from it.
    pub open spec fn spec_set_mode(self, mode: GameState) -> MenuPlugin {
        let moved = MenuPlugin { mode: mode, binding: self.binding };
        if mode == GameState::Menu {
            moved.spec_install()
        } else {
            moved.spec_uninstall()
        }
    }

    /// Whether `action` saw its down-edge this step; false whenever no
    /// tracker is installed.
    pub open spec fn spec_just_pressed(self, action: MenuAction) -> bool {
        self.binding matches Some(b) && b.tracker.spec_just_pressed(action)
    }

    /// Whether `action` is down this step, freshly or sustained; false
    /// whenever no tracker is installed.
    pub open spec fn spec_held(self, action: MenuAction) -> bool {
        self.binding matches Some(b) && b.tracker.spec_held(action)
    }

    /// Whether `action` saw its up-edge this step; false whenever no
    /// tracker is installed.
    pub open spec fn spec_just_released(self, action: MenuAction) -> bool {
        self.binding matches Some(b) && b.tracker.spec_just_released(action)
    }

    /// The event the action stage emits: the first of `Previous` on its
    /// down-edge, `Next` while down, `Clicked` on its down-edge, in that
    /// priority order; nothing without an installed tracker.
    pub open spec fn spec_command(self) -> Option<MenuEvent> {
        match self.binding {
            Some(b) => if b.tracker.spec_just_pressed(MenuAction::Previous) {
                Some(MenuEvent::Previous)
            } else if b.tracker.spec_held(MenuAction::Next) {
                Some(MenuEvent::Next)
            } else if b.tracker.spec_just_pressed(MenuAction::Click) {
                Some(MenuEvent::Clicked)
            } else {
                None
            },
            None => None,
        }
    }

    /// What one stage does to the engine: the `Input` stage consumes the
    /// snapshot and advances the tracker once; every other stage leaves the
    /// engine untouched.
    pub open spec fn spec_stage_effect(self, stage: MenuSet, snap: InputSnapshot) -> MenuPlugin {
        if stage == MenuSet::Input {
            match self.binding {
                Some(b) => MenuPlugin {
                    mode: self.mode,
                    binding: Some(
                        Binding { map: b.map, tracker: b.tracker.spec_update(b.map, snap) },
                    ),
                },
                None => self,
            }
        } else {
            self
        }
    }

    /// The engine after one full step: every stage applied once, in the
    /// fixed order.
    pub open spec fn spec_step(self, snap: InputSnapshot) -> MenuPlugin {
        self.spec_stage_effect(MenuSet::PreInput, snap).spec_stage_effect(
            MenuSet::Input,
            snap,
        ).spec_stage_effect(MenuSet::PostInput, snap).spec_stage_effect(
            MenuSet::PreAction,
            snap,
        ).spec_stage_effect(MenuSet::Action, snap).spec_stage_effect(MenuSet::PostAction, snap)
    }

    /// Builds an engine in the uninitialized mode, with nothing installed.
    pub fn new() -> (plugin: MenuPlugin)
        ensures
            plugin.mode == GameState::Uninitialized,
            plugin.binding is None,
            plugin.wf(),
    {
        MenuPlugin { mode: GameState::Uninitialized, binding: None }
    }

    /// Entry hook of the input-requiring mode: installs the default input
    /// map with a fresh tracker, unless a binding already exists, in which
    /// case nothing changes — a duplicate install is a silent no-op.
    pub fn install_menu_keyhook(&mut self)
        ensures
            *final(self) == old(self).spec_install(),
            final(self).binding is Some,
            old(self).binding is Some ==> *final(self) == *old(self),
    {
        if self.binding.is_none() {
            self.binding = Some(
                Binding { map: MenuAction::default_input_map(), tracker: ActionTracker::new() },
            );
        }
    }

    /// Exit hook of the input-requiring mode: destroys the tracker and the
    /// map if they exist; a no-op otherwise.
    pub fn uninstall_menu_keyhook(&mut self)
        ensures
            *final(self) == old(self).spec_uninstall(),
            final(self).binding is None,
    {
        self.binding = None;
    }

    /// Applies a mode transition broadcast by the host's mode authority,
    /// firing the install hook on entry to the menu and the uninstall hook
    /// on exit, so that the singleton invariant always holds afterwards.
    pub fn set_mode(&mut self, mode: GameState)
        ensures
            *final(self) == old(self).spec_set_mode(mode),
            final(self).mode == mode,
            final(self).wf(),
    {
        self.mode = mode;
        if mode == GameState::Menu {
            self.install_menu_keyhook();
        } else {
            self.uninstall_menu_keyhook();
        }
    }

    /// Reports whether a tracker is currently installed.
    pub fn has_tracker(&self) -> (r: bool)
        ensures
            r == (self.binding is Some),
    {
        self.binding.is_some()
    }

    /// Reports whether `action` saw its down-edge this step; never a crash
    /// without a tracker, just false.
    pub fn just_pressed(&self, action: MenuAction) -> (r: bool)
        ensures
            r == self.spec_just_pressed(action),
    {
        match &self.binding {
            Some(b) => b.tracker.just_pressed(action),
            None => false,
        }
    }

    /// Reports whether `action` is down this step; never a crash without a
    /// tracker, just false.
    pub fn held(&self, action: MenuAction) -> (r: bool)
        ensures
            r == self.spec_held(action),
    {
        match &self.binding {
            Some(b) => b.tracker.held(action),
            None => false,
        }
    }

    /// Reports whether `action` saw its up-edge this step; never a crash
    /// without a tracker, just false.
    pub fn just_released(&self, action: MenuAction) -> (r: bool)
        ensures
            r == self.spec_just_released(action),
    {
        match &self.binding {
            Some(b) => b.tracker.just_released(action),
            None => false,
        }
    }

    /// Consumer logic of the action stage: reads the fully updated tracker
    /// and emits at most one event, never mutating anything.
    pub fn process_menu_keyhook(&self) -> (ev: Option<MenuEvent>)
        ensures
            ev == self.spec_command(),
    {
        match &self.binding {
            Some(b) => if b.tracker.just_pressed(MenuAction::Previous) {
                Some(MenuEvent::Previous)
            } else if b.tracker.held(MenuAction::Next) {
                Some(MenuEvent::Next)
            } else if b.tracker.just_pressed(MenuAction::Click) {
                Some(MenuEvent::Clicked)
            } else {
                None
            },
            None => None,
        }
    }

    /// Runs one named stage of the current step: the `Input` stage advances
    /// the tracker once from the snapshot, the `Action` stage emits the
    /// consumer event, and every other stage leaves the engine untouched.
    pub fn run_stage(&mut self, stage: MenuSet, snap: &InputSnapshot) -> (ev: Option<MenuEvent>)
        ensures
            *final(self) == old(self).spec_stage_effect(stage, *snap),
            ev == (if stage == MenuSet::Action {
                old(self).spec_command()
            } else {
                None::<MenuEvent>
            }),
            old(self).wf() ==> final(self).wf(),
    {
        match stage {
            MenuSet::Input => {
                match &mut self.binding {
                    Some(b) => {
                        let map = b.map;
                        b.tracker.update(&map, snap);
                    },
                    None => {},
                }
                None
            },
            MenuSet::Action => self.process_menu_keyhook(),
            _ => None,
        }
    }

    /// Drives one full step: the six stages in their fixed order, each
    /// completing before the next starts. Raw input is consumed in the
    /// `Input` stage and the consumer event of the `Action` stage is
    /// returned; without an installed binding the step changes nothing and
    /// emits nothing.
    pub fn step(&mut self, snap: &InputSnapshot) -> (ev: Option<MenuEvent>)
        ensures
            *final(self) == old(self).spec_step(*snap),
            ev == old(self).spec_step(*snap).spec_command(),
            final(self).mode == old(self).mode,
            old(self).wf() ==> final(self).wf(),
    {
        let _pre_input = self.run_stage(MenuSet::PreInput, snap);
        let _input = self.run_stage(MenuSet::Input, snap);
        let _post_input = self.run_stage(MenuSet::PostInput, snap);
        let _pre_action = self.run_stage(MenuSet::PreAction, snap);
        let action_ev = self.run_stage(MenuSet::Action, snap);
        let _post_action = self.run_stage(MenuSet::PostAction, snap);
        action_ev
    }
}

/// Installing is idempotent: a second install without an intervening exit
/// is exactly the state of the first, with its single tracker and its
/// in-progress transition statuses untouched.
pub proof fn lemma_install_idempotent(plugin: MenuPlugin)
    ensures
        plugin.spec_install().spec_install() == plugin.spec_install(),
        plugin.binding is Some ==> plugin.spec_install() == plugin,
{
}

/// Every stage after `Input` leaves the engine untouched: the tracker can
/// only change while the `Input` stage runs.
pub proof fn lemma_late_stage_preserves_state(
    plugin: MenuPlugin,
    stage: MenuSet,
    snap: InputSnapshot,
)
    requires
        MenuSet::Input.spec_index() < stage.spec_index(),
    ensures
        plugin.spec_stage_effect(stage, snap) == plugin,
{
}

/// A handler in the `PostAction` stage observes exactly the per-action
/// statuses a handler in the `Action` stage observed during the same step:
/// nothing mutates the tracker between those stages.
pub proof fn lemma_action_and_post_action_agree(
    plugin: MenuPlugin,
    snap: InputSnapshot,
    action: MenuAction,
)
    ensures
        plugin.spec_stage_effect(MenuSet::Action, snap).spec_stage_effect(
            MenuSet::PostAction,
            snap,
        ) == plugin,
        plugin.spec_stage_effect(MenuSet::PostAction, snap).spec_just_pressed(action)
            == plugin.spec_just_pressed(action),
        plugin.spec_stage_effect(MenuSet::PostAction, snap).spec_held(action)
            == plugin.spec_held(action),
        plugin.spec_stage_effect(MenuSet::PostAction, snap).spec_just_released(action)
            == plugin.spec_just_released(action),
{
}

/// A step during which none of an action's bound sources is down leaves
/// that action neither held nor just-pressed.
pub proof fn lemma_step_no_source_down_is_neutral(
    plugin: MenuPlugin,
    snap: InputSnapshot,
    action: MenuAction,
)
    requires
        plugin.binding matches Some(b) ==> !b.map.spec_action_down(snap, action),
    ensures
        !plugin.spec_step(snap).spec_held(action),
        !plugin.spec_step(snap).spec_just_pressed(action),
{
}

/// The down-edge of an action lasts exactly one step: if the action is held
/// and its bound sources stay down through the next step, it comes out of
/// that step held but not just-pressed.
pub proof fn lemma_step_held_stays_held(
    plugin: MenuPlugin,
    snap: InputSnapshot,
    action: MenuAction,
)
    requires
        plugin.spec_held(action),
        plugin.binding matches Some(b) && b.map.spec_action_down(snap, action),
    ensures
        plugin.spec_step(snap).spec_held(action),
        !plugin.spec_step(snap).spec_just_pressed(action),
{
}

/// Exiting the menu destroys the tracker and re-entering installs a fresh
/// one: whatever was held before the exit, the first step after re-entry
/// treats a down source as a fresh down-edge and never inherits the stale
/// held status.
pub proof fn lemma_reentry_gives_fresh_edge(
    plugin: MenuPlugin,
    snap: InputSnapshot,
    action: MenuAction,
)
    requires
        MenuAction::spec_default_input_map().spec_action_down(snap, action),
    ensures
        plugin.spec_set_mode(GameState::Uninitialized).spec_set_mode(
            GameState::Menu,
        ).spec_step(snap).spec_just_pressed(action),
{
}

} // verus!
