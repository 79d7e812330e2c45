use menu_input::actions::{MenuAction, MenuEvent};
use menu_input::keys::{InputSnapshot, Key};
use menu_input::plugin::{GameState, MenuPlugin};
use menu_input::stages::MenuSet;
use menu_input::tracker::ButtonStatus;

fn snapshot(arrow_up: bool, arrow_down: bool, enter: bool, escape: bool) -> InputSnapshot {
    InputSnapshot { arrow_up, arrow_down, enter, escape }
}

fn menu_plugin() -> MenuPlugin {
    let mut plugin = MenuPlugin::new();
    plugin.set_mode(GameState::Menu);
    plugin
}

#[test]
fn four_step_arrow_scenario() {
    let mut plugin = menu_plugin();
    let up_down = snapshot(true, false, false, false);
    let idle = InputSnapshot::idle();

    let ev1 = plugin.step(&up_down);
    assert!(plugin.just_pressed(MenuAction::Previous));
    assert_eq!(ev1, Some(MenuEvent::Previous));

    let ev2 = plugin.step(&up_down);
    assert!(!plugin.just_pressed(MenuAction::Previous));
    assert!(plugin.held(MenuAction::Previous));
    assert_eq!(ev2, None);

    let ev3 = plugin.step(&idle);
    assert!(plugin.just_released(MenuAction::Previous));
    assert_eq!(ev3, None);

    let ev4 = plugin.step(&idle);
    assert!(!plugin.just_pressed(MenuAction::Previous));
    assert!(!plugin.held(MenuAction::Previous));
    assert!(!plugin.just_released(MenuAction::Previous));
    assert_eq!(ev4, None);
}

#[test]
fn reentry_treats_held_source_as_fresh_edge() {
    let mut plugin = menu_plugin();
    let up_down = snapshot(true, false, false, false);
    plugin.step(&up_down);
    plugin.step(&up_down);
    assert!(plugin.held(MenuAction::Previous));

    plugin.set_mode(GameState::Uninitialized);
    assert!(!plugin.has_tracker());

    plugin.set_mode(GameState::Menu);
    let ev = plugin.step(&up_down);
    assert!(plugin.just_pressed(MenuAction::Previous));
    assert!(!matches!(
        plugin.binding.unwrap().tracker.status(MenuAction::Previous),
        ButtonStatus::Held
    ));
    assert_eq!(ev, Some(MenuEvent::Previous));
}

#[test]
fn install_twice_keeps_one_tracker_and_its_state() {
    let mut plugin = menu_plugin();
    let up_down = snapshot(true, false, false, false);
    plugin.step(&up_down);
    let before = plugin.binding;
    assert!(plugin.just_pressed(MenuAction::Previous));

    plugin.install_menu_keyhook();
    assert!(plugin.has_tracker());
    assert_eq!(plugin.binding, before);
    assert!(plugin.just_pressed(MenuAction::Previous));
}

#[test]
fn uninstall_twice_is_a_no_op() {
    let mut plugin = menu_plugin();
    plugin.uninstall_menu_keyhook();
    assert!(!plugin.has_tracker());
    plugin.uninstall_menu_keyhook();
    assert!(!plugin.has_tracker());
}

#[test]
fn queries_without_tracker_are_neutral_not_a_crash() {
    let mut plugin = MenuPlugin::new();
    assert!(!plugin.just_pressed(MenuAction::Previous));
    assert!(!plugin.held(MenuAction::Next));
    assert!(!plugin.just_released(MenuAction::Click));
    assert_eq!(plugin.process_menu_keyhook(), None);

    let before = plugin;
    let ev = plugin.step(&snapshot(true, true, true, true));
    assert_eq!(ev, None);
    assert_eq!(plugin, before);
}

#[test]
fn handlers_in_action_and_post_action_observe_the_same_state() {
    let mut plugin = menu_plugin();
    let up_down = snapshot(true, false, false, false);

    plugin.run_stage(MenuSet::PreInput, &up_down);
    plugin.run_stage(MenuSet::Input, &up_down);
    plugin.run_stage(MenuSet::PostInput, &up_down);
    plugin.run_stage(MenuSet::PreAction, &up_down);

    let at_action = (
        plugin.just_pressed(MenuAction::Previous),
        plugin.held(MenuAction::Previous),
        plugin.just_released(MenuAction::Previous),
        plugin.binding,
    );
    let ev = plugin.run_stage(MenuSet::Action, &up_down);
    assert_eq!(ev, Some(MenuEvent::Previous));

    plugin.run_stage(MenuSet::PostAction, &up_down);
    let at_post_action = (
        plugin.just_pressed(MenuAction::Previous),
        plugin.held(MenuAction::Previous),
        plugin.just_released(MenuAction::Previous),
        plugin.binding,
    );
    assert_eq!(at_action, at_post_action);
}

#[test]
fn event_priority_is_previous_then_next_then_click() {
    let mut plugin = menu_plugin();
    let all_down = snapshot(true, true, true, false);
    let ev1 = plugin.step(&all_down);
    assert_eq!(ev1, Some(MenuEvent::Previous));
    let ev2 = plugin.step(&all_down);
    assert_eq!(ev2, Some(MenuEvent::Next));
}

#[test]
fn click_emits_only_on_its_down_edge() {
    let mut plugin = menu_plugin();
    let enter_down = snapshot(false, false, true, false);
    let ev1 = plugin.step(&enter_down);
    assert_eq!(ev1, Some(MenuEvent::Clicked));
    let ev2 = plugin.step(&enter_down);
    assert_eq!(ev2, None);
}

#[test]
fn sustained_next_emits_every_step() {
    let mut plugin = menu_plugin();
    let down_down = snapshot(false, true, false, false);
    assert_eq!(plugin.step(&down_down), Some(MenuEvent::Next));
    assert_eq!(plugin.step(&down_down), Some(MenuEvent::Next));
    assert_eq!(plugin.step(&down_down), Some(MenuEvent::Next));
}

#[test]
fn mode_transitions_keep_the_singleton_invariant() {
    let mut plugin = MenuPlugin::new();
    assert_eq!(plugin.mode, GameState::Uninitialized);
    assert!(!plugin.has_tracker());

    plugin.set_mode(GameState::Menu);
    assert_eq!(plugin.mode, GameState::Menu);
    assert!(plugin.has_tracker());

    plugin.set_mode(GameState::Menu);
    assert!(plugin.has_tracker());

    plugin.set_mode(GameState::Uninitialized);
    assert_eq!(plugin.mode, GameState::Uninitialized);
    assert!(!plugin.has_tracker());
}

#[test]
fn default_mode_is_uninitialized() {
    assert_eq!(GameState::default(), GameState::Uninitialized);
}

#[test]
fn stages_run_in_the_fixed_order() {
    assert_eq!(MenuSet::PreInput.index(), 0);
    assert_eq!(MenuSet::Input.index(), 1);
    assert_eq!(MenuSet::PostInput.index(), 2);
    assert_eq!(MenuSet::PreAction.index(), 3);
    assert_eq!(MenuSet::Action.index(), 4);
    assert_eq!(MenuSet::PostAction.index(), 5);

    assert_eq!(MenuSet::PreInput.next(), Some(MenuSet::Input));
    assert_eq!(MenuSet::Input.next(), Some(MenuSet::PostInput));
    assert_eq!(MenuSet::PostInput.next(), Some(MenuSet::PreAction));
    assert_eq!(MenuSet::PreAction.next(), Some(MenuSet::Action));
    assert_eq!(MenuSet::Action.next(), Some(MenuSet::PostAction));
    assert_eq!(MenuSet::PostAction.next(), None);

    assert!(MenuSet::Input.comes_before(&MenuSet::Action));
    assert!(!MenuSet::Action.comes_before(&MenuSet::Input));
    assert!(!MenuSet::Action.comes_before(&MenuSet::Action));
}

#[test]
fn installed_binding_uses_the_default_map() {
    let plugin = menu_plugin();
    let map = plugin.binding.unwrap().map;
    assert_eq!(map.resolve(Key::ArrowUp), Some(MenuAction::Previous));
    assert_eq!(map.resolve(Key::ArrowDown), Some(MenuAction::Next));
    assert_eq!(map.resolve(Key::Enter), Some(MenuAction::Click));
    assert_eq!(map.resolve(Key::Escape), None);
}
