use office_fever::asset_tracking::ResourceHandles;
use office_fever::audio::{layer_step, world_sound_path, LayerCommand, LayerKey, WorldSounds};
use office_fever::dialogue::{
    auto_continue_runs, continue_action, present_line_speaker, runner_moves_on, voice_line_path,
    ContinueAction,
};
use office_fever::door::{
    blocked_step, close_door_step, door_parts, interact_with_door, lock_step, HingeState,
};
use office_fever::fever::{Fever, FeverSourceOf, FeverSourceTimer, FeverSources, FeverTimer, Feverish};
use office_fever::npc::{animation_transition, desired_state, NpcAnimationState, NpcClip};

#[test]
fn resource_handles_counts() {
    let mut handles: ResourceHandles<&str, u8> = ResourceHandles::new();
    assert!(handles.is_all_done());
    handles.add_waiting(1, "level", 10);
    handles.add_waiting(2, "music", 20);
    assert!(!handles.is_all_done());
    assert_eq!(handles.total_count(), 2);
    assert_eq!(handles.finished_count(), 0);
    let mut ids = handles.waiting_ids();
    ids.sort();
    assert_eq!(ids, vec![1, 2]);
    assert_eq!(handles.finish_waiting(2), Some(20));
    assert_eq!(handles.last_finished(), Some(&"music"));
    assert_eq!(handles.total_count(), 2);
    assert_eq!(handles.finished_count(), 1);
    assert_eq!(handles.finish_waiting(2), None);
    assert_eq!(handles.finish_waiting(1), Some(10));
    assert!(handles.is_all_done());
    assert_eq!(handles.finished_count(), handles.total_count());
    handles.clear();
    assert_eq!(handles.total_count(), 0);
    assert_eq!(handles.last_finished(), None);
}

#[test]
fn re_adding_a_waiting_asset_replaces_it() {
    let mut handles: ResourceHandles<u32, u32> = ResourceHandles::new();
    handles.add_waiting(7, 1, 1);
    handles.add_waiting(7, 2, 2);
    assert_eq!(handles.waiting_count(), 1);
    assert_eq!(handles.finish_waiting(7), Some(2));
}

#[test]
fn layer_steps() {
    assert_eq!(layer_step(0, LayerKey::Up, false), (1, LayerCommand::Play));
    assert_eq!(layer_step(3, LayerKey::Up, true), (4, LayerCommand::Keep));
    assert_eq!(layer_step(4, LayerKey::Up, true), (4, LayerCommand::Keep));
    assert_eq!(layer_step(1, LayerKey::Down, true), (0, LayerCommand::Stop));
    assert_eq!(layer_step(0, LayerKey::Down, true), (0, LayerCommand::Stop));
    assert_eq!(layer_step(0, LayerKey::Down, false), (0, LayerCommand::Keep));
    assert_eq!(layer_step(3, LayerKey::Down, true), (2, LayerCommand::Keep));
}

#[test]
fn world_sounds() {
    assert_eq!(world_sound_path(WorldSounds::Computer), "audio/sound_effects/office/computer.ogg");
    assert_eq!(world_sound_path(WorldSounds::Mouth), "audio/sound_effects/mouth.ogg");
}

#[test]
fn voice_paths_strip_line_prefix() {
    assert_eq!(voice_line_path("line:intro_01"), "audio/voice/intro_01.ogg");
    assert_eq!(voice_line_path("intro_01"), "audio/voice/intro_01.ogg");
    assert_eq!(voice_line_path("line:"), "audio/voice/.ogg");
}

#[test]
fn speakers() {
    let (name, event) = present_line_speaker(Some("Jan"));
    assert_eq!(name, "Jan");
    let event = event.unwrap();
    assert_eq!(event.character_name, "Jan");
    assert!(event.speaking);
    let (name, event) = present_line_speaker(None);
    assert_eq!(name, "");
    assert!(event.is_none());
}

#[test]
fn continue_rules() {
    assert_eq!(continue_action(true, false, false, false), ContinueAction::FastForward);
    assert_eq!(continue_action(true, true, false, false), ContinueAction::Continue);
    assert_eq!(continue_action(false, true, true, false), ContinueAction::Continue);
    assert_eq!(continue_action(true, true, false, true), ContinueAction::Wait);
    assert_eq!(continue_action(false, true, false, false), ContinueAction::Wait);
    assert!(auto_continue_runs(true, false));
    assert!(!auto_continue_runs(true, true));
    assert!(!auto_continue_runs(false, false));
    assert!(runner_moves_on(true, false));
    assert!(!runner_moves_on(true, true));
}

#[test]
fn door_rules() {
    let open = HingeState { dominance: 1, motor_enabled: false };
    assert_eq!(close_door_step(open, false, true), HingeState { dominance: 0, motor_enabled: false });
    assert_eq!(close_door_step(open, true, true), HingeState { dominance: 1, motor_enabled: true });
    assert_eq!(close_door_step(open, true, false), HingeState { dominance: 1, motor_enabled: false });
    assert!(lock_step(true, false));
    assert!(!lock_step(false, false));
    assert!(!blocked_step(false, true, true));
    assert!(blocked_step(true, true, true));
    assert!(blocked_step(false, true, false));
    let push = interact_with_door(true, true, false);
    assert!(!push.motor_enabled);
    assert_eq!(push.torque_sign, -1);
    let push = interact_with_door(false, true, false);
    assert!(push.motor_enabled);
    assert_eq!(push.torque_sign, 1);
}

#[test]
fn npc_animation_rules() {
    assert_eq!(desired_state(Some(NpcAnimationState::Typing), false, true, true), NpcAnimationState::Typing);
    assert_eq!(desired_state(None, false, true, true), NpcAnimationState::Airborne);
    assert_eq!(desired_state(None, true, true, true), NpcAnimationState::Running);
    assert_eq!(desired_state(None, true, false, true), NpcAnimationState::Walking);
    assert_eq!(desired_state(None, true, false, false), NpcAnimationState::Standing);
    assert_eq!(animation_transition(NpcAnimationState::Walking, NpcAnimationState::Walking), None);
    assert_eq!(
        animation_transition(NpcAnimationState::Walking, NpcAnimationState::Airborne),
        Some((NpcClip::Run, 200))
    );
    assert_eq!(
        animation_transition(NpcAnimationState::Standing, NpcAnimationState::Dancing),
        Some((NpcClip::Dance, 800))
    );
}

#[test]
fn fever_components() {
    let sources = FeverSources::new(vec![3, 4]);
    assert_eq!(sources.as_slice(), &[3, 4]);
    assert!(FeverSources::default().as_slice().is_empty());
    assert_eq!(FeverSourceOf(3).0, 3);
    assert_eq!(Fever, Fever);
    assert_eq!(Feverish, Feverish);
    let timer = FeverSourceTimer::default();
    assert_eq!(timer.0.duration(), std::time::Duration::from_secs(1));
    assert_eq!(timer.0.mode(), bevy::time::TimerMode::Repeating);
    assert_eq!(FeverTimer::default().0.duration(), std::time::Duration::from_secs(1));
}

#[test]
fn finishing_loaded_assets_in_order() {
    let mut handles: ResourceHandles<&str, u8> = ResourceHandles::new();
    handles.add_waiting(1, "level", 10);
    handles.add_waiting(2, "music", 20);
    handles.add_waiting(3, "font", 30);
    let inserts = handles.finish_loaded(&vec![3, 9, 1, 3]);
    assert_eq!(inserts, vec![30, 10]);
    assert_eq!(handles.finished_handles(), &["font", "level"]);
    assert_eq!(handles.waiting_count(), 1);
    assert_eq!(handles.total_count(), 3);
    assert!(handles.finished_count() <= handles.total_count());
    assert!(!handles.is_all_done());
    assert_eq!(handles.finish_loaded(&vec![2]), vec![20]);
    assert!(handles.is_all_done());
    assert_eq!(handles.finished_count(), handles.total_count());
}

#[test]
fn door_model_parts() {
    let parts = vec![
        (1, "Frame".to_string()),
        (2, "DoorknobBack".to_string()),
        (3, "DoorPanel".to_string()),
        (4, "DoorknobFront".to_string()),
        (5, "DoorPanel".to_string()),
    ];
    assert_eq!(door_parts(&parts), Some((3, vec![2, 4])));
    let no_panel = vec![(1, "Frame".to_string()), (2, "DoorknobFront".to_string())];
    assert_eq!(door_parts(&no_panel), None);
    assert_eq!(door_parts(&vec![(8, "DoorPanel".to_string())]), Some((8, vec![])));
}
