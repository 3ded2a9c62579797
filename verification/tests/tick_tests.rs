use guest_bridge::apply::HandleAllocator;
use guest_bridge::contract::{
    GuestError, InputState, LogLevel, PlayerState, INITIAL_SPEED_BITS,
};
use guest_bridge::effects::EffectQueue;
use guest_bridge::registry::Registry;
use guest_bridge::tick::{ui_toggle_event_name, TickSession};

fn right_only() -> InputState {
    InputState { right: true, left: false, up: false, down: false }
}

fn trap(message: &str) -> GuestError {
    GuestError { message: message.to_owned() }
}

/// The guest update the scenarios assume: add `speed * delta_time` to x when
/// `right` is held, mirroring for `left`, and likewise for y.
fn stub_update(input: InputState, state: PlayerState, delta_bits: u32) -> PlayerState {
    let dt = f32::from_bits(delta_bits);
    let speed = f32::from_bits(state.speed_bits);
    let mut x = f32::from_bits(state.x_bits);
    let mut y = f32::from_bits(state.y_bits);
    if input.right {
        x += speed * dt;
    }
    if input.left {
        x -= speed * dt;
    }
    if input.up {
        y += speed * dt;
    }
    if input.down {
        y -= speed * dt;
    }
    PlayerState { x_bits: x.to_bits(), y_bits: y.to_bits(), speed_bits: state.speed_bits }
}

#[test]
fn initial_state_matches_startup_constants() {
    let s = PlayerState::initial();
    assert_eq!(f32::from_bits(s.x_bits), 0.0);
    assert_eq!(f32::from_bits(s.y_bits), 0.0);
    assert_eq!(f32::from_bits(s.speed_bits), 200.0);
    assert_eq!(INITIAL_SPEED_BITS, 200.0f32.to_bits());
}

#[test]
fn mapping_failure_falls_back_to_raw_input() {
    let raw = right_only();
    let mut session = TickSession::begin(raw, PlayerState::initial(), 0, false);
    session.map_input_returned(Err(trap("mapper exploded")));
    assert_eq!(session.mapped_input(), raw);
}

#[test]
fn mapping_success_uses_guest_mapping() {
    let raw = right_only();
    let swapped = InputState { right: false, left: true, up: false, down: false };
    let mut session = TickSession::begin(raw, PlayerState::initial(), 0, false);
    session.map_input_returned(Ok(swapped));
    assert_eq!(session.mapped_input(), swapped);
}

#[test]
fn right_input_moves_x_by_speed_times_delta() {
    let raw = right_only();
    let delta_bits = 0.016f32.to_bits();
    let mut session = TickSession::begin(raw, PlayerState::initial(), delta_bits, false);
    session.map_input_returned(Ok(raw));
    let next = stub_update(session.mapped_input(), session.game_state(), session.delta_bits());
    session.update_returned(Ok(next));
    let x = f32::from_bits(session.game_state().x_bits);
    let y = f32::from_bits(session.game_state().y_bits);
    assert!((x - 3.2).abs() < 1e-4, "x was {x}");
    assert_eq!(y, 0.0);
}

#[test]
fn update_trap_leaves_game_state_unchanged_with_one_diagnostic() {
    let raw = right_only();
    let before = PlayerState { x_bits: 11, y_bits: 22, speed_bits: 33 };
    let mut session = TickSession::begin(raw, before, 0.016f32.to_bits(), false);
    session.map_input_returned(Ok(raw));
    session.update_returned(Err(trap("update exploded")));
    assert_eq!(session.game_state(), before);
    let mut registry = Registry::new();
    let mut alloc = HandleAllocator::new();
    let mut queue = EffectQueue::new();
    let _ = session.apply_effects(&mut registry, &mut alloc, &mut queue);
    let diags = session.take_diagnostics();
    assert_eq!(diags.len(), 1);
    assert_eq!(diags[0].level, LogLevel::Error);
    assert!(diags[0].message.contains("update exploded"));
}

#[test]
fn ui_event_runs_only_when_triggered() {
    let raw = right_only();
    let mut session = TickSession::begin(raw, PlayerState::initial(), 0, false);
    session.map_input_returned(Ok(raw));
    session.update_returned(Ok(PlayerState::initial()));
    assert!(!session.needs_ui_event());

    let mut session = TickSession::begin(raw, PlayerState::initial(), 0, true);
    session.map_input_returned(Ok(raw));
    session.update_returned(Ok(PlayerState::initial()));
    assert!(session.needs_ui_event());
    session.ui_event_returned(Err(trap("ui exploded")));
    assert!(!session.needs_ui_event());
    let mut registry = Registry::new();
    let mut alloc = HandleAllocator::new();
    let mut queue = EffectQueue::new();
    let _ = session.apply_effects(&mut registry, &mut alloc, &mut queue);
    let diags = session.take_diagnostics();
    assert_eq!(diags.len(), 1);
    assert_eq!(diags[0].level, LogLevel::Error);
}

#[test]
fn every_step_degrades_independently() {
    let raw = right_only();
    let before = PlayerState::initial();
    let mut session = TickSession::begin(raw, before, 0, true);
    session.map_input_returned(Err(trap("mapper exploded")));
    session.update_returned(Err(trap("update exploded")));
    session.ui_event_returned(Err(trap("ui exploded")));
    assert_eq!(session.mapped_input(), raw);
    assert_eq!(session.game_state(), before);
    let mut registry = Registry::new();
    let mut alloc = HandleAllocator::new();
    let mut queue = EffectQueue::new();
    let out = session.apply_effects(&mut registry, &mut alloc, &mut queue);
    assert!(out.creation_ops.is_empty());
    assert!(out.mutation_ops.is_empty());
    assert_eq!(session.take_diagnostics().len(), 3);
}

#[test]
fn ui_toggle_event_name_is_fixed() {
    assert_eq!(ui_toggle_event_name(), "toggle_panel");
}
