use rustris_shell::control::{
    command_for, Command, Controller, EngineCall, InputEvent, Key, Modifier,
};

fn key(key: Key) -> InputEvent {
    InputEvent::KeyDown { key, modifier: Modifier::NoMod }
}

fn shifted(key: Key) -> InputEvent {
    InputEvent::KeyDown { key, modifier: Modifier::LeftShift }
}

#[test]
fn commands_of_events() {
    assert_eq!(command_for(&InputEvent::Quit), Command::Quit);
    assert_eq!(command_for(&key(Key::Escape)), Command::Quit);
    assert_eq!(command_for(&key(Key::Q)), Command::Quit);
    assert_eq!(command_for(&key(Key::Left)), Command::SlideLeft);
    assert_eq!(command_for(&key(Key::A)), Command::SlideLeft);
    assert_eq!(command_for(&key(Key::Right)), Command::SlideRight);
    assert_eq!(command_for(&key(Key::D)), Command::SlideRight);
    assert_eq!(command_for(&key(Key::Down)), Command::SoftDrop);
    assert_eq!(command_for(&key(Key::S)), Command::SoftDrop);
    assert_eq!(command_for(&key(Key::Up)), Command::RotateAnticlockwise);
    assert_eq!(command_for(&key(Key::W)), Command::RotateAnticlockwise);
    assert_eq!(command_for(&shifted(Key::Up)), Command::RotateClockwise);
    assert_eq!(command_for(&shifted(Key::W)), Command::RotateClockwise);
    assert_eq!(command_for(&key(Key::Space)), Command::HardDrop);
    assert_eq!(command_for(&shifted(Key::Space)), Command::HardDrop);
    assert_eq!(command_for(&shifted(Key::Q)), Command::Quit);
    let other_mod = InputEvent::KeyDown { key: Key::Up, modifier: Modifier::Other };
    assert_eq!(command_for(&other_mod), Command::Ignore);
    assert_eq!(command_for(&key(Key::Other)), Command::Ignore);
    assert_eq!(command_for(&InputEvent::Other), Command::Ignore);
}

#[test]
fn new_session_owes_first_frame() {
    let mut c = Controller::new();
    assert!(c.is_playing());
    assert!(c.is_dirty());
    assert!(c.take_redraw());
    assert!(!c.is_dirty());
    assert!(!c.take_redraw());
}

#[test]
fn successful_moves_mark_dirty() {
    let moves = [
        EngineCall::Slide(-1),
        EngineCall::Slide(1),
        EngineCall::Down,
        EngineCall::RotateClockwise,
        EngineCall::RotateAnticlockwise,
    ];
    for call in moves {
        let mut c = Controller::new();
        c.take_redraw();
        assert!(c.on_result(call, true).is_empty());
        assert!(c.take_redraw());
    }
}

#[test]
fn refused_moves_leave_flag_alone() {
    let refused = [
        EngineCall::Slide(-1),
        EngineCall::Slide(1),
        EngineCall::RotateClockwise,
        EngineCall::RotateAnticlockwise,
    ];
    for call in refused {
        let mut c = Controller::new();
        c.take_redraw();
        assert!(c.on_result(call, false).is_empty());
        assert!(!c.take_redraw());
    }
}

#[test]
fn blocked_soft_drop_merges_without_redraw() {
    let mut c = Controller::new();
    c.take_redraw();
    assert_eq!(c.on_event(&key(Key::S)), Some(EngineCall::Down));
    assert_eq!(c.on_result(EngineCall::Down, false), vec![EngineCall::Merge, EngineCall::Random]);
    assert!(!c.is_dirty());
}

#[test]
fn hard_drop_always_redraws_merges_and_spawns() {
    for moved in [false, true] {
        let mut c = Controller::new();
        c.take_redraw();
        assert_eq!(c.on_event(&key(Key::Space)), Some(EngineCall::Drop));
        assert_eq!(c.on_result(EngineCall::Drop, moved), vec![EngineCall::Merge, EngineCall::Random]);
        assert!(c.is_dirty());
        assert!(c.is_playing());
    }
}

#[test]
fn escape_stops_the_batch() {
    let batch = vec![key(Key::Left), key(Key::Escape), key(Key::Right)];
    let mut c = Controller::new();
    let mut calls = Vec::new();
    for ev in &batch {
        if let Some(call) = c.on_event(ev) {
            calls.push(call);
            calls.extend(c.on_result(call, true));
        }
    }
    assert_eq!(calls, vec![EngineCall::Slide(-1)]);
    assert!(!c.is_playing());
}

#[test]
fn quit_event_ends_session() {
    let mut c = Controller::new();
    assert_eq!(c.on_event(&InputEvent::Quit), None);
    assert!(!c.is_playing());
    assert_eq!(c.on_event(&key(Key::Space)), None);
    assert!(!c.is_playing());
}

#[test]
fn game_over_ends_session() {
    let mut c = Controller::new();
    assert!(!c.check_game_over(false));
    assert!(c.is_playing());
    assert!(c.check_game_over(true));
    assert!(!c.is_playing());
    assert!(c.check_game_over(false));
}

#[test]
fn tick_without_movement_does_not_redraw() {
    let mut c = Controller::new();
    c.take_redraw();
    assert!(!c.on_tick(false));
    assert!(!c.is_dirty());
}

#[test]
fn tick_with_movement_redraws_at_once() {
    let mut c = Controller::new();
    c.take_redraw();
    c.on_result(EngineCall::Slide(1), true);
    assert!(c.on_tick(true));
    assert!(!c.is_dirty());
}

#[test]
fn pending_redraw_survives_still_tick() {
    let mut c = Controller::new();
    c.take_redraw();
    c.on_result(EngineCall::RotateClockwise, true);
    assert!(!c.on_tick(false));
    assert!(c.take_redraw());
}

#[test]
fn idle_session_redraws_once_per_moving_tick() {
    let mut c = Controller::new();
    let mut redraws = 0;
    let ticks = 10;
    for i in 0..ticks {
        if c.take_redraw() {
            redraws += 1;
        }
        assert!(!c.check_game_over(false));
        if c.on_tick(i % 2 == 0) {
            redraws += 1;
        }
    }
    if c.take_redraw() {
        redraws += 1;
    }
    assert_eq!(redraws, 1 + ticks / 2);
}
