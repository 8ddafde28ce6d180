use player_systems::damage::{player_damage, PlayerDamageEvent};
use player_systems::frame::run_frame;
use player_systems::input::{handle_input, KeyCode};
use player_systems::player::{Player, PlayerEntity, Point};
use player_systems::ui::{debug_indicator_text, update_ui, OverlayChange, UiHost, UiNode, UiNodeKind};

fn entity(health: i64) -> Option<PlayerEntity> {
    Some(PlayerEntity { player: Player::new(Point { x: 3, y: -4 }), health })
}

fn hits(amounts: &[u32]) -> Vec<PlayerDamageEvent> {
    amounts.iter().map(|a| PlayerDamageEvent { amount: *a }).collect()
}

fn indicator_count(ui: &UiHost) -> usize {
    ui.nodes.iter().filter(|n| n.kind == UiNodeKind::DebugIndicator).count()
}

#[test]
fn new_player_is_mortal_at_its_position() {
    let p = Player::new(Point { x: 7, y: 9 });
    assert!(!p.is_debug_immortal());
    assert_eq!(p.position, Point { x: 7, y: 9 });
}

#[test]
fn toggle_parity() {
    for n in 0..12u32 {
        let mut p = Player::new(Point { x: 0, y: 0 });
        for _ in 0..n {
            p.toggle_debug_immortal();
        }
        assert_eq!(p.is_debug_immortal(), n % 2 == 1);
    }
}

#[test]
fn toggle_keeps_position() {
    let mut p = Player::new(Point { x: -1, y: 2 });
    p.toggle_debug_immortal();
    assert_eq!(p.position, Point { x: -1, y: 2 });
}

#[test]
fn immortal_player_takes_no_damage() {
    let mut player = entity(100);
    player.as_mut().unwrap().player.toggle_debug_immortal();
    let applied = player_damage(hits(&[10, 25, 1]), &mut player);
    assert_eq!(applied, 0);
    assert_eq!(player.unwrap().health, 100);
}

#[test]
fn mortal_player_takes_each_hit() {
    let mut player = entity(100);
    let applied = player_damage(hits(&[10, 25, 1]), &mut player);
    assert_eq!(applied, 3);
    assert_eq!(player.unwrap().health, 64);
}

#[test]
fn each_hit_lowers_health_by_its_magnitude() {
    let amounts = [5u32, 12, 3];
    let mut player = entity(50);
    let mut expected = 50i64;
    for a in amounts {
        let before = player.unwrap().health;
        player_damage(hits(&[a]), &mut player);
        expected -= a as i64;
        assert_eq!(player.unwrap().health, expected);
        assert!(player.unwrap().health < before);
    }
}

#[test]
fn empty_batch_changes_nothing() {
    let mut player = entity(30);
    assert_eq!(player_damage(Vec::new(), &mut player), 0);
    assert_eq!(player.unwrap().health, 30);
}

#[test]
fn damage_stops_at_lowest_health() {
    let mut player = entity(i64::MIN + 5);
    let applied = player_damage(hits(&[3, 4, u32::MAX]), &mut player);
    assert_eq!(applied, 3);
    assert_eq!(player.unwrap().health, i64::MIN);
}

#[test]
fn damage_without_player_is_dropped() {
    let mut player: Option<PlayerEntity> = None;
    assert_eq!(player_damage(hits(&[10]), &mut player), 0);
    assert!(player.is_none());
}

#[test]
fn f1_toggles_once_and_reports() {
    let mut player = entity(100);
    let note = handle_input(&vec![KeyCode::Space, KeyCode::F1, KeyCode::F1], &mut player);
    assert_eq!(note, Some("Debug Immortality: ON"));
    assert!(player.unwrap().player.is_debug_immortal());
    let note = handle_input(&vec![KeyCode::F1], &mut player);
    assert_eq!(note, Some("Debug Immortality: OFF"));
    assert!(!player.unwrap().player.is_debug_immortal());
}

#[test]
fn other_keys_do_not_toggle() {
    let mut player = entity(100);
    let keys = vec![KeyCode::Escape, KeyCode::Up, KeyCode::Char('a'), KeyCode::Left];
    assert_eq!(handle_input(&keys, &mut player), None);
    assert!(!player.unwrap().player.is_debug_immortal());
    assert_eq!(handle_input(&Vec::new(), &mut player), None);
}

#[test]
fn input_without_player_is_noop() {
    let mut player: Option<PlayerEntity> = None;
    assert_eq!(handle_input(&vec![KeyCode::F1], &mut player), None);
    assert!(player.is_none());
}

#[test]
fn overlay_follows_flag() {
    let mut player = entity(100);
    let mut ui = UiHost::new();
    assert_eq!(update_ui(&player, &mut ui), OverlayChange::Unchanged);
    assert_eq!(ui.nodes.len(), 0);
    player.as_mut().unwrap().player.toggle_debug_immortal();
    assert_eq!(update_ui(&player, &mut ui), OverlayChange::Created);
    assert_eq!(ui.nodes, vec![UiNode { kind: UiNodeKind::DebugIndicator, cleanup: true }]);
    player.as_mut().unwrap().player.toggle_debug_immortal();
    assert_eq!(update_ui(&player, &mut ui), OverlayChange::Destroyed);
    assert_eq!(ui.nodes.len(), 0);
}

#[test]
fn overlay_sync_is_idempotent() {
    for on in [false, true] {
        let mut player = entity(100);
        if on {
            player.as_mut().unwrap().player.toggle_debug_immortal();
        }
        let mut ui = UiHost::new();
        ui.nodes.push(UiNode { kind: UiNodeKind::Other(1), cleanup: false });
        update_ui(&player, &mut ui);
        let after_first = ui.nodes.clone();
        assert_eq!(update_ui(&player, &mut ui), OverlayChange::Unchanged);
        assert_eq!(ui.nodes, after_first);
        assert_eq!(indicator_count(&ui), if on { 1 } else { 0 });
    }
}

#[test]
fn overlay_removal_keeps_other_nodes_in_order() {
    let player = entity(100);
    let mut ui = UiHost::new();
    ui.nodes.push(UiNode { kind: UiNodeKind::Other(1), cleanup: false });
    ui.nodes.push(UiNode { kind: UiNodeKind::DebugIndicator, cleanup: true });
    ui.nodes.push(UiNode { kind: UiNodeKind::Other(2), cleanup: true });
    assert!(ui.has_debug_indicator());
    assert_eq!(update_ui(&player, &mut ui), OverlayChange::Destroyed);
    assert_eq!(
        ui.nodes,
        vec![
            UiNode { kind: UiNodeKind::Other(1), cleanup: false },
            UiNode { kind: UiNodeKind::Other(2), cleanup: true },
        ]
    );
    assert!(!ui.has_debug_indicator());
}

#[test]
fn overlay_without_player_is_noop() {
    let player: Option<PlayerEntity> = None;
    let mut ui = UiHost::new();
    ui.spawn_debug_indicator();
    assert_eq!(update_ui(&player, &mut ui), OverlayChange::Unchanged);
    assert_eq!(ui.nodes.len(), 1);
}

#[test]
fn overlay_text() {
    assert_eq!(debug_indicator_text(), "DEBUG MODE: IMMORTAL");
}

#[test]
fn toggle_then_damage_in_one_frame_skips_damage() {
    let mut player = entity(100);
    let mut ui = UiHost::new();
    let report = run_frame(&vec![KeyCode::F1], hits(&[10, 20]), &mut player, &mut ui);
    assert_eq!(report.applied, 0);
    assert_eq!(report.note, Some("Debug Immortality: ON"));
    assert_eq!(report.overlay, OverlayChange::Created);
    assert_eq!(player.unwrap().health, 100);
}

#[test]
fn untoggle_then_damage_in_one_frame_applies_damage() {
    let mut player = entity(100);
    player.as_mut().unwrap().player.toggle_debug_immortal();
    let mut ui = UiHost::new();
    ui.spawn_debug_indicator();
    let report = run_frame(&vec![KeyCode::F1], hits(&[10, 20]), &mut player, &mut ui);
    assert_eq!(report.applied, 2);
    assert_eq!(report.note, Some("Debug Immortality: OFF"));
    assert_eq!(report.overlay, OverlayChange::Destroyed);
    assert_eq!(player.unwrap().health, 70);
    assert_eq!(ui.nodes.len(), 0);
}

#[test]
fn frame_without_player_is_noop() {
    let mut player: Option<PlayerEntity> = None;
    let mut ui = UiHost::new();
    let report = run_frame(&vec![KeyCode::F1], hits(&[10]), &mut player, &mut ui);
    assert_eq!(report.note, None);
    assert_eq!(report.applied, 0);
    assert_eq!(report.overlay, OverlayChange::Unchanged);
    assert!(player.is_none());
    assert_eq!(ui.nodes.len(), 0);
}

#[test]
fn toggle_damage_overlay_scenario() {
    let mut player = entity(100);
    let mut ui = UiHost::new();
    assert!(!player.unwrap().player.is_debug_immortal());
    assert!(!ui.has_debug_indicator());

    let r = run_frame(&vec![KeyCode::F1], Vec::new(), &mut player, &mut ui);
    assert!(player.unwrap().player.is_debug_immortal());
    assert_eq!(r.note, Some("Debug Immortality: ON"));
    assert_eq!(r.overlay, OverlayChange::Created);
    assert!(ui.has_debug_indicator());

    let r = run_frame(&Vec::new(), hits(&[10]), &mut player, &mut ui);
    assert_eq!(r.applied, 0);
    assert_eq!(player.unwrap().health, 100);
    assert_eq!(r.overlay, OverlayChange::Unchanged);

    let r = run_frame(&vec![KeyCode::F1], Vec::new(), &mut player, &mut ui);
    assert!(!player.unwrap().player.is_debug_immortal());
    assert_eq!(r.note, Some("Debug Immortality: OFF"));
    assert_eq!(r.overlay, OverlayChange::Destroyed);
    assert!(!ui.has_debug_indicator());

    let r = run_frame(&Vec::new(), hits(&[10]), &mut player, &mut ui);
    assert_eq!(r.applied, 1);
    assert_eq!(player.unwrap().health, 90);
}
