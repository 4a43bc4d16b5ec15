use dodge_the_creeps::player::{Animation, Controls, Heading, Player, PlayerCommand};

fn keys(right: bool, left: bool, up: bool, down: bool) -> Controls {
    Controls { move_right: right, move_left: left, move_up: up, move_down: down }
}

#[test]
fn new_player_has_usual_speed() {
    assert_eq!(Player::new().speed, 400);
}

#[test]
fn ready_hides_the_player() {
    assert_eq!(Player::new().ready(), vec![PlayerCommand::Hide]);
}

#[test]
fn start_moves_shows_and_enables_collision() {
    assert_eq!(
        Player::new().start(),
        vec![PlayerCommand::MoveToStart, PlayerCommand::Show, PlayerCommand::EnableCollision]
    );
}

#[test]
fn heading_of_single_keys() {
    assert_eq!(Player::heading(keys(true, false, false, false)), Heading { x: 1, y: 0 });
    assert_eq!(Player::heading(keys(false, true, false, false)), Heading { x: -1, y: 0 });
    assert_eq!(Player::heading(keys(false, false, true, false)), Heading { x: 0, y: -1 });
    assert_eq!(Player::heading(keys(false, false, false, true)), Heading { x: 0, y: 1 });
}

#[test]
fn heading_of_no_key_is_zero() {
    let heading = Player::heading(keys(false, false, false, false));
    assert_eq!(heading, Heading { x: 0, y: 0 });
    assert!(!heading.is_moving());
}

#[test]
fn opposite_keys_cancel() {
    assert_eq!(Player::heading(keys(true, true, false, false)), Heading { x: 0, y: 0 });
    assert_eq!(Player::heading(keys(false, false, true, true)), Heading { x: 0, y: 0 });
    assert_eq!(Player::heading(keys(true, true, true, true)), Heading { x: 0, y: 0 });
    assert_eq!(Player::heading(keys(true, true, false, true)), Heading { x: 0, y: 1 });
}

#[test]
fn heading_of_diagonals() {
    assert_eq!(Player::heading(keys(true, false, true, false)), Heading { x: 1, y: -1 });
    assert_eq!(Player::heading(keys(false, true, false, true)), Heading { x: -1, y: 1 });
}

#[test]
fn heading_stays_within_one_step_for_every_key_set() {
    for bits in 0u8..16 {
        let heading = Player::heading(keys(bits & 1 != 0, bits & 2 != 0, bits & 4 != 0, bits & 8 != 0));
        assert!((-1..=1).contains(&heading.x));
        assert!((-1..=1).contains(&heading.y));
        assert_eq!(heading.is_moving(), heading.x != 0 || heading.y != 0);
    }
}

#[test]
fn process_walks_right_unflipped() {
    let player = Player::new();
    assert_eq!(
        player.process(keys(true, false, false, false)),
        vec![
            PlayerCommand::SetFlipV(false),
            PlayerCommand::SetFlipH(false),
            PlayerCommand::Play(Animation::Walk),
            PlayerCommand::Advance { heading: Heading { x: 1, y: 0 }, speed: 400 },
        ]
    );
}

#[test]
fn process_walks_left_mirrored() {
    let player = Player::new();
    assert_eq!(
        player.process(keys(false, true, false, false)),
        vec![
            PlayerCommand::SetFlipV(false),
            PlayerCommand::SetFlipH(true),
            PlayerCommand::Play(Animation::Walk),
            PlayerCommand::Advance { heading: Heading { x: -1, y: 0 }, speed: 400 },
        ]
    );
}

#[test]
fn process_goes_up_upright() {
    let player = Player::new();
    assert_eq!(
        player.process(keys(false, false, true, false)),
        vec![
            PlayerCommand::SetFlipV(false),
            PlayerCommand::Play(Animation::Up),
            PlayerCommand::Advance { heading: Heading { x: 0, y: -1 }, speed: 400 },
        ]
    );
}

#[test]
fn process_goes_down_upside_down() {
    let player = Player::new();
    assert_eq!(
        player.process(keys(false, false, false, true)),
        vec![
            PlayerCommand::SetFlipV(true),
            PlayerCommand::Play(Animation::Up),
            PlayerCommand::Advance { heading: Heading { x: 0, y: 1 }, speed: 400 },
        ]
    );
}

#[test]
fn process_prefers_sideways_animation_on_diagonal() {
    let player = Player { speed: 25 };
    assert_eq!(
        player.process(keys(false, true, false, true)),
        vec![
            PlayerCommand::SetFlipV(false),
            PlayerCommand::SetFlipH(true),
            PlayerCommand::Play(Animation::Walk),
            PlayerCommand::Advance { heading: Heading { x: -1, y: 1 }, speed: 25 },
        ]
    );
}

#[test]
fn process_stops_animation_when_standing() {
    let player = Player::new();
    assert_eq!(
        player.process(keys(false, false, false, false)),
        vec![
            PlayerCommand::StopAnimation,
            PlayerCommand::Advance { heading: Heading { x: 0, y: 0 }, speed: 400 },
        ]
    );
    assert_eq!(
        player.process(keys(true, true, false, false)),
        vec![
            PlayerCommand::StopAnimation,
            PlayerCommand::Advance { heading: Heading { x: 0, y: 0 }, speed: 400 },
        ]
    );
}

#[test]
fn animation_names() {
    assert_eq!(Animation::Walk.name(), "walk");
    assert_eq!(Animation::Up.name(), "up");
}
