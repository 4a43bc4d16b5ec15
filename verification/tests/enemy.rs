use dodge_the_creeps::enemy::{Enemy, EnemyCommand};

#[test]
fn new_enemy_has_usual_speed_range() {
    let enemy = Enemy::new();
    assert_eq!(enemy.min_speed, 150);
    assert_eq!(enemy.max_speed, 250);
    assert!(enemy.has_speed_range());
}

#[test]
fn empty_or_reversed_speed_range_is_told() {
    assert!(!Enemy { min_speed: 200, max_speed: 200 }.has_speed_range());
    assert!(!Enemy { min_speed: 250, max_speed: 150 }.has_speed_range());
    assert!(Enemy { min_speed: 0, max_speed: 1 }.has_speed_range());
}

#[test]
fn animate_plays_then_sets_animation() {
    assert_eq!(
        Enemy::animate(String::from("fly")),
        vec![EnemyCommand::PlayAnimation, EnemyCommand::SetAnimation(String::from("fly"))]
    );
}

#[test]
fn ready_with_one_animation_picks_it() {
    let names = vec![String::from("swim")];
    assert_eq!(
        Enemy::new().ready(&names),
        vec![EnemyCommand::PlayAnimation, EnemyCommand::SetAnimation(String::from("swim"))]
    );
}

#[test]
fn ready_picks_only_listed_animations() {
    let names = vec![String::from("walk"), String::from("swim"), String::from("fly")];
    let enemy = Enemy::new();
    for _ in 0..300 {
        let cmds = enemy.ready(&names);
        assert_eq!(cmds.len(), 2);
        assert_eq!(cmds[0], EnemyCommand::PlayAnimation);
        match &cmds[1] {
            EnemyCommand::SetAnimation(name) => assert!(names.contains(name)),
            other => panic!("unexpected command {:?}", other),
        }
    }
}

#[test]
fn ready_reaches_every_animation() {
    let names = vec![String::from("walk"), String::from("swim"), String::from("fly")];
    let enemy = Enemy::new();
    let mut seen = vec![false, false, false];
    for _ in 0..2000 {
        if let EnemyCommand::SetAnimation(name) = &enemy.ready(&names)[1] {
            let at = names.iter().position(|n| n == name).unwrap();
            seen[at] = true;
        }
    }
    assert_eq!(seen, vec![true, true, true]);
}
