use boss_stages::entities::{Boss, Ship, Shot, SHOT_SPEED, SHOT_WIDTH};
use boss_stages::geometry::{Rect, Shape, Vec2i};
use boss_stages::motion::Direction;
use boss_stages::stages::{
    AppearStage, SimpleShootingDown, SpreadShooting, Targeted, APPEAR_MOVE_SPEED,
    APPEAR_TARGET_HEIGHT, SIMPLE_SHOOTING_STAGE_MOVE_SPEED,
    SIMPLE_SHOOTING_STAGE_SHOOTING_INTERVAL, SPREAD_SHOOTING_ANGLE_RANGE,
    SPREAD_SHOOTING_ANGLE_STEP, SPREAD_SHOOTING_STAGE_MOVE_SPEED,
    SPREAD_SHOOTING_STAGE_SHOOTING_INTERVAL, STAGE_1_FINISH_HP_TENTHS, STAGE_2_FINISH_HP_TENTHS,
    TARGETED_STAGE_MOVE_SPEED, TARGETED_STAGE_SHOOTING_INTERVAL,
};

fn screen() -> Rect {
    Rect { top_left: Vec2i { x: 0, y: 0 }, bottom_right: Vec2i { x: 640, y: 480 } }
}

fn boss_at(x: i32, y: i32) -> Boss {
    Boss { shape: Shape { pos: Vec2i { x, y }, width: 100, height: 60 }, health: 100, max_health: 100 }
}

fn boss_with_health(health: u32, max_health: u32) -> Boss {
    Boss { shape: Shape { pos: Vec2i { x: 270, y: 60 }, width: 100, height: 60 }, health, max_health }
}

fn ship() -> Ship {
    Ship { shape: Shape { pos: Vec2i { x: 300, y: 400 }, width: 40, height: 40 } }
}

fn shot_from(boss: &Boss, angle: i32) -> Shot {
    Shot {
        shape: Shape {
            pos: Vec2i {
                x: boss.shape.pos.x + (boss.shape.width / 2) as i32,
                y: boss.shape.pos.y + (boss.shape.height / 2) as i32,
            },
            width: SHOT_WIDTH,
            height: SHOT_WIDTH,
        },
        speed: SHOT_SPEED,
        angle,
        damage: 10,
    }
}

#[test]
fn stage_constants() {
    assert_eq!(APPEAR_MOVE_SPEED, 8);
    assert_eq!(APPEAR_TARGET_HEIGHT, 50);
    assert_eq!(SIMPLE_SHOOTING_STAGE_MOVE_SPEED, 12);
    assert_eq!(SIMPLE_SHOOTING_STAGE_SHOOTING_INTERVAL, 300);
    assert_eq!(SPREAD_SHOOTING_STAGE_MOVE_SPEED, 8);
    assert_eq!(SPREAD_SHOOTING_STAGE_SHOOTING_INTERVAL, 500);
    assert_eq!(SPREAD_SHOOTING_ANGLE_RANGE, 120);
    assert_eq!(SPREAD_SHOOTING_ANGLE_STEP, 20);
    assert_eq!(TARGETED_STAGE_MOVE_SPEED, 15);
    assert_eq!(TARGETED_STAGE_SHOOTING_INTERVAL, 500);
    assert_eq!(STAGE_1_FINISH_HP_TENTHS, 7);
    assert_eq!(STAGE_2_FINISH_HP_TENTHS, 4);
}

#[test]
fn appear_moves_down_until_past_the_target_height() {
    let mut stage = AppearStage;
    let mut boss = boss_at(270, 0);
    let mut ticks = 0;
    while !stage.completed(&boss) {
        assert!(ticks < 7, "not completed after 7 ticks");
        let pos = stage.calc_new_pos(&boss, &ship(), &screen());
        assert_eq!(pos, Vec2i { x: 270, y: boss.shape.pos.y + 8 });
        boss = boss.moved_to(pos);
        assert_eq!(stage.shoot_at(&boss, &ship(), 1_000_000 * ticks), None);
        ticks += 1;
    }
    assert_eq!(ticks, 7);
    assert_eq!(boss.shape.pos.y, 56);
}

#[test]
fn appear_is_completed_strictly_past_the_target_height() {
    let stage = AppearStage;
    assert!(!stage.completed(&boss_at(270, 49)));
    assert!(!stage.completed(&boss_at(270, 50)));
    assert!(stage.completed(&boss_at(270, 51)));
    assert!(!stage.completed(&boss_at(270, i32::MIN)));
    assert!(stage.completed(&boss_at(270, i32::MAX - 60)));
}

#[test]
fn appear_leaves_a_boss_past_the_target_where_it_is() {
    let mut stage = AppearStage;
    assert_eq!(stage.calc_new_pos(&boss_at(270, 51), &ship(), &screen()), Vec2i { x: 270, y: 51 });
    assert_eq!(stage.calc_new_pos(&boss_at(270, 50), &ship(), &screen()), Vec2i { x: 270, y: 58 });
    assert_eq!(
        stage.calc_new_pos(&boss_at(-5, i32::MIN), &ship(), &screen()),
        Vec2i { x: -5, y: i32::MIN + 8 }
    );
}

#[test]
fn appear_never_fires() {
    let mut stage = AppearStage;
    assert_eq!(stage.shoot(&boss_at(270, 0), &ship()), None);
    assert_eq!(stage.shoot_at(&boss_at(270, 0), &ship(), u64::MAX), None);
}

#[test]
fn simple_stage_starts_moving_right() {
    let stage = SimpleShootingDown::starting_at(42);
    assert_eq!(stage, SimpleShootingDown { direction: Direction::Right, shoot_time: 42 });
    assert_eq!(SimpleShootingDown::new().direction, Direction::Right);
}

#[test]
fn simple_stage_bounces_at_its_speed() {
    let mut stage = SimpleShootingDown::starting_at(0);
    assert_eq!(stage.calc_new_pos(&boss_at(100, 60), &ship(), &screen()), Vec2i { x: 112, y: 60 });
    assert_eq!(stage.direction, Direction::Right);
    assert_eq!(stage.calc_new_pos(&boss_at(535, 60), &ship(), &screen()), Vec2i { x: 523, y: 60 });
    assert_eq!(stage.direction, Direction::Left);
    assert_eq!(stage.calc_new_pos(&boss_at(523, 60), &ship(), &screen()), Vec2i { x: 511, y: 60 });
    assert_eq!(stage.direction, Direction::Left);
    assert_eq!(stage.shoot_time, 0);
}

#[test]
fn simple_stage_fires_three_times_in_a_second() {
    let boss = boss_at(270, 60);
    let mut stage = SimpleShootingDown::starting_at(5_000);
    let mut fired: Vec<Shot> = Vec::new();
    let mut fire_times: Vec<u64> = Vec::new();
    for call in 1..=10u64 {
        let now = 5_000 + 100 * call;
        if let Some(shots) = stage.shoot_at(&boss, &ship(), now) {
            assert_eq!(shots.len(), 1);
            fired.extend(shots);
            fire_times.push(now);
        }
    }
    assert!(fired.len() == 3 || fired.len() == 4);
    assert_eq!(fired.len(), 3);
    assert_eq!(fire_times, vec![5_300, 5_600, 5_900]);
    for shot in fired.iter() {
        assert_eq!(*shot, shot_from(&boss, 180));
        assert_eq!(shot.shape.pos, Vec2i { x: 320, y: 90 });
        assert_eq!(shot.angle, 180);
        assert_eq!(shot.damage, 10);
    }
    assert_eq!(stage.shoot_time, 5_900);
    assert_eq!(stage.direction, Direction::Right);
}

#[test]
fn simple_stage_polled_slowly_fires_on_every_poll() {
    let boss = boss_at(270, 60);
    let mut stage = SimpleShootingDown::starting_at(0);
    for call in 1..=5u64 {
        let now = 1_000 * call;
        assert_eq!(stage.shoot_at(&boss, &ship(), now), Some(vec![shot_from(&boss, 180)]));
        assert_eq!(stage.shoot_time, now);
    }
}

#[test]
fn simple_stage_by_the_wall_clock_does_not_fire_at_once() {
    let boss = boss_at(270, 60);
    let mut stage = SimpleShootingDown::starting_at(u64::MAX - 1);
    assert_eq!(stage.shoot(&boss, &ship()), None);
    assert_eq!(stage.shoot_time, u64::MAX - 1);
    let mut stage = SimpleShootingDown::starting_at(0);
    assert_eq!(stage.shoot(&boss, &ship()), Some(vec![shot_from(&boss, 180)]));
    assert!(stage.shoot_time > 0);
}

#[test]
fn simple_stage_is_completed_below_seven_tenths() {
    let stage = SimpleShootingDown::starting_at(0);
    assert!(!stage.completed(&boss_with_health(100, 100)));
    assert!(!stage.completed(&boss_with_health(71, 100)));
    assert!(!stage.completed(&boss_with_health(70, 100)));
    assert!(stage.completed(&boss_with_health(69, 100)));
    assert!(!stage.completed(&boss_with_health(7, 10)));
    assert!(stage.completed(&boss_with_health(2, 3)));
    assert!(!stage.completed(&boss_with_health(3, 4)));
    for health in 0..70 {
        assert!(stage.completed(&boss_with_health(health, 100)));
    }
    assert!(!stage.completed(&boss_with_health(u32::MAX, u32::MAX)));
    assert!(stage.completed(&boss_with_health(u32::MAX / 2, u32::MAX)));
}

#[test]
fn spread_stage_starts_moving_right() {
    let stage = SpreadShooting::starting_at(42);
    assert_eq!(stage, SpreadShooting { direction: Direction::Right, shoot_time: 42 });
    assert_eq!(SpreadShooting::new().direction, Direction::Right);
}

#[test]
fn spread_stage_bounces_at_its_speed() {
    let mut stage = SpreadShooting::starting_at(0);
    assert_eq!(stage.calc_new_pos(&boss_at(100, 60), &ship(), &screen()), Vec2i { x: 108, y: 60 });
    assert_eq!(stage.direction, Direction::Right);
    assert_eq!(stage.calc_new_pos(&boss_at(535, 60), &ship(), &screen()), Vec2i { x: 527, y: 60 });
    assert_eq!(stage.direction, Direction::Left);
}

#[test]
fn spread_stage_fires_a_fan_of_seven() {
    let boss = boss_at(270, 60);
    let mut stage = SpreadShooting::starting_at(1_000);
    assert_eq!(stage.shoot_at(&boss, &ship(), 1_499), None);
    assert_eq!(stage.shoot_time, 1_000);
    let shots = stage.shoot_at(&boss, &ship(), 1_500).expect("a fan is due");
    let expected: Vec<Shot> =
        [120, 140, 160, 180, 200, 220, 240].iter().map(|angle| shot_from(&boss, *angle)).collect();
    assert_eq!(shots, expected);
    assert_eq!(shots.len(), 7);
    assert_eq!(stage.shoot_time, 1_500);
    assert_eq!(stage.direction, Direction::Right);
    assert_eq!(stage.shoot_at(&boss, &ship(), 1_999), None);
    assert_eq!(stage.shoot_at(&boss, &ship(), 2_000).map(|v| v.len()), Some(7));
}

#[test]
fn spread_stage_by_the_wall_clock() {
    let boss = boss_at(270, 60);
    let mut stage = SpreadShooting::starting_at(u64::MAX - 1);
    assert_eq!(stage.shoot(&boss, &ship()), None);
    let mut stage = SpreadShooting::starting_at(0);
    assert_eq!(stage.shoot(&boss, &ship()).map(|v| v.len()), Some(7));
    assert!(stage.shoot_time > 0);
}

#[test]
fn spread_stage_is_completed_below_four_tenths() {
    let stage = SpreadShooting::starting_at(0);
    assert!(!stage.completed(&boss_with_health(69, 100)));
    assert!(!stage.completed(&boss_with_health(41, 100)));
    assert!(!stage.completed(&boss_with_health(40, 100)));
    assert!(stage.completed(&boss_with_health(39, 100)));
    assert!(!stage.completed(&boss_with_health(2, 5)));
    assert!(stage.completed(&boss_with_health(1, 3)));
    for health in 0..40 {
        assert!(stage.completed(&boss_with_health(health, 100)));
    }
}

#[test]
fn targeted_stage_fires_down_every_half_second() {
    let boss = boss_at(270, 60);
    let mut stage = Targeted::starting_at(1_000);
    assert_eq!(stage, Targeted { shoot_time: 1_000 });
    assert_eq!(stage.shoot_at(&boss, &ship(), 1_499), None);
    assert_eq!(stage.shoot_at(&boss, &ship(), 1_500), Some(vec![shot_from(&boss, 180)]));
    assert_eq!(stage.shoot_time, 1_500);
    assert_eq!(stage.shoot_at(&boss, &ship(), 1_600), None);
}

#[test]
fn targeted_stage_by_the_wall_clock() {
    let boss = boss_at(270, 60);
    let mut stage = Targeted::starting_at(u64::MAX - 1);
    assert_eq!(stage.shoot(&boss, &ship()), None);
    let mut stage = Targeted::starting_at(0);
    assert_eq!(stage.shoot(&boss, &ship()), Some(vec![shot_from(&boss, 180)]));
    let started = Targeted::new();
    assert!(started.shoot_time >= stage.shoot_time || started.shoot_time > 0);
}

#[test]
fn targeted_stage_is_never_completed() {
    let stage = Targeted::starting_at(0);
    assert!(!stage.completed(&boss_with_health(100, 100)));
    assert!(!stage.completed(&boss_with_health(1, 100)));
    assert!(!stage.completed(&boss_with_health(0, 100)));
}

#[test]
fn boss_well_formedness_and_health() {
    assert!(boss_with_health(100, 100).is_well_formed());
    assert!(boss_with_health(0, 100).is_well_formed());
    assert!(!boss_with_health(101, 100).is_well_formed());
    assert!(!boss_with_health(0, 0).is_well_formed());
    assert!(boss_at(i32::MAX - 50, 0).is_well_formed());
    assert!(!boss_at(i32::MAX - 49, 0).is_well_formed());
    assert!(boss_with_health(69, 100).hp_is_below(7));
    assert!(!boss_with_health(70, 100).hp_is_below(7));
    assert!(boss_with_health(100, 100).hp_is_below(11));
    assert!(!boss_with_health(0, 100).hp_is_below(0));
    assert!(boss_with_health(u32::MAX, u32::MAX).hp_is_below(u32::MAX));
}
