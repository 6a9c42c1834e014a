use platformer::animation::Animation;
use platformer::direction::{update_direction, Direction};
use platformer::jump::{fall, jump, rise, Jump, MAX_JUMP_HEIGHT};
use platformer::layout::{floor_placement, Placement};
use platformer::motion::{movement, Translation};
use platformer::platform::{platforms, PlatformBundle};
use platformer::sprite::{
    player_start, walk_cycle, ControllerOutput, SpriteState, SPRITE_IDX_JUMP, SPRITE_IDX_STAND,
};

const FRAME_US: u32 = 16_000;

#[test]
fn direction_follows_sign_of_move() {
    assert_eq!(update_direction(5), Some(Direction::Right));
    assert_eq!(update_direction(-5), Some(Direction::Left));
    assert_eq!(update_direction(0), None);
    assert_eq!(update_direction(i64::MIN), Some(Direction::Left));
}

#[test]
fn movement_right_left_and_both() {
    let r = movement(true, false, FRAME_US, None);
    assert_eq!(r, Translation { x: 3_200_000, y: 0 });
    let l = movement(false, true, FRAME_US, Some(Translation { x: 9, y: -7 }));
    assert_eq!(l, Translation { x: -3_200_000, y: -7 });
    let both = movement(true, true, FRAME_US, Some(Translation { x: 1, y: 4 }));
    assert_eq!(both, Translation { x: 0, y: 4 });
    let none = movement(false, false, FRAME_US, None);
    assert_eq!(none, Translation { x: 0, y: 0 });
}

#[test]
fn movement_longest_frame() {
    let r = movement(true, false, u32::MAX, None);
    assert_eq!(r.x, u32::MAX as i64 * 200);
}

#[test]
fn jump_starts_only_from_ground_on_up() {
    assert_eq!(jump(true, true, false), Some(Jump(0)));
    assert_eq!(jump(true, false, false), None);
    assert_eq!(jump(false, true, false), None);
    assert_eq!(jump(true, true, true), None);
}

#[test]
fn rise_moves_up_and_keeps_x() {
    let (t, j) = rise(Jump(0), FRAME_US, Some(Translation { x: 11, y: -3 }));
    assert_eq!(t, Translation { x: 11, y: 6_400_000 });
    assert_eq!(j, Some(Jump(6_400_000)));
}

#[test]
fn rise_is_cut_at_max_height() {
    let (t, j) = rise(Jump(228_000_000), FRAME_US, None);
    assert_eq!(t, Translation { x: 0, y: 2_000_000 });
    assert_eq!(j, None);
    let (t2, j2) = rise(Jump(MAX_JUMP_HEIGHT - 6_400_000), FRAME_US, None);
    assert_eq!(t2.y, 6_400_000);
    assert_eq!(j2, None);
    let (t3, j3) = rise(Jump(MAX_JUMP_HEIGHT), FRAME_US, None);
    assert_eq!(t3.y, 0);
    assert_eq!(j3, None);
}

#[test]
fn jump_height_never_exceeds_max_over_many_frames() {
    let mut j = Jump(0);
    let mut total: i64 = 0;
    loop {
        let (t, next) = rise(j, 7_777, None);
        total += t.y;
        assert!(total <= MAX_JUMP_HEIGHT);
        match next {
            Some(n) => j = n,
            None => break,
        }
    }
    assert_eq!(total, MAX_JUMP_HEIGHT);
}

#[test]
fn fall_is_rise_speed_divided_by_divider() {
    let t = fall(FRAME_US, Some(Translation { x: 42, y: 1 }));
    assert_eq!(t, Translation { x: 42, y: -5_120_000 });
    let (up, _) = rise(Jump(0), FRAME_US, None);
    assert_eq!(-t.y * 5, up.y * 4);
    assert_eq!(fall(0, None), Translation { x: 0, y: 0 });
}

#[test]
fn platforms_rest_on_floor() {
    let p = platforms();
    assert_eq!(p.len(), 3);
    assert_eq!(
        p[0].placement,
        Placement { x: -100_000_000, y: -250_000_000, width: 75_000_000, height: 200_000_000 }
    );
    assert_eq!(
        p[1].placement,
        Placement { x: 100_000_000, y: -175_000_000, width: 50_000_000, height: 350_000_000 }
    );
    assert_eq!(
        p[2].placement,
        Placement { x: 350_000_000, y: -225_000_000, width: 150_000_000, height: 250_000_000 }
    );
}

#[test]
fn platform_odd_and_negative_height() {
    assert_eq!(PlatformBundle::new(0, 10, 7).placement.y, -349_999_997);
    assert_eq!(PlatformBundle::new(0, 10, -7).placement.y, -350_000_003);
}

#[test]
fn floor_lies_on_bottom_edge() {
    assert_eq!(
        floor_placement(),
        Placement { x: 0, y: -355_000_000, width: 1_024_000_000, height: 10_000_000 }
    );
}

#[test]
fn player_starts_near_left_edge() {
    assert_eq!(
        player_start(),
        Placement { x: -412_000_000, y: -60_000_000, width: 64_000_000, height: 128_000_000 }
    );
    assert_eq!(walk_cycle(), vec![47, 40]);
}

#[test]
fn sprite_walk_idle_jump() {
    let mut s = SpriteState::initial();
    assert_eq!(s, SpriteState { index: SPRITE_IDX_STAND, walking: false, flip_x: false });
    let walking = ControllerOutput { dx: 3, grounded: true };
    let still = ControllerOutput { dx: 0, grounded: true };
    let air = ControllerOutput { dx: 0, grounded: false };

    s.apply_movement_animation(walking);
    assert!(s.walking);
    s.apply_idle_sprite(walking);
    assert!(s.walking);
    s.apply_jump_sprite(air);
    assert_eq!(s, SpriteState { index: SPRITE_IDX_JUMP, walking: false, flip_x: false });
    s.apply_movement_animation(ControllerOutput { dx: 3, grounded: false });
    assert!(!s.walking);
    s.apply_idle_sprite(air);
    assert_eq!(s.index, SPRITE_IDX_JUMP);
    s.apply_idle_sprite(still);
    assert_eq!(s, SpriteState { index: SPRITE_IDX_STAND, walking: false, flip_x: false });
}

#[test]
fn sprite_mirrors_when_facing_left() {
    let mut s = SpriteState::initial();
    s.update_sprite_direction(Direction::Left);
    assert!(s.flip_x);
    s.update_sprite_direction(Direction::Right);
    assert!(!s.flip_x);
}

#[test]
fn animation_cycles_through_walk_tiles() {
    let mut a = Animation::new(walk_cycle(), 70_000);
    assert_eq!(a.current(), 47);
    assert_eq!(a.tick(30_000), 47);
    assert_eq!(a.tick(39_999), 47);
    assert_eq!(a.tick(1), 40);
    assert_eq!(a.tick(70_000), 47);
    assert_eq!(a.tick(500_000), 40);
}

#[test]
fn animation_with_zero_delay_moves_every_tick() {
    let mut a = Animation::new(vec![1, 2, 3], 0);
    assert_eq!(a.tick(0), 2);
    assert_eq!(a.tick(0), 3);
    assert_eq!(a.tick(0), 1);
}

#[test]
fn window_edges_are_half_the_size() {
    assert_eq!(platformer::layout::WINDOW_BOTTOM_Y * -2, platformer::layout::WINDOW_HEIGHT);
    assert_eq!(platformer::layout::WINDOW_LEFT_X * -2, platformer::layout::WINDOW_WIDTH);
}

#[test]
fn direction_follows_keys_held() {
    let r = movement(true, false, FRAME_US, None);
    assert_eq!(update_direction(r.x), Some(Direction::Right));
    let l = movement(false, true, FRAME_US, None);
    assert_eq!(update_direction(l.x), Some(Direction::Left));
    let both = movement(true, true, FRAME_US, None);
    assert_eq!(update_direction(both.x), None);
}
