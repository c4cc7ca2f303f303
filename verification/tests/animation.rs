use platformer::animation::{
    animate_sprite, change_player_animation, face, select_animation, switch_animation, Animation,
    AtlasHandle, FrameTime, MissingAnimation, Sprite, SpriteAnimation,
};
use platformer::catalog::Animations;
use platformer::motion::Vertical;
use platformer::input::{Controls, Key};

fn idle_clip() -> SpriteAnimation {
    SpriteAnimation { len: 11, frame_time: 50_000 }
}

fn run_clip() -> SpriteAnimation {
    SpriteAnimation { len: 12, frame_time: 50_000 }
}

fn catalog() -> Animations {
    Animations::standard(
        AtlasHandle(10),
        AtlasHandle(11),
        AtlasHandle(12),
        AtlasHandle(13),
        AtlasHandle(14),
    )
}

#[test]
fn codes_are_distinct() {
    let all = [
        Animation::PlayerRun,
        Animation::PlayerIdle,
        Animation::PlayerJump,
        Animation::PlayerFall,
        Animation::Apple,
    ];
    for (i, a) in all.iter().enumerate() {
        for (j, b) in all.iter().enumerate() {
            assert_eq!(a.code() == b.code(), i == j);
        }
    }
}

#[test]
fn new_sprite_starts_at_first_frame() {
    let s = Sprite::new(Animation::PlayerIdle, AtlasHandle(3), idle_clip());
    assert_eq!(s.index, 0);
    assert_eq!(s.timer, FrameTime(0));
    assert!(!s.flip_x);
    assert_eq!(s.atlas, AtlasHandle(3));
    assert_eq!(s.clip, idle_clip());
}

#[test]
fn short_tick_only_fills_the_timer() {
    let mut s = Sprite::new(Animation::PlayerIdle, AtlasHandle(0), idle_clip());
    animate_sprite(&mut s, 20_000);
    assert_eq!(s.index, 0);
    assert_eq!(s.timer, FrameTime(20_000));
    animate_sprite(&mut s, 20_000);
    assert_eq!(s.index, 0);
    assert_eq!(s.timer, FrameTime(40_000));
}

#[test]
fn timer_exactly_at_the_frame_time_does_not_advance() {
    let mut s = Sprite::new(Animation::PlayerIdle, AtlasHandle(0), idle_clip());
    animate_sprite(&mut s, 50_000);
    assert_eq!(s.index, 0);
    assert_eq!(s.timer, FrameTime(50_000));
    animate_sprite(&mut s, 1);
    assert_eq!(s.index, 1);
    assert_eq!(s.timer, FrameTime(1));
}

#[test]
fn long_tick_advances_by_whole_frames_and_keeps_the_rest() {
    let mut s = Sprite::new(Animation::PlayerIdle, AtlasHandle(0), idle_clip());
    animate_sprite(&mut s, 120_000);
    assert_eq!(s.index, 2);
    assert_eq!(s.timer, FrameTime(20_000));
}

#[test]
fn frames_wrap_around_the_clip() {
    let mut s = Sprite::new(Animation::PlayerIdle, AtlasHandle(0), idle_clip());
    s.index = 10;
    animate_sprite(&mut s, 60_000);
    assert_eq!(s.index, 0);
    assert_eq!(s.timer, FrameTime(10_000));
    // 25 frames and a bit in one go: 25 mod 11 is 3
    animate_sprite(&mut s, 1_250_000);
    assert_eq!(s.index, 3);
    assert_eq!(s.timer, FrameTime(10_000));
}

#[test]
fn frame_and_timer_stay_in_range_for_any_tick() {
    let samples: [u64; 9] = [0, 1, 49_999, 50_000, 50_001, 99_999, 1_000_000, 123_456_789, u64::MAX];
    let mut s = Sprite::new(Animation::PlayerRun, AtlasHandle(0), run_clip());
    for round in 0..4 {
        for e in samples.iter() {
            let before = s.timer.0;
            animate_sprite(&mut s, *e);
            assert!(s.index < s.clip.len, "round {}", round);
            assert!(s.timer.0 <= s.clip.frame_time);
            if before as u128 + *e as u128 != s.clip.frame_time as u128 {
                assert!(s.timer.0 < s.clip.frame_time);
            }
        }
    }
}

#[test]
fn single_frame_clip_stays_on_its_frame() {
    let mut s = Sprite::new(
        Animation::PlayerJump,
        AtlasHandle(0),
        SpriteAnimation { len: 1, frame_time: 1_000_000 },
    );
    animate_sprite(&mut s, u64::MAX);
    assert_eq!(s.index, 0);
    assert_eq!(s.timer, FrameTime(u64::MAX % 1_000_000));
}

#[test]
fn change_from_run_to_idle_restarts_the_clip() {
    let animations = catalog();
    let mut s = Sprite::new(Animation::PlayerRun, AtlasHandle(11), run_clip());
    s.index = 5;
    s.timer = FrameTime(30_000);
    let r = change_player_animation(&mut s, Vertical::Grounded, &Controls::none(), &animations);
    assert_eq!(r, Ok(()));
    assert_eq!(s.animation, Animation::PlayerIdle);
    assert_eq!(s.clip, SpriteAnimation { len: 11, frame_time: 50_000 });
    assert_eq!(s.atlas, AtlasHandle(10));
    assert_eq!(s.index, 0);
    assert_eq!(s.timer, FrameTime(0));
}

#[test]
fn same_animation_keeps_playing() {
    let animations = catalog();
    let mut s = Sprite::new(Animation::PlayerRun, AtlasHandle(11), run_clip());
    s.index = 5;
    s.timer = FrameTime(30_000);
    let mut controls = Controls::none();
    controls.right = Key::down();
    let r = change_player_animation(&mut s, Vertical::Grounded, &controls, &animations);
    assert_eq!(r, Ok(()));
    assert_eq!(s.animation, Animation::PlayerRun);
    assert_eq!(s.index, 5);
    assert_eq!(s.timer, FrameTime(30_000));
}

#[test]
fn missing_clip_is_reported_and_nothing_changes() {
    let mut animations = Animations::new();
    animations.add(Animation::PlayerIdle, AtlasHandle(1), idle_clip());
    let mut s = Sprite::new(Animation::PlayerIdle, AtlasHandle(1), idle_clip());
    s.index = 4;
    s.timer = FrameTime(7);
    let before = s;
    let r = change_player_animation(&mut s, Vertical::Falling, &Controls::none(), &animations);
    assert_eq!(r, Err(MissingAnimation(Animation::PlayerFall)));
    assert_eq!(s, before);
}

#[test]
fn missing_clip_still_lets_the_sprite_turn() {
    let animations = Animations::new();
    let mut s = Sprite::new(Animation::PlayerIdle, AtlasHandle(1), idle_clip());
    let mut controls = Controls::none();
    controls.left = Key::pressed();
    let r = change_player_animation(&mut s, Vertical::Grounded, &controls, &animations);
    assert_eq!(r, Err(MissingAnimation(Animation::PlayerRun)));
    assert!(s.flip_x);
    assert_eq!(s.animation, Animation::PlayerIdle);
}

#[test]
fn missing_clip_is_not_reported_while_it_is_not_asked_for() {
    let animations = Animations::new();
    let mut s = Sprite::new(Animation::PlayerIdle, AtlasHandle(1), idle_clip());
    let r = change_player_animation(&mut s, Vertical::Grounded, &Controls::none(), &animations);
    assert_eq!(r, Ok(()));
}

#[test]
fn switch_with_an_entry_in_hand() {
    let mut s = Sprite::new(Animation::PlayerRun, AtlasHandle(11), run_clip());
    s.index = 9;
    s.flip_x = true;
    let r = switch_animation(&mut s, Animation::PlayerJump, Some((AtlasHandle(2), SpriteAnimation { len: 1, frame_time: 1_000_000 })));
    assert_eq!(r, Ok(()));
    assert_eq!(s.index, 0);
    assert_eq!(s.animation, Animation::PlayerJump);
    assert!(s.flip_x);
    let before = s;
    let r = switch_animation(&mut s, Animation::PlayerFall, None);
    assert_eq!(r, Err(MissingAnimation(Animation::PlayerFall)));
    assert_eq!(s, before);
    let r = switch_animation(&mut s, Animation::PlayerJump, None);
    assert_eq!(r, Ok(()));
    assert_eq!(s, before);
}

#[test]
fn selection_follows_the_priority() {
    let mut both = Controls::none();
    both.left = Key::down();
    both.right = Key::down();
    let none = Controls::none();
    assert_eq!(select_animation(Vertical::Jumping(5), &both), Animation::PlayerJump);
    assert_eq!(select_animation(Vertical::Jumping(5), &none), Animation::PlayerJump);
    assert_eq!(select_animation(Vertical::Falling, &both), Animation::PlayerFall);
    assert_eq!(select_animation(Vertical::Falling, &none), Animation::PlayerFall);
    assert_eq!(select_animation(Vertical::Grounded, &both), Animation::PlayerRun);
    assert_eq!(select_animation(Vertical::Grounded, &none), Animation::PlayerIdle);
    let mut right = Controls::none();
    right.right = Key::down();
    assert_eq!(select_animation(Vertical::Grounded, &right), Animation::PlayerRun);
    let mut jump = Controls::none();
    jump.jump = Key::down();
    assert_eq!(select_animation(Vertical::Grounded, &jump), Animation::PlayerIdle);
}

#[test]
fn facing_follows_the_edges() {
    let mut c = Controls::none();
    assert!(face(true, &c));
    assert!(!face(false, &c));
    c.left = Key::pressed();
    assert!(face(false, &c));
    c.right = Key::pressed();
    assert!(face(false, &c));
    // right pressed while left is down: still left
    c.left = Key::down();
    assert!(face(true, &c));
    // right pressed alone
    c.left = Key::idle();
    assert!(!face(true, &c));
    // left released while right is down
    c.left = Key::released();
    c.right = Key::down();
    assert!(!face(true, &c));
    // left released alone
    c.right = Key::idle();
    assert!(!face(true, &c));
    // right released: no change
    c.left = Key::idle();
    c.right = Key::released();
    assert!(face(true, &c));
    assert!(!face(false, &c));
}

#[test]
fn vertical_state_queries() {
    assert!(Vertical::Grounded.grounded());
    assert!(!Vertical::Falling.grounded());
    assert!(!Vertical::Jumping(1).grounded());
    assert!(Vertical::Jumping(1).jumping());
    assert!(!Vertical::Grounded.jumping());
    assert!(!Vertical::Falling.jumping());
}
