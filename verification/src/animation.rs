//! Sprite animation: the clip a sprite plays, its frame timer, and the rules
//! that pick the player's clip and facing.

use crate::catalog::Animations;
use crate::input::Controls;
use crate::motion::Vertical;
use vstd::arithmetic::div_mod::{lemma_fundamental_div_mod, lemma_mod_bound};
use vstd::prelude::*;

verus! {

/// The logical animations of the game.
#[derive(Clone, Copy, Debug, PartialEq, Eq, Structural, Hash)]
pub enum Animation {
    PlayerRun,
    PlayerIdle,
    PlayerJump,
    PlayerFall,
    Apple,
}

/// A reference to the sheet of frames that a clip is drawn from. The core
/// only copies and compares it.
#[derive(Clone, Copy, Debug, PartialEq, Eq, Structural, Hash)]
pub struct AtlasHandle(pub u32);

/// How a clip plays: its number of frames and the microseconds each one stays.
#[derive(Clone, Copy, Debug, PartialEq, Eq, Structural)]
pub struct SpriteAnimation {
    pub len: usize,
    pub frame_time: u64,
}

/// Microseconds spent in the frame that is showing.
#[derive(Clone, Copy, Debug, PartialEq, Eq, Structural)]
pub struct FrameTime(pub u64);

/// The animation state of one entity.
#[derive(Clone, Copy, Debug, PartialEq, Eq, Structural)]
pub struct Sprite {
    /// The clip that is playing.
    pub animation: Animation,
    /// Where its frames come from.
    pub atlas: AtlasHandle,
    /// Its length and pace.
    pub clip: SpriteAnimation,
    /// The frame that is showing.
    pub index: usize,
    /// Time spent in that frame.
    pub timer: FrameTime,
    /// The sprite is mirrored to face left.
    pub flip_x: bool,
}

/// The one failure of the core: a clip was asked for that the catalog lacks.
#[derive(Clone, Copy, Debug, PartialEq, Eq, Structural)]
pub struct MissingAnimation(pub Animation);

impl Animation {
    /// The small number that stands for this animation as a key.
    pub open spec fn spec_code(self) -> u8 {
        match self {
            Animation::PlayerRun => 0,
            Animation::PlayerIdle => 1,
            Animation::PlayerJump => 2,
            Animation::PlayerFall => 3,
            Animation::Apple => 4,
        }
    }

    #[verifier::when_used_as_spec(spec_code)]
    pub fn code(self) -> (c: u8)
        ensures
            c == self.spec_code(),
    {
        match self {
            Animation::PlayerRun => 0,
            Animation::PlayerIdle => 1,
            Animation::PlayerJump => 2,
            Animation::PlayerFall => 3,
            Animation::Apple => 4,
        }
    }
}

impl SpriteAnimation {
    /// A clip has at least one frame, and each frame lasts some time.
    pub open spec fn wf(self) -> bool {
        self.len >= 1 && self.frame_time > 0
    }
}

impl Sprite {
    /// The frame showing is one of the clip's, and its timer has not run past
    /// the frame's duration.
    pub open spec fn wf(self) -> bool {
        &&& self.clip.wf()
        &&& self.index < self.clip.len
        &&& self.timer.0 <= self.clip.frame_time
    }

    /// The sprite after `elapsed` more microseconds. Time beyond the frame's
    /// duration moves the frame on by the whole frames it covers, around the
    /// clip, and only what those frames did not use stays on the timer.
    pub open spec fn advanced(self, elapsed: int) -> Sprite {
        let period = self.clip.frame_time as int;
        let t = self.timer.0 + elapsed;
        if t > period {
            let frames = t / period;
            Sprite {
                index: ((self.index + frames) % (self.clip.len as int)) as usize,
                timer: FrameTime((t - period * frames) as u64),
                ..self
            }
        } else {
            Sprite { timer: FrameTime(t as u64), ..self }
        }
    }

    /// The sprite after a request to play `want`, where `entry` is what the
    /// catalog holds for it. A request for the clip that is playing changes
    /// nothing; one for a clip the catalog lacks changes nothing either;
    /// any other starts the new clip at its first frame.
    pub open spec fn switched(self, want: Animation, entry: Option<(AtlasHandle, SpriteAnimation)>)
        -> Sprite {
        if want == self.animation {
            self
        } else {
            match entry {
                Some((atlas, clip)) => Sprite {
                    animation: want,
                    atlas,
                    clip,
                    index: 0,
                    timer: FrameTime(0),
                    flip_x: self.flip_x,
                },
                None => self,
            }
        }
    }

    /// A sprite at the first frame of a clip, facing right.
    pub fn new(animation: Animation, atlas: AtlasHandle, clip: SpriteAnimation) -> (s: Sprite)
        requires
            clip.wf(),
        ensures
            s.wf(),
            s == (Sprite { animation, atlas, clip, index: 0, timer: FrameTime(0), flip_x: false }),
    {
        Sprite { animation, atlas, clip, index: 0, timer: FrameTime(0), flip_x: false }
    }
}

/// Which way the sprite faces after a tick. A press of left turns it left. A
/// press of right turns it right unless left is down. A release of left that
/// leaves left up turns it right. Otherwise it keeps facing as it did.
pub open spec fn facing(flip_x: bool, controls: Controls) -> bool {
    if controls.left.just_pressed {
        true
    } else if controls.right.just_pressed && !controls.left.held {
        false
    } else if controls.left.just_released && !controls.left.held {
        false
    } else {
        flip_x
    }
}

/// The clip the player should show: the jump while it jumps, the fall while it
/// is in the air, the run while a direction is held, else the idle.
pub open spec fn selected(vertical: Vertical, controls: Controls) -> Animation {
    if vertical.is_jumping() {
        Animation::PlayerJump
    } else if !vertical.is_grounded() {
        Animation::PlayerFall
    } else if controls.left.held || controls.right.held {
        Animation::PlayerRun
    } else {
        Animation::PlayerIdle
    }
}

/// Computes `facing`.
pub fn face(flip_x: bool, controls: &Controls) -> (f: bool)
    ensures
        f == facing(flip_x, *controls),
{
    if controls.left.just_pressed {
        true
    } else if controls.right.just_pressed && !controls.left.held {
        false
    } else if controls.left.just_released && !controls.left.held {
        false
    } else {
        flip_x
    }
}

/// Computes `selected`.
pub fn select_animation(vertical: Vertical, controls: &Controls) -> (a: Animation)
    ensures
        a == selected(vertical, *controls),
{
    if vertical.jumping() {
        Animation::PlayerJump
    } else if !vertical.grounded() {
        Animation::PlayerFall
    } else if controls.left.held || controls.right.held {
        Animation::PlayerRun
    } else {
        Animation::PlayerIdle
    }
}

/// Advances the frame timer of one sprite by `elapsed` microseconds.
pub fn animate_sprite(sprite: &mut Sprite, elapsed: u64)
    requires
        old(sprite).wf(),
    ensures
        *final(sprite) == old(sprite).advanced(elapsed as int),
        final(sprite).wf(),
{
    let period: u128 = sprite.clip.frame_time as u128;
    let t: u128 = sprite.timer.0 as u128 + elapsed as u128;
    if t > period {
        let frames: u128 = t / period;
        let len: u128 = sprite.clip.len as u128;
        proof {
            lemma_fundamental_div_mod(t as int, period as int);
            lemma_mod_bound(t as int, period as int);
            lemma_mod_bound(sprite.index as int + frames as int, len as int);
        }
        let used: u128 = period * frames;
        let index: u128 = (sprite.index as u128 + frames) % len;
        sprite.index = index as usize;
        sprite.timer = FrameTime((t - used) as u64);
    } else {
        sprite.timer = FrameTime(t as u64);
    }
}

/// Carries out a request to play `want`, given what the catalog holds for it.
/// Fails, and leaves the sprite as it was, only when the clip differs from the
/// one playing and the catalog lacks it.
pub fn switch_animation(
    sprite: &mut Sprite,
    want: Animation,
    entry: Option<(AtlasHandle, SpriteAnimation)>,
) -> (r: Result<(), MissingAnimation>)
    requires
        old(sprite).wf(),
        entry is Some ==> entry->Some_0.1.wf(),
    ensures
        *final(sprite) == old(sprite).switched(want, entry),
        final(sprite).wf(),
        r is Err <==> want != old(sprite).animation && entry is None,
        r is Err ==> r == Err::<(), MissingAnimation>(MissingAnimation(want)),
{
    if want == sprite.animation {
        return Ok(());
    }
    match entry {
        Some((atlas, clip)) => {
            sprite.animation = want;
            sprite.atlas = atlas;
            sprite.clip = clip;
            sprite.index = 0;
            sprite.timer = FrameTime(0);
            Ok(())
        },
        None => Err(MissingAnimation(want)),
    }
}

/// Sets the player's facing from the keys, then picks the clip that fits its
/// motion and starts it if it differs from the one playing. Where the catalog
/// lacks the clip, the one playing goes on and the missing one is reported.
pub fn change_player_animation(
    sprite: &mut Sprite,
    vertical: Vertical,
    controls: &Controls,
    animations: &Animations,
) -> (r: Result<(), MissingAnimation>)
    requires
        old(sprite).wf(),
        animations.wf(),
    ensures
        final(sprite).wf(),
        *final(sprite) == (Sprite {
            flip_x: facing(old(sprite).flip_x, *controls),
            ..*old(sprite)
        }).switched(selected(vertical, *controls), animations.entry(selected(vertical, *controls))),
        r is Err <==> selected(vertical, *controls) != old(sprite).animation
            && !animations@.contains_key(selected(vertical, *controls)),
        r is Err ==> r == Err::<(), MissingAnimation>(
            MissingAnimation(selected(vertical, *controls)),
        ),
{
    sprite.flip_x = face(sprite.flip_x, controls);
    let want = select_animation(vertical, controls);
    let entry = animations.get(want);
    switch_animation(sprite, want, entry)
}

/// After any advance of the frame timer the frame showing is one of the
/// clip's and the timer is within the frame's duration. The timer ends below
/// the duration unless the time added brought it exactly onto it.
pub proof fn lemma_advanced_in_range(sprite: Sprite, elapsed: nat)
    requires
        sprite.wf(),
        elapsed <= u64::MAX,
    ensures
        0 <= sprite.advanced(elapsed as int).index < sprite.clip.len,
        0 <= sprite.advanced(elapsed as int).timer.0 <= sprite.clip.frame_time,
        sprite.timer.0 + elapsed != sprite.clip.frame_time ==> sprite.advanced(
            elapsed as int,
        ).timer.0 < sprite.clip.frame_time,
{
    let period = sprite.clip.frame_time as int;
    let t = sprite.timer.0 + elapsed;
    if t > period {
        lemma_fundamental_div_mod(t, period);
        lemma_mod_bound(t, period);
        lemma_mod_bound(sprite.index + t / period, sprite.clip.len as int);
    }
}

/// A change of clip starts the new clip at its first frame with an empty
/// timer, whatever frame the old clip was showing.
pub proof fn lemma_switch_restarts(
    sprite: Sprite,
    want: Animation,
    atlas: AtlasHandle,
    clip: SpriteAnimation,
)
    requires
        want != sprite.animation,
    ensures
        sprite.switched(want, Some((atlas, clip))).index == 0,
        sprite.switched(want, Some((atlas, clip))).timer == FrameTime(0),
        sprite.switched(want, Some((atlas, clip))).animation == want,
        sprite.switched(want, Some((atlas, clip))).clip == clip,
{
}

} // verus!
