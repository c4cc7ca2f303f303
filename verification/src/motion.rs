//! The player's motion: the horizontal step, the jump and the fall, each
//! resolved against the static solids of the world.
//!
//! Collision is tested once per tick, at the place where a move would end. The
//! player is on the ground exactly when its last fall ended on a solid; a jump
//! takes it off the ground at once, so that it moves at its airborne speed
//! while it rises.

use crate::animation::Sprite;
use crate::geometry::{check_hit, overlaps, saturate, saturate_coord, HitBox, Point};
use crate::input::Controls;
use vstd::prelude::*;

verus! {

/// Horizontal speed of the player on the ground, in world units per second.
pub const MOVE_SPEED: u32 = 100;

/// Speed of the fall, in world units per second.
pub const FALL_SPEED: u32 = 98;

/// Budget of one jump, in steps.
pub const JUMP_BUDGET: u64 = 100_000_000;

/// The constants of motion.
#[derive(Clone, Copy, Debug, PartialEq, Eq, Structural)]
pub struct Physics {
    /// Horizontal speed on the ground, in world units per second.
    pub move_speed: u32,
    /// Speed of the fall, in world units per second.
    pub fall_speed: u32,
    /// Budget that a jump starts with, in steps.
    pub jump_budget: u64,
}

/// The vertical state of the player.
#[derive(Clone, Copy, Debug, PartialEq, Eq, Structural)]
pub enum Vertical {
    /// Resting on a solid.
    Grounded,
    /// Rising, with this much of the jump's budget left, in steps.
    Jumping(u64),
    /// In the air and not rising.
    Falling,
}

/// A piece of terrain: it never moves and nothing passes through it.
#[derive(Clone, Copy, Debug, PartialEq, Eq, Structural)]
pub struct Solid {
    pub position: Point,
    pub hitbox: HitBox,
}

/// The entity under the user's control.
#[derive(Clone, Copy, Debug, PartialEq, Eq, Structural)]
pub struct Player {
    pub position: Point,
    pub hitbox: HitBox,
    pub vertical: Vertical,
    pub sprite: Sprite,
}

impl Physics {
    /// A jump starts with some budget.
    pub open spec fn wf(self) -> bool {
        self.jump_budget > 0
    }

    /// The constants of the game.
    pub fn standard() -> (p: Physics)
        ensures
            p.wf(),
            p == (Physics { move_speed: 100, fall_speed: 98, jump_budget: 100_000_000 }),
    {
        Physics { move_speed: MOVE_SPEED, fall_speed: FALL_SPEED, jump_budget: JUMP_BUDGET }
    }
}

impl Vertical {
    /// The player stands on a solid.
    pub open spec fn is_grounded(self) -> bool {
        self == Vertical::Grounded
    }

    /// A jump is in progress.
    pub open spec fn is_jumping(self) -> bool {
        self is Jumping
    }

    /// A jump in progress always has budget left.
    pub open spec fn wf(self) -> bool {
        match self {
            Vertical::Jumping(remaining) => remaining > 0,
            _ => true,
        }
    }

    #[verifier::when_used_as_spec(is_grounded)]
    pub fn grounded(self) -> (g: bool)
        ensures
            g == self.is_grounded(),
    {
        match self {
            Vertical::Grounded => true,
            _ => false,
        }
    }

    #[verifier::when_used_as_spec(is_jumping)]
    pub fn jumping(self) -> (j: bool)
        ensures
            j == self.is_jumping(),
    {
        match self {
            Vertical::Jumping(_) => true,
            _ => false,
        }
    }
}

impl Solid {
    /// The height of the solid's upper edge.
    pub open spec fn top(self) -> int {
        self.hitbox.top(self.position)
    }
}

impl Player {
    /// A jump in progress has budget left, and the sprite can be played.
    pub open spec fn wf(self) -> bool {
        self.vertical.wf() && self.sprite.wf()
    }
}

/// The box `hitbox`, placed at `at`, overlaps the solid at index `i`.
pub open spec fn contact(hitbox: HitBox, at: Point, solids: Seq<Solid>, i: int) -> bool {
    0 <= i < solids.len() && overlaps(hitbox, at, solids[i].hitbox, solids[i].position)
}

/// The box `hitbox`, placed at `at`, overlaps some solid.
pub open spec fn blocked(hitbox: HitBox, at: Point, solids: Seq<Solid>) -> bool {
    exists|i: int| contact(hitbox, at, solids, i)
}

/// The solid at index `i` is overlapped, and no overlapped solid reaches higher.
pub open spec fn highest_contact(hitbox: HitBox, at: Point, solids: Seq<Solid>, i: int) -> bool {
    &&& contact(hitbox, at, solids, i)
    &&& forall|j: int| contact(hitbox, at, solids, j) ==> solids[j].top() <= solids[i].top()
}

/// The length of the horizontal step: speed times time, and half of that
/// again; the full speed is added only on the ground.
pub open spec fn stride(speed: int, elapsed: int, grounded: bool) -> int {
    if grounded {
        speed * elapsed * 3 / 2
    } else {
        speed * elapsed / 2
    }
}

/// A press of the jump key while on the ground starts a jump.
pub open spec fn jump_triggered(vertical: Vertical, controls: Controls) -> bool {
    controls.jump.just_pressed && vertical.is_grounded()
}

/// Where the horizontal step would take the player: left if left is held,
/// else right if right is held, else nowhere.
pub open spec fn move_target(player: Player, controls: Controls, elapsed: int, speed: int)
    -> Point {
    let step = stride(speed, elapsed, player.vertical.is_grounded());
    let x = if controls.left.held {
        saturate(player.position.x - step)
    } else if controls.right.held {
        saturate(player.position.x + step)
    } else {
        player.position.x as int
    };
    Point { x: x as i64, y: player.position.y }
}

/// The player after the horizontal step. A triggered jump takes the place of
/// the step. A step into a solid is not taken at all.
pub open spec fn moved(
    player: Player,
    solids: Seq<Solid>,
    controls: Controls,
    elapsed: int,
    physics: Physics,
) -> Player {
    let target = move_target(player, controls, elapsed, physics.move_speed as int);
    if jump_triggered(player.vertical, controls) {
        Player { vertical: Vertical::Jumping(physics.jump_budget), ..player }
    } else if blocked(player.hitbox, target, solids) {
        player
    } else {
        Player { position: target, ..player }
    }
}

/// How far one tick of a jump can lift the player: twice the fall in that time.
pub open spec fn jump_lift(elapsed: int, fall_speed: int) -> int {
    elapsed * fall_speed * 2
}

/// How far one tick of a jump lifts the player: by `lift`, but by no more
/// than the budget that is left.
pub open spec fn jump_power(lift: int, remaining: int) -> int {
    if lift < remaining {
        lift
    } else {
        remaining
    }
}

/// The budget left after one tick of a jump. The lift is paid once while the
/// jump key is held and twice when it is not. It may come out at or below zero.
pub open spec fn budget_after(lift: int, remaining: int, held: bool) -> int {
    if held {
        remaining - jump_power(lift, remaining)
    } else {
        remaining - 2 * jump_power(lift, remaining)
    }
}

/// The number of ticks that a jump goes on from a budget of `remaining`, when
/// every tick can lift by `lift` and the jump key stays as it is.
pub open spec fn jump_ticks(lift: int, remaining: int, held: bool) -> nat
    decreases remaining,
{
    if remaining <= 0 || lift <= 0 {
        0
    } else if budget_after(lift, remaining, held) <= 0 {
        1
    } else {
        1 + jump_ticks(lift, budget_after(lift, remaining, held), held)
    }
}

/// The player after one tick of the jump. Outside a jump nothing changes.
/// Nothing stops the rise; the jump ends, and the fall begins, when the
/// budget is used up.
pub open spec fn jumped(player: Player, held: bool, elapsed: int, fall_speed: int) -> Player {
    match player.vertical {
        Vertical::Jumping(remaining) => {
            let lift = jump_lift(elapsed, fall_speed);
            let left = budget_after(lift, remaining as int, held);
            Player {
                position: Point {
                    x: player.position.x,
                    y: saturate(player.position.y + jump_power(lift, remaining as int)) as i64,
                },
                vertical: if left <= 0 {
                    Vertical::Falling
                } else {
                    Vertical::Jumping(left as u64)
                },
                ..player
            }
        },
        _ => player,
    }
}

/// Where the fall would take the player.
pub open spec fn fall_target(player: Player, elapsed: int, fall_speed: int) -> Point {
    Point {
        x: player.position.x,
        y: saturate(player.position.y - fall_speed * elapsed) as i64,
    }
}

/// The height at which a box of the player's size rests on `solid`.
pub open spec fn rest_height(hitbox: HitBox, solid: Solid) -> int {
    saturate(solid.position.y + (solid.hitbox.height() + hitbox.height()) / 2)
}

/// The player after one tick of the fall. During a jump nothing changes.
/// A fall into solids ends on top of the highest of them, on the ground; any
/// other fall is taken in full and leaves the player in the air.
pub open spec fn fell(player: Player, solids: Seq<Solid>, elapsed: int, fall_speed: int)
    -> Player {
    let target = fall_target(player, elapsed, fall_speed);
    if player.vertical.is_jumping() {
        player
    } else if blocked(player.hitbox, target, solids) {
        let i = choose|i: int| highest_contact(player.hitbox, target, solids, i);
        Player {
            position: Point {
                x: player.position.x,
                y: rest_height(player.hitbox, solids[i]) as i64,
            },
            vertical: Vertical::Grounded,
            ..player
        }
    } else {
        Player { position: target, vertical: Vertical::Falling, ..player }
    }
}

/// The product of a speed and a time: a length in steps.
fn span(speed: u32, elapsed: u64) -> (r: u128)
    ensures
        r == speed * elapsed,
        r <= 0xFFFF_FFFF * 0xFFFF_FFFF_FFFF_FFFF,
{
    assert(speed * elapsed <= 0xFFFF_FFFF * 0xFFFF_FFFF_FFFF_FFFF) by (nonlinear_arith)
        requires
            0 <= speed <= 0xFFFF_FFFF,
            0 <= elapsed <= 0xFFFF_FFFF_FFFF_FFFF,
    ;
    (speed as u128) * (elapsed as u128)
}

/// Tells whether a box placed at `at` overlaps any of the solids.
pub fn hits_any(hitbox: HitBox, at: Point, solids: &Vec<Solid>) -> (hit: bool)
    ensures
        hit == blocked(hitbox, at, solids@),
{
    let mut i: usize = 0;
    while i < solids.len()
        invariant
            i <= solids.len(),
            forall|j: int| 0 <= j < i ==> !contact(hitbox, at, solids@, j),
        decreases solids.len() - i,
    {
        if check_hit(hitbox, at, solids[i].hitbox, solids[i].position) {
            assert(contact(hitbox, at, solids@, i as int));
            return true;
        }
        i += 1;
    }
    false
}

/// Finds, among the solids that a box placed at `at` overlaps, one whose
/// upper edge is highest.
pub fn find_highest_contact(hitbox: HitBox, at: Point, solids: &Vec<Solid>) -> (best: Option<
    usize,
>)
    ensures
        best is None <==> !blocked(hitbox, at, solids@),
        best is Some ==> highest_contact(hitbox, at, solids@, best->Some_0 as int),
{
    let mut best: Option<usize> = None;
    let mut i: usize = 0;
    while i < solids.len()
        invariant
            i <= solids.len(),
            best is None ==> forall|j: int| 0 <= j < i ==> !contact(hitbox, at, solids@, j),
            best is Some ==> best->Some_0 < i && contact(
                hitbox,
                at,
                solids@,
                best->Some_0 as int,
            ),
            best is Some ==> forall|j: int|
                0 <= j < i && contact(hitbox, at, solids@, j) ==> solids@[j].top()
                    <= solids@[best->Some_0 as int].top(),
        decreases solids.len() - i,
    {
        if check_hit(hitbox, at, solids[i].hitbox, solids[i].position) {
            match best {
                None => {
                    best = Some(i);
                },
                Some(b) => {
                    let top_b: i128 = solids[b].position.y as i128
                        + solids[b].hitbox.half_height as i128;
                    let top_i: i128 = solids[i].position.y as i128
                        + solids[i].hitbox.half_height as i128;
                    if top_i > top_b {
                        best = Some(i);
                    }
                },
            }
        }
        i += 1;
    }
    best
}

/// Classifies the player as grounded when its height is the one it had at the
/// end of the tick before, and as airborne when it rose or fell; then
/// remembers the present position for the next tick.
pub fn ground_detection(position: &Point, last: &mut Point) -> (grounded: bool)
    ensures
        grounded == (position.y == old(last).y),
        *final(last) == *position,
{
    let grounded = position.y == last.y;
    *last = *position;
    grounded
}

/// The horizontal step of one tick.
pub fn move_player(
    player: &mut Player,
    solids: &Vec<Solid>,
    controls: &Controls,
    elapsed: u64,
    physics: &Physics,
)
    ensures
        *final(player) == moved(*old(player), solids@, *controls, elapsed as int, *physics),
{
    let grounded = player.vertical.grounded();
    if controls.jump.just_pressed && grounded {
        player.vertical = Vertical::Jumping(physics.jump_budget);
        return ;
    }
    let length: u128 = span(physics.move_speed, elapsed);
    let step: u128 = if grounded {
        length * 3 / 2
    } else {
        length / 2
    };
    let x: i64 = if controls.left.held {
        saturate_coord(player.position.x as i128 - step as i128)
    } else if controls.right.held {
        saturate_coord(player.position.x as i128 + step as i128)
    } else {
        player.position.x
    };
    let target = Point { x, y: player.position.y };
    if !hits_any(player.hitbox, target, solids) {
        player.position = target;
    }
}

/// One tick of the jump.
pub fn player_jump(player: &mut Player, held: bool, elapsed: u64, fall_speed: u32)
    ensures
        *final(player) == jumped(*old(player), held, elapsed as int, fall_speed as int),
        final(player).vertical.wf(),
{
    if let Vertical::Jumping(remaining) = player.vertical {
        let rise: u128 = span(fall_speed, elapsed) * 2;
        assert(rise == jump_lift(elapsed as int, fall_speed as int)) by (nonlinear_arith)
            requires
                rise == (fall_speed * elapsed) * 2,
        ;
        let power: u64 = if rise < remaining as u128 {
            rise as u64
        } else {
            remaining
        };
        let cost: u128 = if held {
            power as u128
        } else {
            power as u128 * 2
        };
        player.position.y = saturate_coord(player.position.y as i128 + power as i128);
        if cost >= remaining as u128 {
            player.vertical = Vertical::Falling;
        } else {
            player.vertical = Vertical::Jumping((remaining as u128 - cost) as u64);
        }
    }
}

/// One tick of the fall.
pub fn player_fall(player: &mut Player, solids: &Vec<Solid>, elapsed: u64, fall_speed: u32)
    ensures
        *final(player) == fell(*old(player), solids@, elapsed as int, fall_speed as int),
        old(player).vertical.wf() ==> final(player).vertical.wf(),
        !old(player).vertical.is_jumping() ==> final(player).vertical.is_grounded() == blocked(
            old(player).hitbox,
            fall_target(*old(player), elapsed as int, fall_speed as int),
            solids@,
        ),
{
    if player.vertical.jumping() {
        return ;
    }
    let drop: u128 = span(fall_speed, elapsed);
    let target = Point {
        x: player.position.x,
        y: saturate_coord(player.position.y as i128 - drop as i128),
    };
    match find_highest_contact(player.hitbox, target, solids) {
        Some(i) => {
            let ghost picked = choose|k: int| highest_contact(player.hitbox, target, solids@, k);
            assert(solids@[picked].top() == solids@[i as int].top());
            let solid = solids[i];
            let height: i128 = solid.position.y as i128 + solid.hitbox.half_height as i128
                + player.hitbox.half_height as i128;
            player.position.y = saturate_coord(height);
            player.vertical = Vertical::Grounded;
        },
        None => {
            player.position = target;
            player.vertical = Vertical::Falling;
        },
    }
}

/// A tick of a jump never adds to the budget. The jump goes on with what is
/// left exactly while something is left, and turns into a fall otherwise.
pub proof fn lemma_jump_budget_never_grows(player: Player, held: bool, elapsed: nat, fall_speed: nat)
    requires
        player.vertical is Jumping,
        player.vertical.wf(),
    ensures
        budget_after(
            jump_lift(elapsed as int, fall_speed as int),
            player.vertical->Jumping_0 as int,
            held,
        ) <= player.vertical->Jumping_0,
        match jumped(player, held, elapsed as int, fall_speed as int).vertical {
            Vertical::Jumping(left) => 0 < left <= player.vertical->Jumping_0 && left
                == budget_after(
                jump_lift(elapsed as int, fall_speed as int),
                player.vertical->Jumping_0 as int,
                held,
            ),
            Vertical::Falling => budget_after(
                jump_lift(elapsed as int, fall_speed as int),
                player.vertical->Jumping_0 as int,
                held,
            ) <= 0,
            Vertical::Grounded => false,
        },
{
    assert(elapsed * fall_speed * 2 >= 0) by (nonlinear_arith);
}

/// Once a jump is over, further ticks of the jump change nothing: it ends once.
pub proof fn lemma_jump_ends_once(player: Player, held: bool, elapsed: int, fall_speed: int)
    requires
        !player.vertical.is_jumping(),
    ensures
        jumped(player, held, elapsed, fall_speed) == player,
{
}

/// A tick of a jump lifts the player equally whether the jump key is held or
/// not, but with the key up it takes twice as much from the budget; so the
/// budget left is never more, and is less whenever the tick lifts at all.
pub proof fn lemma_release_drains_twice(lift: nat, remaining: nat)
    ensures
        remaining - budget_after(lift as int, remaining as int, false) == 2 * (remaining
            - budget_after(lift as int, remaining as int, true)),
        budget_after(lift as int, remaining as int, false) <= budget_after(
            lift as int,
            remaining as int,
            true,
        ),
        lift > 0 && remaining > 0 ==> budget_after(lift as int, remaining as int, false)
            < budget_after(lift as int, remaining as int, true),
{
}

/// From any point of a jump on, the jump is over no later with the jump key up
/// than with the key held, and it is over sooner whenever, with the key held,
/// more than one tick of it would be left.
pub proof fn lemma_release_shortens_jump(lift: int, remaining: int)
    requires
        lift > 0,
    ensures
        jump_ticks(lift, remaining, false) <= jump_ticks(lift, remaining, true),
        remaining > lift ==> jump_ticks(lift, remaining, false) < jump_ticks(
            lift,
            remaining,
            true,
        ),
    decreases remaining,
{
    if remaining > 2 * lift {
        lemma_release_shortens_jump(lift, remaining - 2 * lift);
        assert(jump_ticks(lift, remaining - lift, true) == 1 + jump_ticks(
            lift,
            remaining - 2 * lift,
            true,
        ));
    } else if remaining > lift {
        assert(jump_ticks(lift, remaining - lift, true) == 1);
    }
}

/// The count of `jump_ticks` is the count of ticks of the jump: where budget
/// is left and time passes, one tick of the jump leaves one tick fewer.
pub proof fn lemma_jump_ticks_count_jumped(player: Player, held: bool, elapsed: nat, fall_speed: nat)
    requires
        player.vertical is Jumping,
        player.vertical.wf(),
        jump_lift(elapsed as int, fall_speed as int) > 0,
    ensures
        jump_ticks(
            jump_lift(elapsed as int, fall_speed as int),
            player.vertical->Jumping_0 as int,
            held,
        ) == 1 + (match jumped(player, held, elapsed as int, fall_speed as int).vertical {
            Vertical::Jumping(left) => jump_ticks(
                jump_lift(elapsed as int, fall_speed as int),
                left as int,
                held,
            ),
            _ => 0,
        }),
{
}

/// A horizontal step into a solid is rejected whole: the player stays where
/// it was.
pub proof fn lemma_blocked_move_is_rejected(
    player: Player,
    solids: Seq<Solid>,
    controls: Controls,
    elapsed: int,
    physics: Physics,
)
    requires
        blocked(
            player.hitbox,
            move_target(player, controls, elapsed, physics.move_speed as int),
            solids,
        ),
    ensures
        moved(player, solids, controls, elapsed, physics).position == player.position,
{
}

/// A fall into solids ends on whichever of them reaches highest: every solid
/// that is overlapped with none above it gives the same resting place.
pub proof fn lemma_fall_lands_on_highest(
    player: Player,
    solids: Seq<Solid>,
    elapsed: int,
    fall_speed: int,
    i: int,
)
    requires
        !player.vertical.is_jumping(),
        highest_contact(player.hitbox, fall_target(player, elapsed, fall_speed), solids, i),
    ensures
        fell(player, solids, elapsed, fall_speed) == (Player {
            position: Point {
                x: player.position.x,
                y: rest_height(player.hitbox, solids[i]) as i64,
            },
            vertical: Vertical::Grounded,
            ..player
        }),
{
    let target = fall_target(player, elapsed, fall_speed);
    let picked = choose|k: int| highest_contact(player.hitbox, target, solids, k);
    assert(solids[picked].top() == solids[i].top());
}

/// A player that has landed on a solid stands exactly on its upper edge and
/// does not overlap it, as long as that height is within the coordinate range.
pub proof fn lemma_rest_touches_top(hitbox: HitBox, solid: Solid, x: i64)
    requires
        solid.top() + hitbox.half_height <= i64::MAX,
    ensures
        hitbox.bottom(Point { x, y: rest_height(hitbox, solid) as i64 }) == solid.top(),
        !overlaps(
            hitbox,
            Point { x, y: rest_height(hitbox, solid) as i64 },
            solid.hitbox,
            solid.position,
        ),
{
}

/// A horizontal step never changes the player's height.
pub proof fn lemma_move_keeps_height(
    player: Player,
    solids: Seq<Solid>,
    controls: Controls,
    elapsed: int,
    physics: Physics,
)
    ensures
        moved(player, solids, controls, elapsed, physics).position.y == player.position.y,
{
}

} // verus!
