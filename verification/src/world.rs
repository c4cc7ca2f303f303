//! The world and its tick: the player, the solids it moves against and the
//! collectibles it picks up.

use crate::animation::{
    animate_sprite, change_player_animation, facing, selected, Animation, FrameTime,
    MissingAnimation, Sprite,
};
use crate::catalog::Animations;
use crate::geometry::{check_hit, overlaps, HitBox, Point};
use crate::input::Controls;
use crate::motion::{
    fell, jumped, move_player, moved, player_fall, player_jump, Physics, Player, Solid, Vertical,
};
use vstd::prelude::*;

verus! {

/// Something the player picks up by touching it. It blocks nothing.
#[derive(Clone, Copy, Debug, PartialEq, Eq, Structural)]
pub struct Collectible {
    /// The number by which the owner of the entities knows this one.
    pub entity: u64,
    pub position: Point,
    pub hitbox: HitBox,
    pub sprite: Sprite,
}

/// The state that the simulation owns.
#[derive(Debug)]
pub struct World {
    pub player: Player,
    pub solids: Vec<Solid>,
    pub collectibles: Vec<Collectible>,
}

/// What one tick asks of the world's owner.
#[derive(Debug)]
pub struct TickReport {
    /// The entities to destroy: the collectibles picked up in this tick.
    pub despawned: Vec<u64>,
    /// The clip that the player should have started and the catalog lacks.
    pub missing: Option<MissingAnimation>,
}

/// The collectibles that a box placed at `at` overlaps.
pub open spec fn touched(hitbox: HitBox, at: Point) -> spec_fn(Collectible) -> bool {
    |c: Collectible| overlaps(hitbox, at, c.hitbox, c.position)
}

/// The collectibles that a box placed at `at` does not overlap.
pub open spec fn untouched(hitbox: HitBox, at: Point) -> spec_fn(Collectible) -> bool {
    |c: Collectible| !overlaps(hitbox, at, c.hitbox, c.position)
}

/// The entity number of a collectible.
pub open spec fn entity_of() -> spec_fn(Collectible) -> u64 {
    |c: Collectible| c.entity
}

/// A collectible whose frame timer has run for `elapsed` more microseconds.
pub open spec fn animated(elapsed: int) -> spec_fn(Collectible) -> Collectible {
    |c: Collectible| Collectible { sprite: c.sprite.advanced(elapsed), ..c }
}

/// Every collectible has a sprite that can be played.
pub open spec fn sprites_wf(collectibles: Seq<Collectible>) -> bool {
    forall|i: int| 0 <= i < collectibles.len() ==> (#[trigger] collectibles[i]).sprite.wf()
}

/// The vertical part of a tick: the jump while one is in progress, else the fall.
pub open spec fn risen_or_fallen(
    player: Player,
    solids: Seq<Solid>,
    controls: Controls,
    elapsed: int,
    physics: Physics,
) -> Player {
    if player.vertical.is_jumping() {
        jumped(player, controls.jump.held, elapsed, physics.fall_speed as int)
    } else {
        fell(player, solids, elapsed, physics.fall_speed as int)
    }
}

/// The clip that a tick asks the catalog for: the one that fits the player's
/// motion once it has moved.
pub open spec fn wanted(
    player: Player,
    solids: Seq<Solid>,
    controls: Controls,
    elapsed: int,
    physics: Physics,
) -> Animation {
    let placed = risen_or_fallen(
        moved(player, solids, controls, elapsed, physics),
        solids,
        controls,
        elapsed,
        physics,
    );
    selected(placed.vertical, controls)
}

/// The player after one tick: the horizontal step, then the jump or the fall,
/// then the choice of facing and clip, then the advance of the frame timer.
pub open spec fn player_after(
    player: Player,
    solids: Seq<Solid>,
    controls: Controls,
    elapsed: int,
    physics: Physics,
    animations: Animations,
) -> Player {
    let placed = risen_or_fallen(
        moved(player, solids, controls, elapsed, physics),
        solids,
        controls,
        elapsed,
        physics,
    );
    let want = selected(placed.vertical, controls);
    let turned = Sprite { flip_x: facing(placed.sprite.flip_x, controls), ..placed.sprite };
    Player { sprite: turned.switched(want, animations.entry(want)).advanced(elapsed), ..placed }
}

/// The collectibles after one tick in which the player ends at `at`: each has
/// played on, and those the player touches are gone.
pub open spec fn collected(
    collectibles: Seq<Collectible>,
    elapsed: int,
    hitbox: HitBox,
    at: Point,
) -> Seq<Collectible> {
    collectibles.map_values(animated(elapsed)).filter(untouched(hitbox, at))
}

/// The entity numbers of the collectibles picked up in one tick in which the
/// player ends at `at`, in the order the collectibles stood in.
pub open spec fn picked_up(
    collectibles: Seq<Collectible>,
    elapsed: int,
    hitbox: HitBox,
    at: Point,
) -> Seq<u64> {
    collectibles.map_values(animated(elapsed)).filter(touched(hitbox, at)).map_values(entity_of())
}

/// The clip to report as missing when a sprite playing `playing` is asked to
/// play `want`: `want` itself, where it would be a change and the catalog
/// lacks it.
pub open spec fn lacking(playing: Animation, want: Animation, animations: Animations) -> Option<
    MissingAnimation,
> {
    if want != playing && !animations@.contains_key(want) {
        Some(MissingAnimation(want))
    } else {
        None
    }
}

impl World {
    /// The player and every collectible can be played.
    pub open spec fn wf(&self) -> bool {
        self.player.wf() && sprites_wf(self.collectibles@)
    }
}

/// Whatever is left after a pickup stood there before it and was not touched.
pub proof fn lemma_pickup_keeps_only_untouched(
    collectibles: Seq<Collectible>,
    hitbox: HitBox,
    at: Point,
)
    ensures
        forall|i: int|
            0 <= i < collectibles.filter(untouched(hitbox, at)).len() ==> {
                let c = #[trigger] collectibles.filter(untouched(hitbox, at))[i];
                &&& !overlaps(hitbox, at, c.hitbox, c.position)
                &&& exists|k: int| 0 <= k < collectibles.len() && collectibles[k] == c
            },
{
    let left = collectibles.filter(untouched(hitbox, at));
    assert forall|i: int| 0 <= i < left.len() implies {
        let c = #[trigger] left[i];
        &&& !overlaps(hitbox, at, c.hitbox, c.position)
        &&& exists|k: int| 0 <= k < collectibles.len() && collectibles[k] == c
    } by {
        collectibles.lemma_filter_pred(untouched(hitbox, at), i);
        assert(left.contains(left[i]));
        collectibles.lemma_filter_contains_rev(untouched(hitbox, at), left[i]);
    }
}

/// Removes the collectibles that the box `hitbox`, placed at `at`, overlaps,
/// each once, and returns their entity numbers, in the order they stood in.
/// Those that stay keep their order.
pub fn get_collectable(hitbox: HitBox, at: Point, collectibles: &mut Vec<Collectible>) -> (despawned:
    Vec<u64>)
    ensures
        final(collectibles)@ == old(collectibles)@.filter(untouched(hitbox, at)),
        despawned@ == old(collectibles)@.filter(touched(hitbox, at)).map_values(entity_of()),
{
    let mut kept: Vec<Collectible> = Vec::new();
    let mut despawned: Vec<u64> = Vec::new();
    let ghost all = collectibles@;
    proof {
        reveal(Seq::filter);
        assert(all.take(0).filter(untouched(hitbox, at)) =~= Seq::<Collectible>::empty());
        assert(all.take(0).filter(touched(hitbox, at)).map_values(entity_of()) =~= Seq::<
            u64,
        >::empty());
    }
    let mut i: usize = 0;
    while i < collectibles.len()
        invariant
            i <= collectibles.len(),
            collectibles@ == all,
            kept@ == all.take(i as int).filter(untouched(hitbox, at)),
            despawned@ == all.take(i as int).filter(touched(hitbox, at)).map_values(entity_of()),
        decreases collectibles.len() - i,
    {
        let c = collectibles[i];
        proof {
            let seen = all.take(i as int);
            all.lemma_take_succ_push(i as int);
            seen.lemma_filter_push(c, untouched(hitbox, at));
            seen.lemma_filter_push(c, touched(hitbox, at));
            seen.filter(touched(hitbox, at)).lemma_push_map_commute(entity_of(), c);
        }
        if check_hit(hitbox, at, c.hitbox, c.position) {
            despawned.push(c.entity);
        } else {
            kept.push(c);
        }
        i += 1;
    }
    proof {
        all.lemma_take_len();
    }
    *collectibles = kept;
    despawned
}

/// Advances the frame timer of every collectible by `elapsed` microseconds.
pub fn animate_collectibles(collectibles: &mut Vec<Collectible>, elapsed: u64)
    requires
        sprites_wf(old(collectibles)@),
    ensures
        final(collectibles)@ == old(collectibles)@.map_values(animated(elapsed as int)),
        sprites_wf(final(collectibles)@),
{
    let ghost all = collectibles@;
    let mut i: usize = 0;
    while i < collectibles.len()
        invariant
            i <= collectibles.len(),
            collectibles@.len() == all.len(),
            sprites_wf(all),
            sprites_wf(collectibles@),
            forall|j: int| 0 <= j < i ==> collectibles@[j] == animated(elapsed as int)(all[j]),
            forall|j: int| i <= j < all.len() ==> collectibles@[j] == all[j],
        decreases collectibles.len() - i,
    {
        let mut c = collectibles[i];
        assert(c == all[i as int]);
        animate_sprite(&mut c.sprite, elapsed);
        collectibles.set(i, c);
        i += 1;
    }
    assert(collectibles@ =~= all.map_values(animated(elapsed as int)));
}

/// One tick of the simulation, in its fixed order: the horizontal step, the
/// jump or the fall, the choice of the player's clip, the advance of every
/// frame timer, and the pickup of the collectibles that the player touches
/// where it ends up. The terrain never changes. Whether the player stands on
/// the ground is what its last fall found; the tick does not judge it again
/// from the change in height.
pub fn tick(
    world: &mut World,
    controls: &Controls,
    elapsed: u64,
    physics: &Physics,
    animations: &Animations,
) -> (report: TickReport)
    requires
        old(world).wf(),
        animations.wf(),
    ensures
        final(world).wf(),
        final(world).solids@ == old(world).solids@,
        final(world).player == player_after(
            old(world).player,
            old(world).solids@,
            *controls,
            elapsed as int,
            *physics,
            *animations,
        ),
        final(world).collectibles@ == collected(
            old(world).collectibles@,
            elapsed as int,
            final(world).player.hitbox,
            final(world).player.position,
        ),
        report.despawned@ == picked_up(
            old(world).collectibles@,
            elapsed as int,
            final(world).player.hitbox,
            final(world).player.position,
        ),
        report.missing == lacking(
            old(world).player.sprite.animation,
            wanted(old(world).player, old(world).solids@, *controls, elapsed as int, *physics),
            *animations,
        ),
{
    let mut player = world.player;
    move_player(&mut player, &world.solids, controls, elapsed, physics);
    if player.vertical.jumping() {
        player_jump(&mut player, controls.jump.held, elapsed, physics.fall_speed);
    } else {
        player_fall(&mut player, &world.solids, elapsed, physics.fall_speed);
    }
    let changed = change_player_animation(&mut player.sprite, player.vertical, controls, animations);
    animate_sprite(&mut player.sprite, elapsed);
    world.player = player;
    animate_collectibles(&mut world.collectibles, elapsed);
    let despawned = get_collectable(player.hitbox, player.position, &mut world.collectibles);
    proof {
        let shown = old(world).collectibles@.map_values(animated(elapsed as int));
        lemma_pickup_keeps_only_untouched(shown, player.hitbox, player.position);
        assert forall|i: int| 0 <= i < world.collectibles@.len() implies (
        #[trigger] world.collectibles@[i]).sprite.wf() by {
            let k = choose|k: int| 0 <= k < shown.len() && shown[k] == world.collectibles@[i];
            assert(shown[k].sprite.wf());
        }
    }
    let missing = match changed {
        Ok(_) => None,
        Err(e) => Some(e),
    };
    TickReport { despawned, missing }
}

/// The player as the game starts: at the origin, on the ground, 18 units wide
/// and 32 high, showing the first frame of the idle. Fails where the catalog
/// has no idle.
pub fn spawn_player(animations: &Animations) -> (r: Result<Player, MissingAnimation>)
    requires
        animations.wf(),
    ensures
        r is Ok <==> animations@.contains_key(Animation::PlayerIdle),
        r is Ok ==> r->Ok_0.wf() && r->Ok_0 == (Player {
            position: Point { x: 0, y: 0 },
            hitbox: HitBox { half_width: 9_000_000, half_height: 16_000_000 },
            vertical: Vertical::Grounded,
            sprite: Sprite {
                animation: Animation::PlayerIdle,
                atlas: animations@[Animation::PlayerIdle].0,
                clip: animations@[Animation::PlayerIdle].1,
                index: 0,
                timer: FrameTime(0),
                flip_x: false,
            },
        }),
        r is Err ==> r->Err_0 == MissingAnimation(Animation::PlayerIdle),
{
    match animations.get(Animation::PlayerIdle) {
        Some((atlas, clip)) => Ok(
            Player {
                position: Point { x: 0, y: 0 },
                hitbox: HitBox { half_width: 9_000_000, half_height: 16_000_000 },
                vertical: Vertical::Grounded,
                sprite: Sprite::new(Animation::PlayerIdle, atlas, clip),
            },
        ),
        None => Err(MissingAnimation(Animation::PlayerIdle)),
    }
}

/// The terrain of the game: a ground strip 200 units wide and 16 high, centred
/// 16 units below the origin, and a block of 32 by 32 units centred at (100, 25).
pub open spec fn map_solids() -> Seq<Solid> {
    seq![
        Solid {
            position: Point { x: 0, y: -16_000_000i64 },
            hitbox: HitBox { half_width: 100_000_000, half_height: 8_000_000 },
        },
        Solid {
            position: Point { x: 100_000_000, y: 25_000_000 },
            hitbox: HitBox { half_width: 16_000_000, half_height: 16_000_000 },
        },
    ]
}

/// The map as the game starts: its terrain, and one apple of 32 by 32 units
/// centred at (32, 16), known as entity 0. Where the catalog has no apple the
/// map has none either.
pub fn spawn_map(animations: &Animations) -> (map: (Vec<Solid>, Vec<Collectible>))
    requires
        animations.wf(),
    ensures
        map.0@ == map_solids(),
        sprites_wf(map.1@),
        !animations@.contains_key(Animation::Apple) ==> map.1@.len() == 0,
        animations@.contains_key(Animation::Apple) ==> map.1@ == seq![
            Collectible {
                entity: 0,
                position: Point { x: 32_000_000, y: 16_000_000 },
                hitbox: HitBox { half_width: 16_000_000, half_height: 16_000_000 },
                sprite: Sprite {
                    animation: Animation::Apple,
                    atlas: animations@[Animation::Apple].0,
                    clip: animations@[Animation::Apple].1,
                    index: 0,
                    timer: FrameTime(0),
                    flip_x: false,
                },
            },
        ],
{
    let mut solids: Vec<Solid> = Vec::new();
    solids.push(
        Solid {
            position: Point { x: 0, y: -16_000_000 },
            hitbox: HitBox { half_width: 100_000_000, half_height: 8_000_000 },
        },
    );
    solids.push(
        Solid {
            position: Point { x: 100_000_000, y: 25_000_000 },
            hitbox: HitBox { half_width: 16_000_000, half_height: 16_000_000 },
        },
    );
    assert(solids@ =~= map_solids());
    let mut collectibles: Vec<Collectible> = Vec::new();
    if let Some((atlas, clip)) = animations.get(Animation::Apple) {
        let apple = Collectible {
            entity: 0,
            position: Point { x: 32_000_000, y: 16_000_000 },
            hitbox: HitBox { half_width: 16_000_000, half_height: 16_000_000 },
            sprite: Sprite::new(Animation::Apple, atlas, clip),
        };
        collectibles.push(apple);
        assert(collectibles@ =~= seq![apple]);
    }
    (solids, collectibles)
}

/// Some collectible of `origin` has the entity number, the place and the
/// box of `c`.
pub open spec fn stood_in(origin: Seq<Collectible>, c: Collectible) -> bool {
    exists|k: int|
        0 <= k < origin.len() && (#[trigger] origin[k]).entity == c.entity && origin[k].position
            == c.position && origin[k].hitbox == c.hitbox
}

/// A collectible that is there after a tick was there before it, in the same
/// place, and the player does not touch it. So what the player touches is gone
/// within the tick.
pub proof fn lemma_touched_is_collected(
    collectibles: Seq<Collectible>,
    elapsed: int,
    hitbox: HitBox,
    at: Point,
)
    ensures
        forall|i: int|
            0 <= i < collected(collectibles, elapsed, hitbox, at).len() ==> {
                let c = #[trigger] collected(collectibles, elapsed, hitbox, at)[i];
                stood_in(collectibles, c) && !overlaps(hitbox, at, c.hitbox, c.position)
            },
{
    let shown = collectibles.map_values(animated(elapsed));
    let left = collected(collectibles, elapsed, hitbox, at);
    lemma_pickup_keeps_only_untouched(shown, hitbox, at);
    assert forall|i: int| 0 <= i < left.len() implies {
        let c = #[trigger] left[i];
        stood_in(collectibles, c) && !overlaps(hitbox, at, c.hitbox, c.position)
    } by {
        let c = left[i];
        let k = choose|k: int| 0 <= k < shown.len() && shown[k] == c;
        assert(shown[k] == animated(elapsed)(collectibles[k]));
        assert(collectibles[k].entity == c.entity);
    }
}

/// What is there after two ticks was there from the start, in the same place
/// and under the same entity number, and the player touched it in neither
/// tick. So what a tick collects is absent from the ticks that follow.
pub proof fn lemma_collected_stays_gone(
    collectibles: Seq<Collectible>,
    first_elapsed: int,
    first_at: Point,
    second_elapsed: int,
    second_at: Point,
    hitbox: HitBox,
)
    ensures
        forall|i: int|
            0 <= i < collected(
                collected(collectibles, first_elapsed, hitbox, first_at),
                second_elapsed,
                hitbox,
                second_at,
            ).len() ==> {
                let c = #[trigger] collected(
                    collected(collectibles, first_elapsed, hitbox, first_at),
                    second_elapsed,
                    hitbox,
                    second_at,
                )[i];
                &&& stood_in(collectibles, c)
                &&& !overlaps(hitbox, first_at, c.hitbox, c.position)
                &&& !overlaps(hitbox, second_at, c.hitbox, c.position)
            },
{
    let once = collected(collectibles, first_elapsed, hitbox, first_at);
    let twice = collected(once, second_elapsed, hitbox, second_at);
    lemma_touched_is_collected(collectibles, first_elapsed, hitbox, first_at);
    lemma_touched_is_collected(once, second_elapsed, hitbox, second_at);
    assert forall|i: int| 0 <= i < twice.len() implies {
        let c = #[trigger] twice[i];
        &&& stood_in(collectibles, c)
        &&& !overlaps(hitbox, first_at, c.hitbox, c.position)
        &&& !overlaps(hitbox, second_at, c.hitbox, c.position)
    } by {
        let c = twice[i];
        let j = choose|j: int|
            0 <= j < once.len() && (#[trigger] once[j]).entity == c.entity && once[j].position
                == c.position && once[j].hitbox == c.hitbox;
        let b = once[j];
        let k = choose|k: int|
            0 <= k < collectibles.len() && (#[trigger] collectibles[k]).entity == b.entity
                && collectibles[k].position == b.position && collectibles[k].hitbox == b.hitbox;
        assert(collectibles[k].entity == c.entity);
    }
}

/// The entity number of every collectible that the player touches where it
/// ends up is among those the tick hands out for destruction.
pub proof fn lemma_touched_is_reported(
    collectibles: Seq<Collectible>,
    elapsed: int,
    hitbox: HitBox,
    at: Point,
    k: int,
)
    requires
        0 <= k < collectibles.len(),
        overlaps(hitbox, at, collectibles[k].hitbox, collectibles[k].position),
    ensures
        picked_up(collectibles, elapsed, hitbox, at).contains(collectibles[k].entity),
{
    let shown = collectibles.map_values(animated(elapsed));
    let taken = shown.filter(touched(hitbox, at));
    assert(touched(hitbox, at)(shown[k]));
    shown.lemma_filter_contains(touched(hitbox, at), k);
    let j = choose|j: int| 0 <= j < taken.len() && taken[j] == shown[k];
    assert(picked_up(collectibles, elapsed, hitbox, at)[j] == collectibles[k].entity);
}

} // verus!
