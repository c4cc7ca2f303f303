//! The animation catalog: for each animation, the sheet its frames come from
//! and how its clip plays. It is filled once and only read afterwards.

use crate::animation::{Animation, AtlasHandle, SpriteAnimation};
use vstd::prelude::*;

verus! {

/// The hash map that stores the catalog, keyed by animation code. An entry is
/// the sheet's number, the clip's frame count and its frame time.
#[verifier::external_body]
pub struct ClipTable {
    map: bevy_utils::HashMap<u8, (u32, usize, u64)>,
}

/// What a `ClipTable` holds.
pub uninterp spec fn clip_table_entries(table: ClipTable) -> Map<u8, (u32, usize, u64)>;

/// `bevy_utils::HashMap::new` (hashbrown's `HashMap::new`): a map that holds
/// nothing.
#[verifier::external_body]
fn table_new() -> (table: ClipTable)
    ensures
        clip_table_entries(table) =~= Map::empty(),
{
    ClipTable { map: bevy_utils::HashMap::new() }
}

/// hashbrown's `HashMap::insert`: afterwards the key maps to the new value,
/// whether or not it was present, and every other key is as before.
#[verifier::external_body]
fn table_insert(table: &mut ClipTable, key: u8, value: (u32, usize, u64))
    ensures
        clip_table_entries(*final(table)) == clip_table_entries(*old(table)).insert(key, value),
{
    table.map.insert(key, value);
}

/// hashbrown's `HashMap::get`: the value stored under the key, or nothing
/// where the map has no such key.
#[verifier::external_body]
fn table_get(table: &ClipTable, key: u8) -> (value: Option<(u32, usize, u64)>)
    ensures
        value == (if clip_table_entries(*table).contains_key(key) {
            Some(clip_table_entries(*table)[key])
        } else {
            None
        }),
{
    table.map.get(&key).copied()
}

/// The catalog of animations.
pub struct Animations {
    table: ClipTable,
}

/// One catalog entry as the catalog's users see it.
pub open spec fn entry_of(raw: (u32, usize, u64)) -> (AtlasHandle, SpriteAnimation) {
    (AtlasHandle(raw.0), SpriteAnimation { len: raw.1, frame_time: raw.2 })
}

impl View for Animations {
    type V = Map<Animation, (AtlasHandle, SpriteAnimation)>;

    /// The catalog as a map from animations to their sheet and clip.
    closed spec fn view(&self) -> Map<Animation, (AtlasHandle, SpriteAnimation)> {
        Map::new(
            |id: Animation| clip_table_entries(self.table).contains_key(id.spec_code()),
            |id: Animation| entry_of(clip_table_entries(self.table)[id.spec_code()]),
        )
    }
}

impl Animations {
    /// Every clip in the catalog can be played.
    pub open spec fn wf(&self) -> bool {
        forall|id: Animation| #[trigger] self@.contains_key(id) ==> self@[id].1.wf()
    }

    /// What the catalog holds for `id`, if anything.
    pub open spec fn entry(&self, id: Animation) -> Option<(AtlasHandle, SpriteAnimation)> {
        if self@.contains_key(id) {
            Some(self@[id])
        } else {
            None
        }
    }

    /// A catalog without entries.
    pub fn new() -> (catalog: Animations)
        ensures
            catalog@ == Map::<Animation, (AtlasHandle, SpriteAnimation)>::empty(),
            catalog.wf(),
    {
        let catalog = Animations { table: table_new() };
        assert(catalog@ =~= Map::<Animation, (AtlasHandle, SpriteAnimation)>::empty());
        catalog
    }

    /// Records the sheet and clip of `id`, in place of what was recorded
    /// for it before.
    pub fn add(&mut self, id: Animation, handle: AtlasHandle, animation: SpriteAnimation)
        requires
            old(self).wf(),
            animation.wf(),
        ensures
            final(self)@ == old(self)@.insert(id, (handle, animation)),
            final(self).wf(),
    {
        table_insert(&mut self.table, id.code(), (handle.0, animation.len, animation.frame_time));
        assert(self@ =~= old(self)@.insert(id, (handle, animation)));
    }

    /// Looks up the sheet and clip of `id`.
    pub fn get(&self, id: Animation) -> (found: Option<(AtlasHandle, SpriteAnimation)>)
        ensures
            found == self.entry(id),
    {
        match table_get(&self.table, id.code()) {
            Some(raw) => Some(
                (AtlasHandle(raw.0), SpriteAnimation { len: raw.1, frame_time: raw.2 }),
            ),
            None => None,
        }
    }

    /// The catalog of the game, built from the sheets of its five clips: the
    /// idle has 11 frames, the run 12 and the apple 17, each shown for a
    /// twentieth of a second; the jump and the fall are single frames.
    pub fn standard(
        idle: AtlasHandle,
        run: AtlasHandle,
        jump: AtlasHandle,
        fall: AtlasHandle,
        apple: AtlasHandle,
    ) -> (catalog: Animations)
        ensures
            catalog.wf(),
            catalog@ == standard_entries(idle, run, jump, fall, apple),
    {
        let mut catalog = Animations::new();
        catalog.add(Animation::PlayerIdle, idle, SpriteAnimation { len: 11, frame_time: 50_000 });
        catalog.add(Animation::PlayerRun, run, SpriteAnimation { len: 12, frame_time: 50_000 });
        catalog.add(Animation::PlayerJump, jump, SpriteAnimation { len: 1, frame_time: 1_000_000 });
        catalog.add(Animation::PlayerFall, fall, SpriteAnimation { len: 1, frame_time: 1_000_000 });
        catalog.add(Animation::Apple, apple, SpriteAnimation { len: 17, frame_time: 50_000 });
        catalog
    }
}

/// The entries of the game's catalog.
pub open spec fn standard_entries(
    idle: AtlasHandle,
    run: AtlasHandle,
    jump: AtlasHandle,
    fall: AtlasHandle,
    apple: AtlasHandle,
) -> Map<Animation, (AtlasHandle, SpriteAnimation)> {
    Map::<Animation, (AtlasHandle, SpriteAnimation)>::empty().insert(
        Animation::PlayerIdle,
        (idle, SpriteAnimation { len: 11, frame_time: 50_000 }),
    ).insert(Animation::PlayerRun, (run, SpriteAnimation { len: 12, frame_time: 50_000 })).insert(
        Animation::PlayerJump,
        (jump, SpriteAnimation { len: 1, frame_time: 1_000_000 }),
    ).insert(Animation::PlayerFall, (fall, SpriteAnimation { len: 1, frame_time: 1_000_000 })).insert(
        Animation::Apple,
        (apple, SpriteAnimation { len: 17, frame_time: 50_000 }),
    )
}

} // verus!
