//! The registry of loaded levels, addressed by name.

use vstd::prelude::*;

use bevy::utils::HashMap;

use crate::controls::interact_controls;
use crate::level::asset::Level;
use crate::level::change::{spec_spawned, ChangeLevel, UnknownLevelReference};
use crate::level::interactables::{interact, Effect, Interactable};
use crate::level::CurrentLevel;
use crate::movement::{Actor, GridPosition};

verus! {

/// The loaded levels by their names: a `bevy::utils::HashMap`, which is the
/// `HashMap` of `hashbrown` with a hasher of `ahash`. The verifier does not
/// look inside; what the map holds is `loaded_levels`.
#[verifier::external_body]
#[derive(Debug, PartialEq, Eq)]
pub struct LevelAssets {
    levels: HashMap<String, Level>,
}

/// What the map inside a `LevelAssets` holds: the level of each registered
/// name, by the characters of the name.
pub uninterp spec fn loaded_levels(assets: LevelAssets) -> Map<Seq<char>, Level>;

/// `hashbrown::HashMap::default`: the map that it makes holds no key.
#[verifier::external_body]
fn levels_empty() -> (r: LevelAssets)
    ensures
        forall|name: Seq<char>| !loaded_levels(r).dom().contains(name),
{
    LevelAssets { levels: HashMap::default() }
}

/// `hashbrown::HashMap::insert`: afterwards the name maps to the new level
/// and every other name is as before; the level that the name had, if it had
/// one, is handed back. Names are equal where their characters are.
#[verifier::external_body]
fn levels_insert(assets: &mut LevelAssets, name: String, level: Level) -> (r: Option<Level>)
    ensures
        loaded_levels(*final(assets)) == loaded_levels(*old(assets)).insert(name@, level),
        r == (if loaded_levels(*old(assets)).dom().contains(name@) {
            Some(loaded_levels(*old(assets))[name@])
        } else {
            None
        }),
{
    assets.levels.insert(name, level)
}

/// `hashbrown::HashMap::get`, with the name as a `str`: the level of the
/// name, or `None` where the map has no such name.
#[verifier::external_body]
fn levels_get<'a>(assets: &'a LevelAssets, name: &str) -> (r: Option<&'a Level>)
    ensures
        r == (if loaded_levels(*assets).dom().contains(name@) {
            Some(&loaded_levels(*assets)[name@])
        } else {
            None
        }),
{
    assets.levels.get(name)
}

impl View for LevelAssets {
    type V = Map<Seq<char>, Level>;

    /// The level of each registered name.
    open spec fn view(&self) -> Map<Seq<char>, Level> {
        loaded_levels(*self)
    }
}

/// The names of `entries` with a well-formed level, each with its level; of
/// two entries of one name the later one counts.
pub open spec fn well_formed<E>(entries: Seq<(String, Result<Level, E>)>) -> Map<Seq<char>, Level>
    decreases entries.len(),
{
    if entries.len() == 0 {
        Map::empty()
    } else {
        let earlier = well_formed(entries.drop_last());
        match entries.last().1 {
            Ok(level) => earlier.insert(entries.last().0@, level),
            Err(_) => earlier,
        }
    }
}

/// The entries of `entries` without a well-formed level, each name with its
/// error, in the order of `entries`.
pub open spec fn malformed<E>(entries: Seq<(String, Result<Level, E>)>) -> Seq<(String, E)>
    decreases entries.len(),
{
    if entries.len() == 0 {
        Seq::empty()
    } else {
        let earlier = malformed(entries.drop_last());
        match entries.last().1 {
            Ok(_) => earlier,
            Err(error) => earlier.push((entries.last().0, error)),
        }
    }
}

/// A malformed asset keeps no well-formed one from loading: whatever else
/// `entries` holds, the name of each well-formed entry is registered, and it
/// is registered with the level of that entry unless a later well-formed
/// entry has the same name.
pub proof fn lemma_well_formed_levels_load<E>(entries: Seq<(String, Result<Level, E>)>, i: int)
    requires
        0 <= i < entries.len(),
        entries[i].1 is Ok,
    ensures
        well_formed(entries).dom().contains(entries[i].0@),
        (forall|j: int| i < j < entries.len() && entries[j].1 is Ok ==> entries[j].0@ != entries[i].0@)
            ==> well_formed(entries)[entries[i].0@] == entries[i].1->Ok_0,
    decreases entries.len(),
{
    let earlier = entries.drop_last();
    if i < entries.len() - 1 {
        assert(earlier[i] == entries[i]);
        lemma_well_formed_levels_load(earlier, i);
        if forall|j: int| i < j < entries.len() && entries[j].1 is Ok ==> entries[j].0@ != entries[i].0@ {
            assert forall|j: int| i < j < earlier.len() && earlier[j].1 is Ok implies earlier[j].0@
                != earlier[i].0@ by {
                assert(earlier[j] == entries[j]);
            }
        }
    }
}

/// Nothing is registered but well-formed levels: each registered name is the
/// name of a well-formed entry and has the level of one.
pub proof fn lemma_only_well_formed_levels_load<E>(
    entries: Seq<(String, Result<Level, E>)>,
    name: Seq<char>,
)
    requires
        well_formed(entries).dom().contains(name),
    ensures
        exists|i: int|
            0 <= i < entries.len() && #[trigger] entries[i].0@ == name && entries[i].1 == Ok::<
                Level,
                E,
            >(well_formed(entries)[name]),
    decreases entries.len(),
{
    if entries.len() > 0 {
        let earlier = entries.drop_last();
        let last = entries.len() - 1;
        if entries[last].1 is Ok && entries[last].0@ == name {
            assert(entries[last].0@ == name);
        } else {
            lemma_only_well_formed_levels_load(earlier, name);
            let i = choose|i: int|
                0 <= i < earlier.len() && #[trigger] earlier[i].0@ == name && earlier[i].1 == Ok::<
                    Level,
                    E,
                >(well_formed(earlier)[name]);
            assert(entries[i] == earlier[i]);
            assert(entries[i].0@ == name);
        }
    }
}

/// Among well-authored levels a swap that names no position places the
/// player on floor: at the start position of the level that is entered.
pub proof fn lemma_start_is_on_floor(level_assets: &LevelAssets, request: ChangeLevel)
    requires
        level_assets.well_authored(),
        level_assets@.dom().contains(request.level@),
        request.position is None,
    ensures
        spec_spawned(&level_assets@[request.level@], &request).on_floor(
            &level_assets@[request.level@],
        ),
{
    assert(level_assets@[request.level@].well_authored());
}

/// Among well-authored levels every swap that an interaction asks for can be
/// carried out and places the player on floor: the request of an actor that
/// interacts in a registered level names a registered level, and the player
/// as the swap places it stands on floor of that level.
pub proof fn lemma_teleporters_lead_onto_floor(
    level_assets: &LevelAssets,
    name: Seq<char>,
    actor: &Actor,
    request: ChangeLevel,
)
    requires
        level_assets.well_authored(),
        level_assets@.dom().contains(name),
        interact_controls(&level_assets@[name], actor) is Some,
        interact(&interact_controls(&level_assets@[name], actor).unwrap(), actor).1 == Some(
            Effect::ChangeLevel(request),
        ),
    ensures
        level_assets@.dom().contains(request.level@),
        spec_spawned(&level_assets@[request.level@], &request).on_floor(
            &level_assets@[request.level@],
        ),
{
    let level = level_assets@[name];
    let faced = actor.grid_position.next(&actor.direction).unwrap();
    assert(level.interactables@.dom().contains(faced));
}

impl LevelAssets {
    /// Whether the levels are authored as they should be: each one is well
    /// authored in itself, and each teleporter that leads to another level
    /// names a registered level and a cell that is floor there.
    pub open spec fn well_authored(&self) -> bool {
        forall|name: Seq<char>| #[trigger]
            self@.dom().contains(name) ==> {
                &&& self@[name].well_authored()
                &&& forall|position: GridPosition| #[trigger]
                    self@[name].interactables@.dom().contains(position) ==> (
                    self@[name].interactables@[position] matches Interactable::Teleporter(
                        teleporter,
                    ) ==> teleporter.level matches Some(entered) ==> self@.dom().contains(entered@)
                        && self@[entered@].is_passable(&teleporter.grid_position))
            }
    }

    /// A registry without levels.
    pub fn new() -> (r: LevelAssets)
        ensures
            r@ == Map::<Seq<char>, Level>::empty(),
    {
        let r = levels_empty();
        assert(r@ =~= Map::<Seq<char>, Level>::empty());
        r
    }

    /// Registers `level` under `name` and returns the level that was
    /// registered under it before, if there was one. No other name changes.
    pub fn insert(&mut self, name: String, level: Level) -> (r: Option<Level>)
        ensures
            final(self)@ == old(self)@.insert(name@, level),
            r == (if old(self)@.dom().contains(name@) {
                Some(old(self)@[name@])
            } else {
                None
            }),
    {
        levels_insert(self, name, level)
    }

    /// The level registered under `name`.
    pub fn get(&self, name: &str) -> (r: Option<&Level>)
        ensures
            r == (if self@.dom().contains(name@) {
                Some(&self@[name@])
            } else {
                None
            }),
    {
        levels_get(self, name)
    }

    /// The level registered under `name`, or the error that names `name`
    /// where none is.
    pub fn level(&self, name: &String) -> (r: Result<&Level, UnknownLevelReference>)
        ensures
            r == (if self@.dom().contains(name@) {
                Ok::<&Level, UnknownLevelReference>(&self@[name@])
            } else {
                Err(UnknownLevelReference { level: *name })
            }),
    {
        match levels_get(self, name.as_str()) {
            Some(level) => Ok(level),
            None => Err(UnknownLevelReference { level: name.clone() }),
        }
    }

    /// The active level: the level registered under the name that
    /// `current_level` holds. `None` where it holds none, or one that is not
    /// registered.
    pub fn current(&self, current_level: &CurrentLevel) -> (r: Option<&Level>)
        ensures
            r == (match current_level.0 {
                Some(name) if self@.dom().contains(name@) => Some(&self@[name@]),
                _ => None,
            }),
    {
        match &current_level.0 {
            Some(name) => levels_get(self, name.as_str()),
            None => None,
        }
    }

    /// Registers what the decoding of the level assets has given: each
    /// well-formed level under its name, in the order of `entries`. A
    /// malformed asset registers nothing and keeps no other from being
    /// registered; it is handed back with its name and its error.
    pub fn load<E>(entries: Vec<(String, Result<Level, E>)>) -> (r: (LevelAssets, Vec<(String, E)>))
        ensures
            r.0@ == well_formed(entries@),
            r.1@ == malformed(entries@),
    {
        let mut assets = LevelAssets::new();
        let mut failed: Vec<(String, E)> = Vec::new();
        let ghost all = entries@;
        for entry in iter: entries.into_iter()
            invariant
                iter.seq() == all,
                assets@ == well_formed(all.take(iter.index() as int)),
                failed@ == malformed(all.take(iter.index() as int)),
        {
            proof {
                let done = all.take(iter.index() + 1);
                assert(done.drop_last() =~= all.take(iter.index() as int));
                assert(done.last() == entry);
            }
            let (name, decoded) = entry;
            match decoded {
                Ok(level) => {
                    levels_insert(&mut assets, name, level);
                },
                Err(error) => {
                    failed.push((name, error));
                },
            }
        }
        proof {
            assert(all.take(all.len() as int) =~= all);
        }
        (assets, failed)
    }
}

} // verus!
