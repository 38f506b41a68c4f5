//! Compiler from typed game-resource records to one canonical binary bundle.
//!
//! The library models eight kinds of game resources (actions, cards, systems,
//! enemies, items, loots, map scenes, warriors), decodes them from JSON
//! documents of a known shape, and projects them into a single byte-exact
//! binary container laid out in the molecule serialization format: fixed-width
//! little-endian integer cells, length-prefixed vectors, offset-headed tables,
//! tagged unions and empty-or-present optionals. The byte layout is part of
//! the wire contract with the consuming runtime, so every projection function
//! carries a contract pinning its output to a specification of that layout.

use vstd::prelude::*;

pub mod actions;
pub mod cards;
pub mod codec;
pub mod enemies;
pub mod items;
pub mod json;
pub mod loots;
pub mod scenes;
pub mod systems;
pub mod types;
pub mod warriors;

use crate::actions::{action_pool_of_text, action_vec_bytes, ActionPool, ActionV};
use crate::cards::{card_pool_of_text, card_vec_bytes, CardPool, CardV};
use crate::codec::{
    build_dynvec, byte_seqs, cell_max, lemma_dynvec_ge_part, table_bytes, views, EncodeError,
};
use crate::enemies::{enemy_pool_of_text, enemy_vec_bytes, EnemyPool, EnemyV};
use crate::items::{item_pool_of_text, item_vec_bytes, ItemPool, ItemV};
use crate::loots::{loot_pool_of_text, loot_vec_bytes, LootPool, LootV};
use crate::scenes::{scene_pool_of_text, scene_vec_bytes, ScenePool, SceneV};
use crate::systems::{system_pool_of_text, system_vec_bytes, SystemPool, SystemV};
use crate::warriors::{warrior_pool_of_text, warrior_vec_bytes, WarriorPool, WarriorV};

verus! {

/// The eight pool vectors of one bundle, in the fixed field order of the
/// wire contract: action, card, system, enemy, loot, scene, warrior, item.
pub open spec fn bundle_fields(
    actions: Seq<ActionV>,
    cards: Seq<CardV>,
    systems: Seq<SystemV>,
    enemies: Seq<EnemyV>,
    loots: Seq<LootV>,
    scenes: Seq<SceneV>,
    warriors: Seq<WarriorV>,
    items: Seq<ItemV>,
) -> Seq<Seq<u8>> {
    seq![
        action_vec_bytes(actions),
        card_vec_bytes(cards),
        system_vec_bytes(systems),
        enemy_vec_bytes(enemies),
        loot_vec_bytes(loots),
        scene_vec_bytes(scenes),
        warrior_vec_bytes(warriors),
        item_vec_bytes(items),
    ]
}

/// The whole resource bundle as one table holding the eight pool vectors.
pub open spec fn resource_pool_bytes(
    actions: Seq<ActionV>,
    cards: Seq<CardV>,
    systems: Seq<SystemV>,
    enemies: Seq<EnemyV>,
    loots: Seq<LootV>,
    scenes: Seq<SceneV>,
    warriors: Seq<WarriorV>,
    items: Seq<ItemV>,
) -> Seq<u8> {
    table_bytes(bundle_fields(actions, cards, systems, enemies, loots, scenes, warriors, items))
}

/// Round trip at the bundle level: a reader holding only the bundle bytes
/// recovers each pool's vector exactly — pool `i` runs from the `i`-th
/// offset cell to the next one, or to the full size after the last. With
/// the pool, record and cell round-trip lemmas this carries the inversion
/// down through every container level of the bundle.
#[verifier::rlimit(100)]
#[verifier::spinoff_prover]
pub proof fn lemma_bundle_round_trip(
    actions: Seq<ActionV>,
    cards: Seq<CardV>,
    systems: Seq<SystemV>,
    enemies: Seq<EnemyV>,
    loots: Seq<LootV>,
    scenes: Seq<SceneV>,
    warriors: Seq<WarriorV>,
    items: Seq<ItemV>,
    i: int,
)
    requires
        0 <= i < 8,
        resource_pool_bytes(actions, cards, systems, enemies, loots, scenes, warriors, items).len()
            <= cell_max(),
    ensures
        ({
            let parts = bundle_fields(
                actions,
                cards,
                systems,
                enemies,
                loots,
                scenes,
                warriors,
                items,
            );
            let s = resource_pool_bytes(
                actions,
                cards,
                systems,
                enemies,
                loots,
                scenes,
                warriors,
                items,
            );
            let lo = crate::codec::read_u32_at(s, 4 + 4 * i);
            let hi = if i < 7 {
                crate::codec::read_u32_at(s, 8 + 4 * i)
            } else {
                crate::codec::read_u32_at(s, 0)
            };
            s.subrange(lo, hi) == parts[i]
        }),
{
    let parts = bundle_fields(actions, cards, systems, enemies, loots, scenes, warriors, items);
    crate::codec::lemma_dynvec_len(parts);
    crate::codec::lemma_dynvec_round_trip(parts, i);
}

/// Compile the eight typed pools into the final binary bundle. The output is
/// a pure function of the pools' values: compiling the same pools always
/// yields byte-identical output. Fails exactly when the bundle would outgrow
/// the 32-bit size cells of the container format.
#[verifier::rlimit(60)]
pub fn generate_resource_binary(
    action_pool: ActionPool,
    card_pool: CardPool,
    system_pool: SystemPool,
    enemy_pool: EnemyPool,
    loot_pool: LootPool,
    scene_pool: ScenePool,
    warrior_pool: WarriorPool,
    item_pool: ItemPool,
) -> (r: Result<Vec<u8>, EncodeError>)
    ensures
        (match r {
            Ok(b) => b@ == resource_pool_bytes(
                views(action_pool.action_pool@),
                views(card_pool.card_pool@),
                views(system_pool.system_pool@),
                views(enemy_pool.enemy_pool@),
                views(loot_pool.loot_pool@),
                views(scene_pool.scene_pool@),
                views(warrior_pool.warrior_pool@),
                views(item_pool.item_pool@),
            ) && b@.len() <= cell_max(),
            Err(_) => resource_pool_bytes(
                views(action_pool.action_pool@),
                views(card_pool.card_pool@),
                views(system_pool.system_pool@),
                views(enemy_pool.enemy_pool@),
                views(loot_pool.loot_pool@),
                views(scene_pool.scene_pool@),
                views(warrior_pool.warrior_pool@),
                views(item_pool.item_pool@),
            ).len() > cell_max(),
        }),
{
    let ghost goal = bundle_fields(
        views(action_pool.action_pool@),
        views(card_pool.card_pool@),
        views(system_pool.system_pool@),
        views(enemy_pool.enemy_pool@),
        views(loot_pool.loot_pool@),
        views(scene_pool.scene_pool@),
        views(warrior_pool.warrior_pool@),
        views(item_pool.item_pool@),
    );
    let actions = match action_pool.encode() {
        Ok(b) => b,
        Err(e) => {
            proof {
                lemma_dynvec_ge_part(goal, 0);
            }
            return Err(e);
        },
    };
    let cards = match card_pool.encode() {
        Ok(b) => b,
        Err(e) => {
            proof {
                lemma_dynvec_ge_part(goal, 1);
            }
            return Err(e);
        },
    };
    let systems = match system_pool.encode() {
        Ok(b) => b,
        Err(e) => {
            proof {
                lemma_dynvec_ge_part(goal, 2);
            }
            return Err(e);
        },
    };
    let enemies = match enemy_pool.encode() {
        Ok(b) => b,
        Err(e) => {
            proof {
                lemma_dynvec_ge_part(goal, 3);
            }
            return Err(e);
        },
    };
    let loots = match loot_pool.encode() {
        Ok(b) => b,
        Err(e) => {
            proof {
                lemma_dynvec_ge_part(goal, 4);
            }
            return Err(e);
        },
    };
    let scenes = match scene_pool.encode() {
        Ok(b) => b,
        Err(e) => {
            proof {
                lemma_dynvec_ge_part(goal, 5);
            }
            return Err(e);
        },
    };
    let warriors = match warrior_pool.encode() {
        Ok(b) => b,
        Err(e) => {
            proof {
                lemma_dynvec_ge_part(goal, 6);
            }
            return Err(e);
        },
    };
    let items = match item_pool.encode() {
        Ok(b) => b,
        Err(e) => {
            proof {
                lemma_dynvec_ge_part(goal, 7);
            }
            return Err(e);
        },
    };
    let mut fields: Vec<Vec<u8>> = Vec::new();
    fields.push(actions);
    fields.push(cards);
    fields.push(systems);
    fields.push(enemies);
    fields.push(loots);
    fields.push(scenes);
    fields.push(warriors);
    fields.push(items);
    proof {
        assert(byte_seqs(fields@) =~= goal);
    }
    build_dynvec(&fields)
}

/// Failure of a whole compile: a document's shape did not match, or the
/// bundle outgrew the 32-bit size cells of the container format. Either way
/// no partial bundle is emitted.
#[derive(Clone, Copy, Debug, PartialEq, Eq, Structural)]
pub enum CompileError {
    ShapeMismatch,
    TooLarge,
}

/// What compiling the eight document texts yields: the bundle bytes when
/// every document decodes, nothing when any fails.
pub open spec fn compiled_of_texts(
    action_text: Seq<char>,
    card_text: Seq<char>,
    system_text: Seq<char>,
    enemy_text: Seq<char>,
    loot_text: Seq<char>,
    scene_text: Seq<char>,
    warrior_text: Seq<char>,
    item_text: Seq<char>,
) -> Option<Seq<u8>> {
    match (
        action_pool_of_text(action_text),
        card_pool_of_text(card_text),
        system_pool_of_text(system_text),
        enemy_pool_of_text(enemy_text),
        loot_pool_of_text(loot_text),
        scene_pool_of_text(scene_text),
        warrior_pool_of_text(warrior_text),
        item_pool_of_text(item_text),
    ) {
        (
            Option::Some(actions),
            Option::Some(cards),
            Option::Some(systems),
            Option::Some(enemies),
            Option::Some(loots),
            Option::Some(scenes),
            Option::Some(warriors),
            Option::Some(items),
        ) => Option::Some(
            resource_pool_bytes(actions, cards, systems, enemies, loots, scenes, warriors, items),
        ),
        _ => Option::None,
    }
}

/// Compile the eight raw document texts into the final binary bundle,
/// decoding each internally. A document that fails structural decode aborts
/// the whole compile: no partial bundle is ever produced.
#[verifier::rlimit(60)]
pub fn compile_from_texts(
    action_text: &str,
    card_text: &str,
    system_text: &str,
    enemy_text: &str,
    loot_text: &str,
    scene_text: &str,
    warrior_text: &str,
    item_text: &str,
) -> (r: Result<Vec<u8>, CompileError>)
    ensures
        (match r {
            Ok(b) => compiled_of_texts(
                action_text@,
                card_text@,
                system_text@,
                enemy_text@,
                loot_text@,
                scene_text@,
                warrior_text@,
                item_text@,
            ) == Some(b@) && b@.len() <= cell_max(),
            Err(CompileError::ShapeMismatch) => compiled_of_texts(
                action_text@,
                card_text@,
                system_text@,
                enemy_text@,
                loot_text@,
                scene_text@,
                warrior_text@,
                item_text@,
            ) is None,
            Err(CompileError::TooLarge) => (match compiled_of_texts(
                action_text@,
                card_text@,
                system_text@,
                enemy_text@,
                loot_text@,
                scene_text@,
                warrior_text@,
                item_text@,
            ) {
                Option::Some(b) => b.len() > cell_max(),
                Option::None => false,
            }),
        }),
{
    let action_pool = match ActionPool::from_text(action_text) {
        Ok(p) => p,
        Err(_) => {
            return Err(CompileError::ShapeMismatch);
        },
    };
    let card_pool = match CardPool::from_text(card_text) {
        Ok(p) => p,
        Err(_) => {
            return Err(CompileError::ShapeMismatch);
        },
    };
    let system_pool = match SystemPool::from_text(system_text) {
        Ok(p) => p,
        Err(_) => {
            return Err(CompileError::ShapeMismatch);
        },
    };
    let enemy_pool = match EnemyPool::from_text(enemy_text) {
        Ok(p) => p,
        Err(_) => {
            return Err(CompileError::ShapeMismatch);
        },
    };
    let loot_pool = match LootPool::from_text(loot_text) {
        Ok(p) => p,
        Err(_) => {
            return Err(CompileError::ShapeMismatch);
        },
    };
    let scene_pool = match ScenePool::from_text(scene_text) {
        Ok(p) => p,
        Err(_) => {
            return Err(CompileError::ShapeMismatch);
        },
    };
    let warrior_pool = match WarriorPool::from_text(warrior_text) {
        Ok(p) => p,
        Err(_) => {
            return Err(CompileError::ShapeMismatch);
        },
    };
    let item_pool = match ItemPool::from_text(item_text) {
        Ok(p) => p,
        Err(_) => {
            return Err(CompileError::ShapeMismatch);
        },
    };
    match generate_resource_binary(
        action_pool,
        card_pool,
        system_pool,
        enemy_pool,
        loot_pool,
        scene_pool,
        warrior_pool,
        item_pool,
    ) {
        Ok(b) => Ok(b),
        Err(_) => Err(CompileError::TooLarge),
    }
}

/// Determinism: the bundle projection is a function of the eight pools'
/// values alone, so any two compiles of the same pools are byte-identical.
pub proof fn lemma_compile_deterministic(
    b1: Seq<u8>,
    b2: Seq<u8>,
    actions: Seq<ActionV>,
    cards: Seq<CardV>,
    systems: Seq<SystemV>,
    enemies: Seq<EnemyV>,
    loots: Seq<LootV>,
    scenes: Seq<SceneV>,
    warriors: Seq<WarriorV>,
    items: Seq<ItemV>,
)
    requires
        b1 == resource_pool_bytes(actions, cards, systems, enemies, loots, scenes, warriors, items),
        b2 == resource_pool_bytes(actions, cards, systems, enemies, loots, scenes, warriors, items),
    ensures
        b1 == b2,
{
}

} // verus!
