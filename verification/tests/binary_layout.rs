//! Byte-exact checks of the binary projections against hand-computed
//! expectations of the container format.

use spore_warriors_resource::actions::{Action, ActionPool};
use spore_warriors_resource::cards::CardPool;
use spore_warriors_resource::codec::Encode;
use spore_warriors_resource::enemies::EnemyPool;
use spore_warriors_resource::items::ItemPool;
use spore_warriors_resource::loots::{Loot, LootPool, Package};
use spore_warriors_resource::scenes::{LevelNode, NodeInstance, ScenePool};
use spore_warriors_resource::systems::SystemPool;
use spore_warriors_resource::types::{encode_duration_opt, Duration, GridSize, LifePoint, Random, Value};
use spore_warriors_resource::warriors::WarriorPool;
use spore_warriors_resource::generate_resource_binary;

fn le32(n: u32) -> Vec<u8> {
    n.to_le_bytes().to_vec()
}

fn empty_pools() -> (
    ActionPool,
    CardPool,
    SystemPool,
    EnemyPool,
    LootPool,
    ScenePool,
    WarriorPool,
    ItemPool,
) {
    (
        ActionPool { action_pool: vec![] },
        CardPool { card_pool: vec![] },
        SystemPool { system_pool: vec![] },
        EnemyPool { enemy_pool: vec![] },
        LootPool { loot_pool: vec![] },
        ScenePool { scene_pool: vec![] },
        WarriorPool { warrior_pool: vec![] },
        ItemPool { item_pool: vec![] },
    )
}

#[test]
fn action_record_layout() {
    let action = Action { id: 1, random: true, effect_pool: vec![10, 11] };
    let bytes = action.encode().unwrap();
    let mut expected = Vec::new();
    expected.extend(le32(27)); // full size: 16 header + 2 + 1 + 8
    expected.extend(le32(16)); // offset of id
    expected.extend(le32(18)); // offset of random
    expected.extend(le32(19)); // offset of effect_pool
    expected.extend([1, 0]); // id = 1, little endian
    expected.extend([1]); // random: true -> 1
    expected.extend(le32(2)); // effect_pool item count
    expected.extend([10, 0, 11, 0]); // items 10, 11 in input order
    assert_eq!(bytes, expected);
    // The header numbers read back with the codec runtime's own reader.
    assert_eq!(molecule::unpack_number(&bytes[0..4]), 27);
    assert_eq!(molecule::unpack_number(&bytes[4..8]), 16);
}

#[test]
fn effect_pool_order_is_preserved() {
    let action = Action { id: 9, random: false, effect_pool: vec![3, 1, 2] };
    let bytes = action.encode().unwrap();
    // The vector's items stand after its 4-byte count, in input order.
    let pool_off = molecule::unpack_number(&bytes[12..16]) as usize;
    assert_eq!(&bytes[pool_off..pool_off + 4], le32(3).as_slice());
    assert_eq!(&bytes[pool_off + 4..pool_off + 10], &[3, 0, 1, 0, 2, 0]);
}

#[test]
fn value_union_tags_are_stable() {
    let number = Value::Number(5);
    assert_eq!(number.encode().unwrap(), vec![0, 0, 0, 0, 5, 0]);
    let range = Value::Random(Random { min: 1, max: 2 });
    assert_eq!(range.encode().unwrap(), vec![1, 0, 0, 0, 1, 0, 2, 0]);
    // The same variant encodes to the same tag on a second compile.
    assert_eq!(number.encode().unwrap(), number.encode().unwrap());
}

#[test]
fn duration_union_tags_are_stable() {
    assert_eq!(encode_duration_opt(&None), Vec::<u8>::new());
    assert_eq!(encode_duration_opt(&Some(Duration::Number(3))), vec![0, 0, 0, 0, 3, 0]);
    let lp = Duration::LifePoint(LifePoint {
        listening_system_id: 9,
        point: 300,
        round_recover: false,
    });
    assert_eq!(encode_duration_opt(&Some(lp)), vec![1, 0, 0, 0, 9, 0, 44, 1, 0]);
    assert_eq!(encode_duration_opt(&Some(lp)), encode_duration_opt(&Some(lp)));
}

#[test]
fn payload_free_node_tags() {
    assert_eq!(NodeInstance::Barrier.encode().unwrap(), vec![7, 0, 0, 0]);
    assert_eq!(NodeInstance::StartingPoint.encode().unwrap(), vec![8, 0, 0, 0]);
    assert_eq!(NodeInstance::TargetingPoint.encode().unwrap(), vec![9, 0, 0, 0]);
    assert_eq!(NodeInstance::RecoverPoint(3).encode().unwrap(), vec![2, 0, 0, 0, 3]);
}

#[test]
fn barrier_level_node_layout() {
    let node = LevelNode {
        visible: false,
        size: GridSize { x: 0, y: 0 },
        instance: NodeInstance::Barrier,
    };
    let bytes = node.encode().unwrap();
    let mut expected = Vec::new();
    expected.extend(le32(23)); // full size: 16 header + 1 + 2 + 4
    expected.extend(le32(16)); // offset of visible
    expected.extend(le32(17)); // offset of size
    expected.extend(le32(19)); // offset of instance
    expected.extend([0]); // visible: false -> 0
    expected.extend([0, 0]); // default size {0, 0}
    expected.extend(le32(7)); // Barrier tag, zero-length payload
    assert_eq!(bytes, expected);
}

#[test]
fn loot_optional_packages() {
    let card_pool = Package { size: 1, item_pool: vec![7] };
    let absent = Loot {
        id: 1,
        gold: Random { min: 0, max: 0 },
        score: Random { min: 0, max: 0 },
        card_pool: Package { size: 1, item_pool: vec![7] },
        props_pool: None,
        equipment_pool: None,
    };
    let bytes = absent.encode().unwrap();
    // Table of 6 fields: 28-byte header, id 2, gold 4, score 4, card 19.
    assert_eq!(bytes.len(), 57);
    // Both empty optionals sit at the end with zero length.
    assert_eq!(molecule::unpack_number(&bytes[20..24]), 57);
    assert_eq!(molecule::unpack_number(&bytes[24..28]), 57);
    let present = Loot { props_pool: Some(card_pool), ..absent };
    let with_props = present.encode().unwrap();
    // The present optional wraps exactly the package's own encoding.
    let pkg = Package { size: 1, item_pool: vec![7] }.encode().unwrap();
    assert_eq!(with_props.len(), 57 + pkg.len());
    assert_eq!(&with_props[57..], pkg.as_slice());
}

#[test]
fn empty_bundle_layout() {
    let (a, c, s, e, l, sc, w, i) = empty_pools();
    let bytes = generate_resource_binary(a, c, s, e, l, sc, w, i).unwrap();
    let mut expected = Vec::new();
    expected.extend(le32(68)); // full size: 36 header + 8 empty vectors
    for k in 0..8u32 {
        expected.extend(le32(36 + 4 * k)); // pool offsets in fixed order
    }
    for _ in 0..8 {
        expected.extend(le32(4)); // each empty pool: a zero-item vector
    }
    assert_eq!(bytes, expected);
}

#[test]
fn compile_is_deterministic() {
    let (a, c, s, e, l, sc, w, i) = empty_pools();
    let first = generate_resource_binary(a, c, s, e, l, sc, w, i).unwrap();
    let (a, c, s, e, l, sc, w, i) = empty_pools();
    let second = generate_resource_binary(a, c, s, e, l, sc, w, i).unwrap();
    assert_eq!(first, second);
}
