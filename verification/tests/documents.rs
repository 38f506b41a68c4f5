//! Decoding of JSON documents: aliases, defaults, optional fields, the
//! closed tag sets, and the whole-bundle compile from raw texts.

use spore_warriors_resource::actions::ActionPool;
use spore_warriors_resource::codec::Encode;
use spore_warriors_resource::compile_from_texts;
use spore_warriors_resource::enemies::EnemyPool;
use spore_warriors_resource::json::{Decode, DecodeError, Json};
use spore_warriors_resource::loots::LootPool;
use spore_warriors_resource::scenes::{NodeInstance, ScenePool};
use spore_warriors_resource::systems::SystemPool;
use spore_warriors_resource::types::{Duration, Value};
use spore_warriors_resource::warriors::WarriorPool;
use spore_warriors_resource::CompileError;

#[test]
fn action_document_round_trip() {
    let pool = ActionPool::from_text(
        r#"{"actions": [{"id": 1, "random": true, "effect_pool": [10, 11]}]}"#,
    )
    .unwrap();
    assert_eq!(pool.action_pool.len(), 1);
    let action = &pool.action_pool[0];
    assert_eq!(action.id, 1);
    assert!(action.random);
    assert_eq!(action.effect_pool, vec![10, 11]);
    // Reading the record's bytes back yields the decoded values unchanged.
    let bytes = action.encode().unwrap();
    let id_off = molecule::unpack_number(&bytes[4..8]) as usize;
    let random_off = molecule::unpack_number(&bytes[8..12]) as usize;
    let pool_off = molecule::unpack_number(&bytes[12..16]) as usize;
    assert_eq!(u16::from_le_bytes([bytes[id_off], bytes[id_off + 1]]), 1);
    assert_eq!(bytes[random_off], 1);
    assert_eq!(molecule::unpack_number(&bytes[pool_off..pool_off + 4]), 2);
    assert_eq!(&bytes[pool_off + 4..pool_off + 8], &[10, 0, 11, 0]);
}

#[test]
fn pool_key_aliases_decode_identically() {
    let by_alias = ActionPool::from_text(
        r#"{"actions": [{"id": 2, "random": false, "effect_pool": []}]}"#,
    )
    .unwrap();
    let by_name = ActionPool::from_text(
        r#"{"action_pool": [{"id": 2, "random": false, "effect_pool": []}]}"#,
    )
    .unwrap();
    assert_eq!(by_alias, by_name);
}

#[test]
fn bare_array_pool_document_decodes() {
    let pool = ActionPool::from_text(
        r#"[{"id": 1, "random": true, "effect_pool": [10, 11]}]"#,
    )
    .unwrap();
    assert_eq!(pool.action_pool.len(), 1);
    assert_eq!(pool.action_pool[0].id, 1);
    assert!(pool.action_pool[0].random);
    assert_eq!(pool.action_pool[0].effect_pool, vec![10, 11]);
    // The bare array and the object forms decode identically.
    let wrapped = ActionPool::from_text(
        r#"{"actions": [{"id": 1, "random": true, "effect_pool": [10, 11]}]}"#,
    )
    .unwrap();
    assert_eq!(pool, wrapped);
}

#[test]
fn both_pool_keys_are_ambiguous() {
    let r = ActionPool::from_text(r#"{"actions": [], "action_pool": []}"#);
    assert!(matches!(r, Err(DecodeError::ShapeMismatch)));
}

#[test]
fn invalid_json_is_rejected() {
    assert!(ActionPool::from_text("not a document").is_err());
}

#[test]
fn numeric_overflow_is_rejected() {
    let r = ActionPool::from_text(
        r#"{"actions": [{"id": 70000, "random": true, "effect_pool": []}]}"#,
    );
    assert!(matches!(r, Err(DecodeError::ShapeMismatch)));
}

#[test]
fn enemy_combat_stats_default_to_zero() {
    let pool = EnemyPool::from_text(
        r#"{"enemies": [{"id": 4, "rank": 2, "hp": 30, "loot_pool": [5],
            "action_strategy": {"random": false, "action_pool": [1, 2]}}]}"#,
    )
    .unwrap();
    let enemy = &pool.enemy_pool[0];
    assert_eq!(enemy.armor, 0);
    assert_eq!(enemy.shield, 0);
    assert_eq!(enemy.attack, 0);
    assert_eq!(enemy.attack_weak, 0);
    assert_eq!(enemy.defense, 0);
    assert_eq!(enemy.defense_weak, 0);
    assert_eq!(enemy.action_strategy.action_pool, vec![1, 2]);
}

#[test]
fn warrior_combat_stats_default_to_zero() {
    let pool = WarriorPool::from_text(
        r#"{"warriors": [{"id": 1, "special_cards": [], "hp": 100, "gold": 20,
            "power": 3, "motion": 2, "view_range": 4, "physique": 5,
            "draw_count": 6, "deck_status": [], "package_status": []}]}"#,
    )
    .unwrap();
    let warrior = &pool.warrior_pool[0];
    assert_eq!(warrior.armor, 0);
    assert_eq!(warrior.defense_weak, 0);
    assert_eq!(warrior.physique, 5);
    assert_eq!(warrior.draw_count, 6);
    // Physique and draw count are part of the wire record, as fields 13
    // and 14 of the seventeen-field table.
    let bytes = warrior.encode().unwrap();
    let physique_off = molecule::unpack_number(&bytes[56..60]) as usize;
    let draw_off = molecule::unpack_number(&bytes[60..64]) as usize;
    assert_eq!(bytes[physique_off], 5);
    assert_eq!(bytes[draw_off], 6);
}

#[test]
fn loot_null_props_is_empty_optional() {
    let pool = LootPool::from_text(
        r#"{"loots": [{"id": 1, "gold": {"min": 1, "max": 2},
            "score": {"min": 0, "max": 0},
            "card_pool": {"size": 1, "item_pool": [7]},
            "props_pool": null}]}"#,
    )
    .unwrap();
    let loot = &pool.loot_pool[0];
    assert!(loot.props_pool.is_none());
    assert!(loot.equipment_pool.is_none());
    let present = LootPool::from_text(
        r#"{"loots": [{"id": 1, "gold": {"min": 1, "max": 2},
            "score": {"min": 0, "max": 0},
            "card_pool": {"size": 1, "item_pool": [7]},
            "props_pool": {"size": 1, "item_pool": [7]}}]}"#,
    )
    .unwrap();
    let with_props = &present.loot_pool[0];
    let props = with_props.props_pool.as_ref().unwrap();
    assert_eq!(props.size, 1);
    assert_eq!(props.item_pool, vec![7]);
}

#[test]
fn system_id_alias_and_duration() {
    let pool = SystemPool::from_text(
        r#"{"systems": [{"id": 1, "system": 9,
            "args": [{"number": 5}, {"random": {"min": 1, "max": 2}}],
            "duration": {"number": 3}}]}"#,
    )
    .unwrap();
    let system = &pool.system_pool[0];
    assert_eq!(system.system_id, 9);
    assert_eq!(system.target_type, 0);
    assert_eq!(system.args.len(), 2);
    assert!(matches!(system.args[0], Value::Number(5)));
    assert!(matches!(system.duration, Some(Duration::Number(3))));
    // The duration stands last in the record: its fixed tag, then the count.
    let bytes = system.encode().unwrap();
    assert_eq!(&bytes[bytes.len() - 6..], &[0, 0, 0, 0, 3, 0]);
}

#[test]
fn life_point_duration_decodes() {
    let pool = SystemPool::from_text(
        r#"{"systems": [{"id": 1, "system_id": 9, "args": [],
            "duration": {"life_point": {"listening_system_id": 7,
                "point": 100, "round_recover": true}}}]}"#,
    )
    .unwrap();
    let system = &pool.system_pool[0];
    match system.duration {
        Some(Duration::LifePoint(lp)) => {
            assert_eq!(lp.listening_system_id, 7);
            assert_eq!(lp.point, 100);
            assert!(lp.round_recover);
        },
        _ => panic!("expected a life-point duration"),
    }
    // Tag 1, then the 5-byte payload: system id, point, recover flag.
    let bytes = system.encode().unwrap();
    assert_eq!(&bytes[bytes.len() - 9..], &[1, 0, 0, 0, 7, 0, 100, 0, 1]);
}

#[test]
fn scene_with_barrier_node() {
    let pool = ScenePool::from_text(
        r#"{"scenes": [{"id": 1, "width": 5, "height": 5, "fixed_nodes": [],
            "partition_list": [{"start_point": {"x": 0, "y": 0},
                "end_point": {"x": 4, "y": 4},
                "count": {"min": 1, "max": 1},
                "node_pool": [{"visible": true, "instance": "barrier"}]}]}]}"#,
    )
    .unwrap();
    let scene = &pool.scene_pool[0];
    let node = &scene.partition_list[0].node_pool[0];
    assert!(matches!(node.instance, NodeInstance::Barrier));
    // The omitted size defaulted to {0, 0}.
    assert_eq!(node.size.x, 0);
    assert_eq!(node.size.y, 0);
    // The barrier encodes as its fixed tag with a zero-length payload.
    assert_eq!(node.instance.encode().unwrap(), vec![7, 0, 0, 0]);
}

#[test]
fn unknown_node_tag_aborts_decode() {
    let r = ScenePool::from_text(
        r#"{"scenes": [{"id": 1, "width": 5, "height": 5, "fixed_nodes": [],
            "partition_list": [{"start_point": {"x": 0, "y": 0},
                "end_point": {"x": 4, "y": 4},
                "count": {"min": 1, "max": 1},
                "node_pool": [{"visible": true, "instance": "unknown_type_x"}]}]}]}"#,
    );
    assert!(matches!(r, Err(DecodeError::ShapeMismatch)));
    let direct = NodeInstance::from_json(&Json::Text("unknown_type_x".to_string()));
    assert!(matches!(direct, Err(DecodeError::ShapeMismatch)));
}

#[test]
fn compile_from_texts_builds_one_bundle() {
    let empty_actions = r#"{"actions": []}"#;
    let empty_cards = r#"{"cards": []}"#;
    let empty_systems = r#"{"systems": []}"#;
    let empty_enemies = r#"{"enemies": []}"#;
    let empty_loots = r#"{"loots": []}"#;
    let empty_scenes = r#"{"scenes": []}"#;
    let empty_warriors = r#"{"warriors": []}"#;
    let empty_items = r#"{"items": []}"#;
    let bytes = compile_from_texts(
        empty_actions,
        empty_cards,
        empty_systems,
        empty_enemies,
        empty_loots,
        empty_scenes,
        empty_warriors,
        empty_items,
    )
    .unwrap();
    assert_eq!(molecule::unpack_number(&bytes[0..4]) as usize, bytes.len());
    // One bad document aborts the whole compile.
    let r = compile_from_texts(
        "broken",
        empty_cards,
        empty_systems,
        empty_enemies,
        empty_loots,
        empty_scenes,
        empty_warriors,
        empty_items,
    );
    assert!(matches!(r, Err(CompileError::ShapeMismatch)));
}
