use std::collections::HashMap;
use tf2_trainer::netvars::{
    dump, dump_table, get, netvar_sum, netvar_sum_checked, ClientClass, RecvProp, RecvTable,
};

fn prop(name: &str, offset: i32, nested: Option<RecvTable>) -> RecvProp {
    RecvProp { var_name: name.to_string(), offset, data_table: nested.map(Box::new) }
}

fn table(name: &str, props: Vec<RecvProp>) -> RecvTable {
    RecvTable { props, net_table_name: name.to_string() }
}

#[test]
fn netvar_sum_known_values() {
    assert_eq!(netvar_sum("DT_BasePlayer", "m_iHealth"), 11729);
    assert_eq!(netvar_sum("DT_BaseEntity", "m_iTeamNum"), 12789);
    assert_eq!(netvar_sum("DT_BasePlayer", "m_fFlags"), 10876);
    assert_eq!(netvar_sum("ab", "c"), 98);
}

#[test]
fn netvar_sum_of_empty_names_is_zero() {
    assert_eq!(netvar_sum("", ""), 0);
    assert_eq!(netvar_sum("T", "x"), 0);
}

#[test]
fn netvar_sum_ignores_first_character() {
    assert_eq!(netvar_sum("ab", ""), netvar_sum("xb", ""));
}

#[test]
fn netvar_sum_is_symmetric() {
    assert_eq!(
        netvar_sum("DT_BasePlayer", "m_iHealth"),
        netvar_sum("m_iHealth", "DT_BasePlayer")
    );
}

#[test]
fn netvar_sum_checked_agrees_and_detects_overflow() {
    assert_eq!(netvar_sum_checked("DT_BasePlayer", "m_iHealth"), Some(11729));
    assert_eq!(netvar_sum_checked("", ""), Some(0));
    let long: String = std::iter::repeat('\u{10FFFF}').take(7_000_000).collect();
    assert_eq!(netvar_sum_checked(&long, "x"), None);
    assert_eq!(netvar_sum_checked("x", &long), None);
}

#[test]
fn dump_records_nested_fields_under_the_outer_table() {
    let inner = table("DT_Local", vec![prop("m_nested", 0x40, None)]);
    let player = table(
        "DT_BasePlayer",
        vec![prop("m_iHealth", 0xA8, None), prop("m_Local", 0x100, Some(inner))],
    );
    let map = dump(&vec![ClientClass { recv_table: player }]);
    assert_eq!(get(&map, "DT_BasePlayer", "m_iHealth"), Some(0xA8));
    assert_eq!(get(&map, "DT_BasePlayer", "m_Local"), Some(0x100));
    assert_eq!(get(&map, "DT_BasePlayer", "m_nested"), Some(0x40));
    assert_eq!(get(&map, "DT_Local", "m_nested"), None);
    assert_eq!(map.len(), 3);
}

#[test]
fn dump_keeps_the_last_field_recorded_under_a_key() {
    let first = table("DT_A", vec![prop("m_x", 4, None)]);
    let second = table("DT_A", vec![prop("m_x", 8, None)]);
    let map = dump(&vec![ClientClass { recv_table: first }, ClientClass { recv_table: second }]);
    assert_eq!(get(&map, "DT_A", "m_x"), Some(8));
    assert_eq!(map.len(), 1);
}

#[test]
fn get_finds_colliding_names() {
    let t = table("DT_A", vec![prop("ab", 12, None)]);
    let map = dump(&vec![ClientClass { recv_table: t }]);
    assert_eq!(get(&map, "DT_A", "xb"), Some(12));
    assert_eq!(get(&map, "ab", "DT_A"), Some(12));
}

#[test]
fn get_on_empty_table_is_none() {
    let map = dump(&vec![]);
    assert!(map.is_empty());
    assert_eq!(get(&map, "DT_BasePlayer", "m_iHealth"), None);
}

#[test]
fn dump_table_adds_to_an_existing_map() {
    let mut map: HashMap<usize, usize> = HashMap::new();
    map.insert(1, 2);
    let t = table("DT_B", vec![prop("m_y", 16, None), prop("m_y", 20, None)]);
    dump_table(&t, "DT_B", &mut map);
    assert_eq!(map.get(&1), Some(&2));
    assert_eq!(get(&map, "DT_B", "m_y"), Some(20));
    assert_eq!(map.len(), 2);
}
