//! The plain value types: hashes, identifiers, parameters, cloning lookups,
//! resource records, static arrays, and region search keys.

use std::collections::BTreeMap;

use smashline::accessor::StaticArrayAccessor;
use smashline::cloning::{
    try_get_new_agent, ArticleDescriptor, NewAgent, StaticArticleData, StaticFighterData,
};
use smashline::hash::hash_str;
use smashline::params::{ParamData, ParamValue};
use smashline::regions::MemoryRegionSearchKey;
use smashline::resources::{LoadState, LoadedData};
use smashline::types::{
    BattleObjectCategory, Costume, LuaConst, IntoLuaConst, Priority, StatusLine, StringFFI,
};
use smashline::utils::{get_costume_data, get_weapon_code_dependency, get_weapon_name, has_costume};
use smashline::world::World;

#[test]
fn hashes_match_the_reference_implementation() {
    assert_eq!(hash_str(""), 0);
    for name in ["fighter", "weapon", "mario", "game_attackairn"] {
        assert_eq!(hash_str(name), hash40::hash40(name).0);
        assert!(hash_str(name) < 0x100_0000_0000);
    }
    // The digest lowercases its input.
    assert_eq!(hash_str("MARIO"), hash_str("mario"));
}

#[test]
fn battle_object_categories_decode_from_the_top_bits() {
    let cases = [
        (0x0000_0001, Some(BattleObjectCategory::Fighter)),
        (0x1000_0001, Some(BattleObjectCategory::Weapon)),
        (0x2000_0001, Some(BattleObjectCategory::Enemy)),
        (0x3000_0001, Some(BattleObjectCategory::Gimmick)),
        (0x4000_0001, Some(BattleObjectCategory::Item)),
        (0x5000_0001, None),
        (0xF000_0001, None),
    ];
    for (id, expected) in cases {
        assert_eq!(BattleObjectCategory::from_battle_object_id(id), expected);
    }
}

#[test]
fn priorities_and_lines_have_fixed_ranks() {
    assert_eq!(Priority::Low.level(), 0);
    assert_eq!(Priority::Default.level(), 1);
    assert_eq!(Priority::High.level(), 2);
    assert_eq!(StatusLine::Pre.index(), 0);
    assert_eq!(StatusLine::CalcParam.index(), 16);
    assert_eq!(StatusLine::MainLoop.index(), -1);
}

#[test]
fn string_carrier_round_trips() {
    let s = StringFFI::from_str(String::from("lucina"));
    assert_eq!(s.as_str(), Ok("lucina"));

    match 7i32.into_lua_const() {
        LuaConst::Resolved(v) => assert_eq!(v, 7),
        _ => panic!("an i32 resolves directly"),
    }
    match 0xABCDu64.into_lua_const() {
        LuaConst::UnresolvedHash(h) => assert_eq!(h, 0xABCD),
        _ => panic!("a u64 stays a hash"),
    }
}

#[test]
fn costume_ranges_contain_and_overlap() {
    let c = Costume { min: 2, max: 5 };
    assert!(c.contains(2) && c.contains(5) && !c.contains(6));
    assert!(c.overlaps(&Costume { min: 5, max: 9 }));
    assert!(!c.overlaps(&Costume { min: 6, max: 9 }));
    assert_eq!(Costume::default(), Costume::all());
}

fn agent(owner_id: i32, new_name: &str, owner_name: &str, reuse: bool) -> NewAgent {
    NewAgent {
        old_owner_id: owner_id - 1,
        owner_id,
        owner_name_ffi: String::from(owner_name),
        new_name_ffi: String::from(new_name),
        owner_name: String::from(owner_name),
        new_name: String::from(new_name),
        old_name: String::from("old"),
        use_original_code: reuse,
    }
}

#[test]
fn weapon_names_prefer_cloned_agents() {
    let mut agents: BTreeMap<i32, Vec<NewAgent>> = BTreeMap::new();
    agents.insert(2, vec![agent(10, "blaster", "fox", true), agent(11, "beam", "falco", false)]);
    let names = vec![String::from("gun"), String::from("bomb"), String::from("shot")];

    // A registered clone wins over the table.
    let found = try_get_new_agent(&agents, 2, 11).unwrap();
    assert_eq!(found.new_name.as_str(), "beam");
    assert_eq!(get_weapon_name(&agents, &names, 2, 10), Some(String::from("blaster")));
    // Without a clone the table answers, and out of range nothing does.
    assert_eq!(get_weapon_name(&agents, &names, 2, 99), Some(String::from("shot")));
    assert_eq!(get_weapon_name(&agents, &names, 1, 99), Some(String::from("bomb")));
    assert_eq!(get_weapon_name(&agents, &names, 7, 99), None);
    assert_eq!(get_weapon_name(&agents, &names, -1, 99), None);

    assert_eq!(get_weapon_code_dependency(&agents, 2, 10), Some(9));
    assert_eq!(get_weapon_code_dependency(&agents, 2, 11), None);
}

#[test]
fn costume_queries_search_claims() {
    let mut costumes: BTreeMap<u64, Vec<Costume>> = BTreeMap::new();
    let kind = hash_str("mario");
    costumes.insert(kind, vec![Costume { min: 0, max: 3 }, Costume { min: 4, max: 7 }]);
    assert!(has_costume(&costumes, kind, 5));
    assert!(!has_costume(&costumes, kind, 9));
    assert!(!has_costume(&costumes, hash_str("luigi"), 5));
    assert_eq!(get_costume_data(&costumes, kind, 5), Costume { min: 4, max: 7 });
    assert_eq!(get_costume_data(&costumes, kind, 9), Costume::all());
}

#[test]
fn articles_are_found_by_weapon_id() {
    let d1 = ArticleDescriptor {
        weapon_id: 3,
        max_count: 2,
        on_init_callback: 0x10,
        on_fini_callback: 0x20,
        extra: 0,
    };
    let d2 = ArticleDescriptor { weapon_id: 4, ..d1 };
    let fighter = StaticFighterData {
        id: 1,
        static_article_info: Some(StaticArticleData { descriptors: vec![d1, d2] }),
    };
    assert_eq!(fighter.get_article(4), Some(d2));
    assert_eq!(fighter.get_article(5), None);
    let bare = StaticFighterData { id: 2, static_article_info: None };
    assert_eq!(bare.get_article(3), None);
}

#[test]
fn parameters_answer_type_queries_and_lookups() {
    let tree = ParamValue::Struct(vec![
        (1, ParamValue::I32(-7)),
        (2, ParamValue::Hash(0xFEED)),
        (3, ParamValue::List(vec![ParamValue::U8(200), ParamValue::Bool(true)])),
    ]);
    let p = ParamData { data: Some(&tree) };

    assert!(!p.is_int());
    let field = p.get_by_key(1);
    assert!(field.is_int());
    assert_eq!(field.get_int(), -7);
    assert_eq!(p.get_by_key(2).get_hash(), 0xFEED);
    assert!(p.get_by_key(9).data.is_none());

    let list = p.get_by_key(3);
    assert_eq!(list.get_element(0).get_int(), 200);
    assert_eq!(list.get_element(1).get_int(), 1);
    assert!(list.get_element(2).data.is_none());
    assert!(list.get_element(-1).data.is_none());

    // Lookups also reach into a list whose first element is a structure.
    let wrapped = ParamValue::List(vec![ParamValue::Struct(vec![(8, ParamValue::U16(512))])]);
    let q = ParamData { data: Some(&wrapped) };
    assert_eq!(q.get_by_key(8).get_int(), 512);

    let mut cell = ParamValue::U8(0);
    cell.set_int(300);
    match cell {
        ParamValue::U8(x) => assert_eq!(x, 44),
        _ => panic!("the variant is kept"),
    }
}

#[test]
fn loaded_data_starts_unloaded() {
    let d = LoadedData::new();
    assert_eq!(d.data, 0);
    assert_eq!(d.ref_count, 0);
    assert!(!d.is_used);
    assert_eq!(d.state, LoadState::Unloaded);
    let e = LoadedData::default();
    assert_eq!(e.state, LoadState::Unloaded);
}

#[test]
fn static_arrays_read_words_from_the_main_region() {
    let mut w = World::new(0x1000, 0x100);
    w.write_word(0x1010, 41);
    w.write_word(0x1018, 42);
    let arr: StaticArrayAccessor<u64> = StaticArrayAccessor::new(0x10, 2);
    assert_eq!(arr.get(&w, 0), Some(41));
    assert_eq!(arr.get(&w, 1), Some(42));
    assert_eq!(arr.get(&w, 2), None);

    let mut it = arr.iter();
    assert_eq!(it.next(&w), Some(41));
    assert_eq!(it.next(&w), Some(42));
    assert_eq!(it.next(&w), None);
}

#[test]
fn region_keys_compare_by_containment() {
    let region = MemoryRegionSearchKey::Region(0x100..0x200);
    let inside = MemoryRegionSearchKey::Key(0x150);
    let below = MemoryRegionSearchKey::Key(0x50);
    let above = MemoryRegionSearchKey::Key(0x200);

    assert!(region == inside);
    assert!(inside == region);
    assert!(below < region);
    assert!(region < above);
    assert!(
        MemoryRegionSearchKey::Region(0x100..0x200)
            < MemoryRegionSearchKey::Region(0x100..0x300)
    );
    assert!(
        MemoryRegionSearchKey::Region(0x100..0x200) == MemoryRegionSearchKey::Region(0x100..0x200)
    );
}
