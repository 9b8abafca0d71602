use tower_defense::data_load::{build_tower_db_once, scene_label, towers_json_ready};

#[test]
fn towers_file_is_ready_once_it_has_arrived() {
    assert!(towers_json_ready(Some(true)));
    assert!(!towers_json_ready(Some(false)));
    assert!(!towers_json_ready(None));
}

#[test]
fn scene_label_names_the_first_scene() {
    assert_eq!(scene_label("glb/tower_01.glb"), "glb/tower_01.glb#Scene0");
    assert_eq!(scene_label(""), "#Scene0");
}

#[test]
fn empty_file_gives_an_empty_catalogue() {
    let db = build_tower_db_once(Vec::<(String, u32)>::new());
    assert_eq!(db.len(), 0);
    assert_eq!(db.get("basic"), None);
}

#[test]
fn catalogue_holds_every_definition_of_the_file() {
    let db = build_tower_db_once(vec![
        ("basic".to_string(), 15u32),
        ("sniper".to_string(), 60),
        ("cannon".to_string(), 90),
    ]);
    assert_eq!(db.len(), 3);
    assert_eq!(db.get("basic"), Some(&15));
    assert_eq!(db.get("sniper"), Some(&60));
    assert_eq!(db.get("cannon"), Some(&90));
    assert_eq!(db.get("mortar"), None);
}

#[test]
fn of_two_definitions_with_one_id_the_later_stays() {
    let db = build_tower_db_once(vec![
        ("basic".to_string(), 15u32),
        ("sniper".to_string(), 60),
        ("basic".to_string(), 20),
    ]);
    assert_eq!(db.len(), 2);
    assert_eq!(db.get("basic"), Some(&20));
    assert_eq!(db.get("sniper"), Some(&60));
}

#[test]
fn listing_follows_the_file() {
    let db = build_tower_db_once(vec![
        ("sniper".to_string(), 60u32),
        ("basic".to_string(), 15),
    ]);
    assert_eq!(db.entry(0).0.as_str(), "sniper");
    assert_eq!(db.entry(1).0.as_str(), "basic");
}
