use code_warrior::commands::code::{
    function_feedback, legacy_feedback, quest_feedback, quests_remaining_after,
    selected_case_indices,
};
use code_warrior::game::inventory::{Inventory, Item, ItemType};
use code_warrior::game::map::TileMapRender;
use code_warrior::game::world::{Tile, TileType};
use code_warrior::levels::loader::{default_quest_xp, default_xp, JsonVal, TestCase};
use code_warrior::levels::map_loader::tile_id_to_tile;
use code_warrior::strutil::{
    count_occ_is, i64_to_dec, str_contains, str_ends_with, str_eq, str_starts_with, str_trim,
    u64_to_dec,
};

fn item(id: &str, quantity: u32) -> Item {
    Item {
        id: id.to_string(),
        name: id.to_string(),
        item_type: ItemType::Key,
        description: String::new(),
        quantity,
    }
}

#[test]
fn inventory_stacks_and_respects_capacity() {
    let mut inv = Inventory::new(2);
    assert!(inv.add_item(item("key", 1)));
    assert!(inv.add_item(item("key", 2)));
    assert_eq!(inv.items.len(), 1);
    assert_eq!(inv.items[0].quantity, 3);

    assert!(inv.add_item(item("potion", 1)));
    assert!(!inv.add_item(item("sword", 1)));
    assert_eq!(inv.items.len(), 2);

    let removed = inv.remove_item("key").unwrap();
    assert_eq!(removed.quantity, 3);
    assert!(inv.remove_item("key").is_none());
    assert_eq!(inv.items.len(), 1);
}

#[test]
fn tiles_have_their_documented_properties() {
    assert!(Tile::floor().walkable && !Tile::floor().interactable);
    assert!(!Tile::wall().walkable);
    let t = Tile::terminal();
    assert!(t.walkable && t.interactable && t.quest_id.is_none());
    let t = Tile::terminal_with_quest("L01_Q1".to_string());
    assert_eq!(t.quest_id.as_deref(), Some("L01_Q1"));
    assert!(Tile::door().interactable && !Tile::door().walkable);
    assert!(!Tile::water().walkable);
    assert!(!Tile::tree().walkable);
    assert!(!Tile::rock().walkable);
    assert!(!Tile::lava().walkable);
    assert!(Tile::ice().walkable);
    assert!(Tile::bridge().walkable);
    assert!(Tile::grass().walkable);
    assert!(Tile::path().walkable);
    assert!(!Tile::pit().walkable);
}

#[test]
fn legacy_tile_ids_map_to_tiles() {
    assert_eq!(tile_id_to_tile(0).tile_type, TileType::Void);
    assert_eq!(tile_id_to_tile(1).tile_type, TileType::Floor);
    assert_eq!(tile_id_to_tile(2).tile_type, TileType::Floor);
    assert_eq!(tile_id_to_tile(3).tile_type, TileType::Wall);
    assert_eq!(tile_id_to_tile(4).tile_type, TileType::Wall);
    assert_eq!(tile_id_to_tile(5).tile_type, TileType::Terminal);
    let locked = tile_id_to_tile(6);
    assert_eq!(locked.tile_type, TileType::Door);
    assert!(!locked.walkable);
    let open = tile_id_to_tile(7);
    assert_eq!(open.tile_type, TileType::Door);
    assert!(open.walkable);
    assert_eq!(tile_id_to_tile(99).tile_type, TileType::Floor);
}

#[test]
fn render_map_fills_every_cell() {
    let map = TileMapRender::filled(4, 3, TileType::Grass);
    assert_eq!(map.width, 4);
    assert_eq!(map.height, 3);
    assert_eq!(map.tiles.len(), 3);
    for row in &map.tiles {
        assert_eq!(row.len(), 4);
        for t in row {
            assert_eq!(*t, TileType::Grass);
        }
    }
}

#[test]
fn default_rewards() {
    assert_eq!(default_quest_xp(), 25);
    assert_eq!(default_xp(), 50);
}

fn case(sample: bool) -> TestCase {
    TestCase { input: vec![JsonVal::Int(0)], expected: "0".to_string(), sample }
}

#[test]
fn case_selection_by_run_kind() {
    let cases = vec![case(true), case(false), case(true), case(false)];
    assert_eq!(selected_case_indices(&cases, false), vec![0, 1, 2, 3]);
    assert_eq!(selected_case_indices(&cases, true), vec![0, 2]);
    assert!(selected_case_indices(&Vec::new(), true).is_empty());
}

#[test]
fn feedback_lines_match_every_outcome() {
    assert_eq!(
        legacy_feedback(true, false, false, 0),
        "Code failed to compile. Check for syntax errors."
    );
    assert_eq!(
        legacy_feedback(false, true, false, 0),
        "Code execution timed out. Check for infinite loops."
    );
    assert_eq!(
        legacy_feedback(false, false, true, 50),
        "Success! +50 XP! Doors have been unlocked!"
    );
    assert_eq!(
        legacy_feedback(false, false, true, 0),
        "Success! Doors have been unlocked! (Level already completed)"
    );
    assert_eq!(
        legacy_feedback(false, false, false, 0),
        "Output doesn't match expected result. Try again!"
    );

    assert_eq!(
        function_feedback(true, true, 2, 5, 0),
        "All 2 sample tests passed! Click SUBMIT to complete."
    );
    assert_eq!(
        function_feedback(true, false, 5, 5, 75),
        "All 5 tests passed! +75 XP! Doors have been unlocked!"
    );
    assert_eq!(
        function_feedback(true, false, 5, 5, 0),
        "All 5 tests passed! Doors have been unlocked! (Level already completed)"
    );
    assert_eq!(
        function_feedback(false, false, 3, 5, 0),
        "3/5 tests passed. Check your logic and try again!"
    );

    assert_eq!(
        quest_feedback(true, true, 2, 2, 0, 3),
        "All 2 sample tests passed! Click SUBMIT to complete."
    );
    assert_eq!(
        quest_feedback(true, false, 2, 2, 25, 0),
        "Quest complete! +25 XP! All quests done - doors unlocked!"
    );
    assert_eq!(
        quest_feedback(true, false, 2, 2, 25, 2),
        "Quest complete! +25 XP! 2 quest(s) remaining."
    );
    assert_eq!(
        quest_feedback(true, false, 2, 2, 0, 2),
        "Quest already completed. Try another quest!"
    );
    assert_eq!(
        quest_feedback(false, false, 1, 2, 0, 2),
        "1/2 tests passed. Check your logic and try again!"
    );

    assert_eq!(quests_remaining_after(3, 1), 2);
    assert_eq!(quests_remaining_after(3, 3), 0);
    assert_eq!(quests_remaining_after(3, 5), 0);
}

#[test]
fn string_utilities() {
    assert_eq!(str_trim("  hello\t\n"), "hello");
    assert_eq!(str_trim(""), "");
    assert_eq!(str_trim(" \n "), "");
    assert!(str_eq("abc", "abc"));
    assert!(!str_eq("abc", "abd"));
    assert!(str_contains("hello world", "lo wo"));
    assert!(!str_contains("hello", "world"));
    assert!(str_contains("abc", ""));
    assert!(str_starts_with("Bearer x", "Bearer "));
    assert!(str_ends_with("file.json", ".json"));
    assert!(count_occ_is("aaa", "aa", 1));
    assert!(count_occ_is("ab ab ab", "ab", 3));
    assert!(count_occ_is("abc", "", 4));
    assert_eq!(u64_to_dec(0), "0");
    assert_eq!(u64_to_dec(10240), "10240");
    assert_eq!(i64_to_dec(-345), "-345");
    assert_eq!(i64_to_dec(i64::MIN), "-9223372036854775808");
}
