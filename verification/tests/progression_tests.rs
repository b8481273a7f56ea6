use code_warrior::game::progression::{LevelPrerequisites, ProgressionState, StringSet};

#[test]
fn test_new_progression_has_l01_unlocked() {
    let state = ProgressionState::new();
    assert!(state.is_unlocked("L01"));
    assert!(!state.is_completed("L01"));
}

#[test]
fn test_complete_level_awards_xp() {
    let mut state = ProgressionState::new();
    let xp = state.complete_level("L01", 50);
    assert_eq!(xp, 50);
    assert_eq!(state.total_xp, 50);
    assert!(state.is_completed("L01"));
}

#[test]
fn test_replay_awards_no_xp() {
    let mut state = ProgressionState::new();
    state.complete_level("L01", 50);
    let xp = state.complete_level("L01", 50);
    assert_eq!(xp, 0);
    assert_eq!(state.total_xp, 50);
}

#[test]
fn test_prerequisites_requires_all() {
    let prereqs = LevelPrerequisites {
        requires_all: vec!["L01".to_string(), "L02".to_string()],
        requires_any: vec![],
        min_xp: 0,
    };

    let mut completed = StringSet::new();
    assert!(!prereqs.is_satisfied(&completed, 0));

    completed.insert("L01".to_string());
    assert!(!prereqs.is_satisfied(&completed, 0));

    completed.insert("L02".to_string());
    assert!(prereqs.is_satisfied(&completed, 0));
}

#[test]
fn test_prerequisites_requires_any() {
    let prereqs = LevelPrerequisites {
        requires_all: vec![],
        requires_any: vec!["L02".to_string(), "L03".to_string()],
        min_xp: 0,
    };

    let mut completed = StringSet::new();
    assert!(!prereqs.is_satisfied(&completed, 0));

    completed.insert("L02".to_string());
    assert!(prereqs.is_satisfied(&completed, 0));
}

#[test]
fn test_prerequisites_min_xp() {
    let prereqs = LevelPrerequisites {
        requires_all: vec![],
        requires_any: vec![],
        min_xp: 100,
    };

    let completed = StringSet::new();
    assert!(!prereqs.is_satisfied(&completed, 50));
    assert!(prereqs.is_satisfied(&completed, 100));
    assert!(prereqs.is_satisfied(&completed, 150));
}

#[test]
fn test_update_unlocks() {
    let mut state = ProgressionState::new();
    let mut prereqs: Vec<(String, LevelPrerequisites)> = Vec::new();

    // L02 requires L01
    prereqs.push((
        "L02".to_string(),
        LevelPrerequisites {
            requires_all: vec!["L01".to_string()],
            requires_any: vec![],
            min_xp: 0,
        },
    ));

    // L05 requires L02 AND L04
    prereqs.push((
        "L05".to_string(),
        LevelPrerequisites {
            requires_all: vec!["L02".to_string(), "L04".to_string()],
            requires_any: vec![],
            min_xp: 0,
        },
    ));

    // Before completing anything
    state.update_unlocks(&prereqs);
    assert!(!state.is_unlocked("L02"));

    // Complete L01
    state.complete_level("L01", 50);
    state.update_unlocks(&prereqs);
    assert!(state.is_unlocked("L02"));
    assert!(!state.is_unlocked("L05"));

    // Complete L02 and L04
    state.complete_level("L02", 75);
    state.unlocked_levels.insert("L04".to_string()); // Assume L04 was unlocked some other way
    state.complete_level("L04", 125);
    state.update_unlocks(&prereqs);
    assert!(state.is_unlocked("L05"));
}

#[test]
fn quest_completion_counts_per_level() {
    let mut state = ProgressionState::new();
    let xp = state.complete_quest("L01", "L01_Q1", 25);
    assert_eq!(xp, 25);
    assert_eq!(state.total_xp, 25);
    assert!(state.is_quest_completed("L01", "L01_Q1"));
    assert!(!state.is_quest_completed("L02", "L01_Q1"));
    assert_eq!(state.get_completed_quest_count("L01"), 1);
    assert_eq!(state.get_completed_quest_count("L02"), 0);

    // replaying the quest earns nothing
    let xp = state.complete_quest("L01", "L01_Q1", 25);
    assert_eq!(xp, 0);
    assert_eq!(state.total_xp, 25);
    assert_eq!(state.get_completed_quest_count("L01"), 1);

    state.complete_quest("L01", "L01_Q2", 30);
    assert_eq!(state.get_quest_progress("L01", 3), (2, 3));
    assert!(!state.is_level_fully_completed("L01", 3));
    assert!(state.is_level_fully_completed("L01", 2));
    assert_eq!(
        state.get_completed_quests("L01"),
        vec!["L01_Q1".to_string(), "L01_Q2".to_string()]
    );
}

#[test]
fn available_and_completed_level_lists() {
    let mut state = ProgressionState::new();
    assert_eq!(state.get_available_levels(), vec!["L01".to_string()]);
    assert!(state.get_completed_levels().is_empty());
    state.complete_level("L01", 50);
    assert_eq!(state.get_completed_levels(), vec!["L01".to_string()]);
}
