use witchs_brew::dialogue::DialogueState;
use witchs_brew::dialogue::TransitionTo;

#[test]
fn dialogue_scene_runs_to_completion() {
    let mut state = DialogueState(0, 0);
    assert_eq!(state.next_frame(), TransitionTo::Dialogue);
    assert_eq!(state, DialogueState(0, 1));
    assert_eq!(state.next_frame(), TransitionTo::Cooking);
    assert_eq!(state, DialogueState(0, 1));
    state.next_scene(80, 0, 0);
    assert_eq!(state, DialogueState(1, 0));
}

#[test]
fn frame_never_exceeds_the_scene_maximum() {
    for scene in 0..=8u32 {
        let mut state = DialogueState(scene, 0);
        let maximum = state.maximum();
        for step in 0..maximum + 3 {
            let outcome = state.next_frame();
            assert_eq!(state.0, scene);
            assert!(state.1 <= maximum);
            if step < maximum {
                assert_eq!(outcome, TransitionTo::Dialogue);
            } else {
                assert_ne!(outcome, TransitionTo::Dialogue);
            }
        }
        assert_eq!(state.1, maximum);
    }
}

#[test]
fn completed_scenes_pick_the_right_phase() {
    for scene in [0u32, 3, 6] {
        let mut state = DialogueState(scene, state_maximum(scene));
        assert_eq!(state.next_frame(), TransitionTo::Cooking);
    }
    for scene in [1u32, 2, 4, 5, 7, 8] {
        let mut state = DialogueState(scene, state_maximum(scene));
        assert_eq!(state.next_frame(), TransitionTo::Intermission);
    }
}

fn state_maximum(scene: u32) -> u32 {
    DialogueState(scene, 0).maximum()
}

#[test]
fn advance_scene_resets_the_frame() {
    for scene in 0..=8u32 {
        for frame in [0u32, 1, 3, 17] {
            let mut state = DialogueState(scene, frame);
            state.next_scene(50, 50, 50);
            assert_eq!(state.1, 0);
        }
    }
}

#[test]
fn branch_selection_is_deterministic() {
    for scene in 0..=8u32 {
        let mut first = DialogueState(scene, 2);
        let mut second = DialogueState(scene, 0);
        first.next_scene(40, 60, 10);
        second.next_scene(40, 60, 10);
        assert_eq!(first.0, second.0);
    }
}

#[test]
fn thresholds_are_strict() {
    let mut state = DialogueState(0, 1);
    state.next_scene(75, 100, 100);
    assert_eq!(state, DialogueState(2, 0));

    let mut state = DialogueState(0, 1);
    state.next_scene(76, 0, 0);
    assert_eq!(state, DialogueState(1, 0));

    let mut state = DialogueState(3, 3);
    state.next_scene(100, 55, 100);
    assert_eq!(state, DialogueState(5, 0));

    let mut state = DialogueState(3, 3);
    state.next_scene(0, 56, 0);
    assert_eq!(state, DialogueState(4, 0));

    let mut state = DialogueState(6, 3);
    state.next_scene(100, 100, 20);
    assert_eq!(state, DialogueState(8, 0));

    let mut state = DialogueState(6, 3);
    state.next_scene(0, 0, 21);
    assert_eq!(state, DialogueState(7, 0));
}

#[test]
fn unconditional_branches_follow_the_graph() {
    for (from, to) in [(1u32, 3u32), (2, 3), (4, 6), (5, 6), (7, 0), (8, 0)] {
        let mut state = DialogueState(from, 1);
        state.next_scene(0, 0, 0);
        assert_eq!(state, DialogueState(to, 0));
    }
}

#[test]
fn narrative_loop_cycles_back_to_the_start() {
    let mut state = DialogueState(0, 0);
    state.next_scene(80, 0, 0); // sweet success
    assert_eq!(state.0, 1);
    state.next_scene(0, 0, 0);
    assert_eq!(state.0, 3);
    state.next_scene(0, 60, 0); // savory success
    assert_eq!(state.0, 4);
    state.next_scene(0, 0, 0);
    assert_eq!(state.0, 6);
    state.next_scene(0, 0, 30); // spooky success
    assert_eq!(state.0, 7);
    state.next_scene(0, 0, 0);
    assert_eq!(state.0, 0);
}

#[test]
fn character_assets_follow_the_arc() {
    assert_eq!(DialogueState(4, 0).left_character_path(), "characters/witch.png");
    for scene in 0..=2u32 {
        assert_eq!(DialogueState(scene, 0).right_character_path(), "characters/lady.png");
    }
    for scene in 3..=5u32 {
        assert_eq!(DialogueState(scene, 0).right_character_path(), "characters/guard.png");
    }
    for scene in 6..=8u32 {
        assert_eq!(DialogueState(scene, 0).right_character_path(), "characters/ghost.png");
    }
}

#[test]
fn frame_maxima_match_the_catalog() {
    let expected = [1u32, 1, 3, 3, 1, 3, 3, 2, 3];
    for (scene, want) in expected.iter().enumerate() {
        assert_eq!(DialogueState(scene as u32, 0).maximum(), *want);
    }
    assert_eq!(DialogueState(9, 0).maximum(), 0);
}

#[test]
fn dialogue_text_is_looked_up_by_scene_and_frame() {
    assert_eq!(DialogueState(0, 1).text(), "Of course! Coming right up.");
    assert_eq!(DialogueState(7, 2).text(), "No promises!");
    assert_eq!(
        DialogueState(6, 0).text(),
        "BOO! Give me something spooky or I'll haunt you for the rest of your life!"
    );
    assert_eq!(DialogueState(9, 0).text(), "You're not suppose to see this.");
    assert_eq!(DialogueState(0, 5).text(), "You're not suppose to see this.");
}
