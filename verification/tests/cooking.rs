use witchs_brew::cooking::CookingSelection;

const FAILURE_ASSET: &str = "combinations/failure.png";
const FALLBACK_DESCRIPTION: &str = "Combination description.";

#[test]
fn selection_buffer_rolls_and_resolves() {
    let mut selection = CookingSelection(0, 0);
    selection.update(1);
    assert_eq!(selection, CookingSelection(0, 1));
    selection.update(2);
    assert_eq!(selection, CookingSelection(1, 2));
    assert_eq!(selection.canonical_pair(), (1, 2));
    let (asset, description, sweet, savory, spooky) = selection.combination_data();
    assert_eq!(asset, FAILURE_ASSET);
    assert!(description.contains("pumpkins and skulls"));
    assert_eq!((sweet, savory, spooky), (0, 0, 0));
}

#[test]
fn update_accepts_the_sentinel() {
    let mut selection = CookingSelection(4, 5);
    selection.update(0);
    assert_eq!(selection, CookingSelection(5, 0));
}

#[test]
fn canonical_pair_orders_both_ways() {
    assert_eq!(CookingSelection(5, 2).canonical_pair(), (2, 5));
    assert_eq!(CookingSelection(2, 5).canonical_pair(), (2, 5));
    assert_eq!(CookingSelection(3, 3).canonical_pair(), (3, 3));
}

#[test]
fn resolution_is_commutative() {
    for a in 0..8u32 {
        for b in 0..8u32 {
            let one = CookingSelection(a, b).combination_data();
            let other = CookingSelection(b, a).combination_data();
            assert_eq!(one, other);
        }
    }
}

#[test]
fn unauthored_pairs_resolve_to_the_fallback() {
    for &(a, b) in &[(0, 0), (0, 3), (3, 0), (7, 7), (1, 9), (0, 6)] {
        let (asset, description, sweet, savory, spooky) =
            CookingSelection(a, b).combination_data();
        assert_eq!(asset, "");
        assert_eq!(description, FALLBACK_DESCRIPTION);
        assert_eq!((sweet, savory, spooky), (0, 0, 0));
    }
}

#[test]
fn combination_trait_deltas_match_the_table() {
    let (asset, _, sweet, savory, spooky) = CookingSelection(1, 1).combination_data();
    assert_eq!(asset, "combinations/pumpkin_mash.png");
    assert_eq!((sweet, savory, spooky), (35, 60, 5));

    let (asset, _, sweet, savory, spooky) = CookingSelection(3, 5).combination_data();
    assert_eq!(asset, "combinations/chocolate_chip_cookie.png");
    assert_eq!((sweet, savory, spooky), (100, 0, 0));

    let (asset, _, sweet, savory, spooky) = CookingSelection(6, 6).combination_data();
    assert_eq!(asset, "combinations/black_coffee.png");
    assert_eq!((sweet, savory, spooky), (0, 100, 0));

    let (asset, _, sweet, savory, spooky) = CookingSelection(4, 2).combination_data();
    assert_eq!(asset, "combinations/bone_marrow_wine.png");
    assert_eq!((sweet, savory, spooky), (0, 60, 40));
}

#[test]
fn designed_failures_are_authored_not_fallback() {
    for &(a, b) in &[(1, 2), (1, 4), (2, 2), (2, 3), (2, 6), (4, 6)] {
        let (asset, description, sweet, savory, spooky) =
            CookingSelection(a, b).combination_data();
        assert_eq!(asset, FAILURE_ASSET);
        assert_ne!(description, FALLBACK_DESCRIPTION);
        assert_eq!((sweet, savory, spooky), (0, 0, 0));
    }
}

#[test]
fn reset_clears_both_slots() {
    let mut selection = CookingSelection(3, 4);
    selection.reset();
    assert_eq!(selection, CookingSelection(0, 0));
}

#[test]
fn reset_twice_equals_reset_once() {
    let mut once = CookingSelection(3, 4);
    once.reset();
    let mut twice = CookingSelection(3, 4);
    twice.reset();
    twice.reset();
    assert_eq!(once, twice);
}

#[test]
fn item_paths_cover_the_grid() {
    assert_eq!(CookingSelection::item_path(0, 0), "items/chocolate.png");
    assert_eq!(CookingSelection::item_path(1, 0), "items/coffee_beans.png");
    assert_eq!(CookingSelection::item_path(0, 1), "items/egg.png");
    assert_eq!(CookingSelection::item_path(1, 1), "items/grapes.png");
    assert_eq!(CookingSelection::item_path(0, 2), "items/pumpkin.png");
    assert_eq!(CookingSelection::item_path(1, 2), "items/skull.png");
}

#[test]
fn selection_text_names_both_slots() {
    assert_eq!(CookingSelection(1, 2).text(), "Select ingredients 1 and 2");
    assert_eq!(CookingSelection(0, 0).text(), "Select ingredients 0 and 0");
    assert_eq!(CookingSelection(6, 40).text(), "Select ingredients 6 and 40");
}
