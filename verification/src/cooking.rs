//! The recipe-resolution engine: the ingredient selection buffer, pair
//! canonicalization, and the combination table that maps a canonical pair of
//! ingredient ids to a crafted result (asset path, description) plus the
//! three trait deltas (sweet, savory, spooky).
//!
//! Ingredient ids: 1 pumpkin, 2 skull, 3 egg, 4 grapes, 5 chocolate,
//! 6 coffee beans; 0 is the sentinel for "no selection yet".

use vstd::prelude::*;

use crate::numeral::decimal_of;
use crate::numeral::decimal_string;

verus! {

/// The two most recently selected ingredient ids, insertion order
/// significant: slot 0 is the previous selection, slot 1 the current one.
#[derive(Debug, Clone, PartialEq, Eq, PartialOrd, Ord, Hash, Structural)]
pub struct CookingSelection(pub u32, pub u32);

/// The smaller id of a pair: the first component of the canonical key.
pub open spec fn canon_lo(a: u32, b: u32) -> u32 {
    if a <= b {
        a
    } else {
        b
    }
}

/// The larger id of a pair: the second component of the canonical key.
pub open spec fn canon_hi(a: u32, b: u32) -> u32 {
    if a <= b {
        b
    } else {
        a
    }
}

/// Whether a canonical pair has a row in the authored combination table.
/// The table covers exactly the canonical pairs of genuine ingredient ids.
pub open spec fn authored(lo: u32, hi: u32) -> bool {
    1 <= lo <= hi <= 6
}

/// The designated result for any pair outside the authored table: no asset,
/// a placeholder description, and zero on every trait axis.
pub open spec fn fallback_combination() -> (Seq<char>, Seq<char>, u32, u32, u32) {
    (""@, r#"Combination description."#@, 0u32, 0u32, 0u32)
}

/// The authored combination table, indexed by canonical (lo, hi) pairs:
/// asset path, description, and the (sweet, savory, spooky) trait deltas.
pub open spec fn combination_spec(lo: u32, hi: u32) -> (Seq<char>, Seq<char>, u32, u32, u32) {
    match (lo, hi) {
        (1u32, 1u32) => (
            "combinations/pumpkin_mash.png"@,
            r#"Like mom's mash potatoes but with the superior vegetable. Pumpkin mash is the perfect fall side dish to round out any meaty plate."#@,
            35u32,
            60u32,
            5u32,
        ),
        (1u32, 2u32) => (
            "combinations/failure.png"@,
            r#"In a puff of smoke, pumpkins and skulls just don't seem to mix!"#@,
            0u32,
            0u32,
            0u32,
        ),
        (1u32, 3u32) => (
            "combinations/pumpkin_pie.png"@,
            r#"A classic favorite. Pumpkin pie is delicious but not too sweet. The kids will love it and their teeth will too."#@,
            70u32,
            30u32,
            0u32,
        ),
        (1u32, 4u32) => (
            "combinations/failure.png"@,
            r#"In a puff of smoke, pumpkins and grapes just don't seem to mix!"#@,
            0u32,
            0u32,
            0u32,
        ),
        (1u32, 5u32) => (
            "combinations/pumpkin_spice_chocolate_bar.png"@,
            r#"Chocolate is always better cut with an earthy flavor, but make no mistake these candy bars are packed with sugar! Enjoy your lovable pumpkin aroma in a new chocolatey way."#@,
            85u32,
            15u32,
            0u32,
        ),
        (1u32, 6u32) => (
            "combinations/pumpkin_spice_latte.png"@,
            r#"Not just for your coffee enthusiast! Pumpkin spice is as Halloween as it gets. Don't sleep on a tasty spicy treat that's quite sweet."#@,
            50u32,
            50u32,
            0u32,
        ),
        (2u32, 2u32) => (
            "combinations/failure.png"@,
            r#"In a puff of smoke, skulls just don't seem to mix!"#@,
            0u32,
            0u32,
            0u32,
        ),
        (2u32, 3u32) => (
            "combinations/failure.png"@,
            r#"In a puff of smoke, skull and egg just doesn't seem to mix!"#@,
            0u32,
            0u32,
            0u32,
        ),
        (2u32, 4u32) => (
            "combinations/bone_marrow_wine.png"@,
            r#"What's better than an afternoon in front of the fire place with a cool glass of Bone Marrow Wine? Unlike other wine's you might try this one is infused with the life force of a once living being. Perfect for your fledgling vampire friends."#@,
            0u32,
            60u32,
            40u32,
        ),
        (2u32, 5u32) => (
            "combinations/chocolate_skull_fondue.png"@,
            r#"Chocolate fondue is great on it's own, so why not pair it with the dread of death? Skull fondue is like ecstasy with a dash of existential crisis. Zombies seem to love it the most!"#@,
            60u32,
            0u32,
            40u32,
        ),
        (2u32, 6u32) => (
            "combinations/failure.png"@,
            r#"In a puff of smoke, skull and coffee beans just doesn't seem to mix!"#@,
            0u32,
            0u32,
            0u32,
        ),
        (3u32, 3u32) => (
            "combinations/egg_over_easy.png"@,
            r#"Eggs over easy is as old as bread. Can you really go wrong with this one? Just enjoy yourself a nice lightly seasoned egg already!"#@,
            5u32,
            90u32,
            5u32,
        ),
        (3u32, 4u32) => (
            "combinations/egg_salad.png"@,
            r#"Grapes in an egg salad are the perfect sweet kick to an otherwise savory meal. Just imagine they're eye balls if it's not gruesome enough for you!"#@,
            5u32,
            80u32,
            15u32,
        ),
        (3u32, 5u32) => (
            "combinations/chocolate_chip_cookie.png"@,
            r#"Chocolate chip cookies are the perfect treat for a young boy and girl. Especially if you have to fatten them up first!"#@,
            100u32,
            0u32,
            0u32,
        ),
        (3u32, 6u32) => (
            "combinations/egg_coffee.png"@,
            r#"Egg coffee is known for it's double layers, a bottom layer of coffee and a top layer of tasty egg cream. Check your moustaches after this one fellas."#@,
            90u32,
            10u32,
            0u32,
        ),
        (4u32, 4u32) => (
            "combinations/grape_jam.png"@,
            r#"Grape jam is what brings everybody together! Is that a pigeon I see sitting on the lid of the jar? Hey, hey, what are you doing! Stop stealing my grape jam! I spent valuable hours on that! Hey! Stop it!"#@,
            60u32,
            20u32,
            20u32,
        ),
        (4u32, 5u32) => (
            "combinations/chocolate_covered_grapes.png"@,
            r#"The only thing better than chocolate covered strawberries are chocolate covered grapes! Did I remind you to just imagine they're eyeballs yet?"#@,
            95u32,
            5u32,
            0u32,
        ),
        (4u32, 6u32) => (
            "combinations/failure.png"@,
            r#"In a puff of smoke, grapes and coffee beans just doesn't seem to mix!"#@,
            0u32,
            0u32,
            0u32,
        ),
        (5u32, 5u32) => (
            "combinations/molten_dark_chocolate_candy.png"@,
            r#"Nothing is as delicious as a chocolate ball filled with molten chocolate. This lava is so hot it will sear right through your mandible. You'll scream in agony as you go in for another bite. The horror of it all is irresistible!"#@,
            80u32,
            0u32,
            20u32,
        ),
        (5u32, 6u32) => (
            "combinations/chocolate_espresso.png"@,
            r#"On the move with a sweet tooth? Chocolate espresso is lot a shot of pure adrenaline!"#@,
            50u32,
            50u32,
            0u32,
        ),
        (6u32, 6u32) => (
            "combinations/black_coffee.png"@,
            r#"One time I a werewolf told me that black coffee was the only solution to a transformation hangover. If it's just alcohol or something worse, give a straight black coffee a try to restart your senses."#@,
            0u32,
            100u32,
            0u32,
        ),
        _ => fallback_combination(),
    }
}

/// Resolving a selection: canonicalize the pair, then look up the table.
pub open spec fn resolve_spec(a: u32, b: u32) -> (Seq<char>, Seq<char>, u32, u32, u32) {
    combination_spec(canon_lo(a, b), canon_hi(a, b))
}

/// The selection value that `reset` leaves behind, whatever held before:
/// both slots at the sentinel.
pub open spec fn reset_spec(s: CookingSelection) -> CookingSelection {
    CookingSelection(0, 0)
}

/// The display line naming the two selected ingredient ids.
pub open spec fn selection_text_spec(first: u32, second: u32) -> Seq<char> {
    "Select ingredients "@ + decimal_of(first as nat) + " and "@ + decimal_of(second as nat)
}

/// The asset path of the item sprite at column `i`, row `j` of the
/// selection grid.
pub open spec fn item_path_spec(i: u32, j: u32) -> Seq<char> {
    match (i, j) {
        (0u32, 0u32) => "items/chocolate.png"@,
        (1u32, 0u32) => "items/coffee_beans.png"@,
        (0u32, 1u32) => "items/egg.png"@,
        (1u32, 1u32) => "items/grapes.png"@,
        (0u32, 2u32) => "items/pumpkin.png"@,
        _ => "items/skull.png"@,
    }
}

impl CookingSelection {
    /// Clears both slots to the sentinel.
    pub fn reset(&mut self)
        ensures
            *final(self) == reset_spec(*old(self)),
            final(self).0 == 0,
            final(self).1 == 0,
    {
        let CookingSelection(first, second) = self;
        *first = 0;
        *second = 0;
    }

    /// Rolls the selection window: the current choice becomes the previous
    /// one and `next` becomes current. Accepts any id, even the sentinel.
    pub fn update(&mut self, next: u32)
        ensures
            final(self).0 == old(self).1,
            final(self).1 == next,
    {
        let CookingSelection(first, second) = self;
        *first = *second;
        *second = next;
    }

    /// The canonical (min, max) key of the current pair. No slot is
    /// validated: a pair with a sentinel canonicalizes like any other.
    pub fn canonical_pair(&self) -> (r: (u32, u32))
        ensures
            r.0 == canon_lo(self.0, self.1),
            r.1 == canon_hi(self.0, self.1),
    {
        let CookingSelection(first, second) = self;
        if *first <= *second {
            (*first, *second)
        } else {
            (*second, *first)
        }
    }

    /// The asset path of the item sprite at column `i`, row `j` of the
    /// selection grid (two columns, three rows).
    pub fn item_path(i: u32, j: u32) -> (r: &'static str)
        requires
            i < 2,
            j < 3,
        ensures
            r@ == item_path_spec(i, j),
    {
        match (i, j) {
            (0, 0) => "items/chocolate.png",
            (1, 0) => "items/coffee_beans.png",
            (0, 1) => "items/egg.png",
            (1, 1) => "items/grapes.png",
            (0, 2) => "items/pumpkin.png",
            _ => "items/skull.png",
        }
    }

    /// The display line naming the current selection.
    pub fn text(&self) -> (r: String)
        ensures
            r@ == selection_text_spec(self.0, self.1),
    {
        let mut s = String::from_str("Select ingredients ");
        let first = decimal_string(self.0);
        s.append(first.as_str());
        s.append(" and ");
        let second = decimal_string(self.1);
        s.append(second.as_str());
        s
    }

    /// Resolves the current pair against the combination table: asset path,
    /// description, and the (sweet, savory, spooky) trait deltas. Total: a
    /// pair outside the table gets the fallback result, never an error.
    pub fn combination_data(&self) -> (r: (&'static str, &'static str, u32, u32, u32))
        ensures
            r.0@ == resolve_spec(self.0, self.1).0,
            r.1@ == resolve_spec(self.0, self.1).1,
            r.2 == resolve_spec(self.0, self.1).2,
            r.3 == resolve_spec(self.0, self.1).3,
            r.4 == resolve_spec(self.0, self.1).4,
    {
        let CookingSelection(first, second) = self;
        let i = if *first <= *second {
            *first
        } else {
            *second
        };
        let j = if *first <= *second {
            *second
        } else {
            *first
        };
        match (i, j) {
            (1, 1) => ("combinations/pumpkin_mash.png",
                r#"Like mom's mash potatoes but with the superior vegetable. Pumpkin mash is the perfect fall side dish to round out any meaty plate."#
                , 35, 60, 5
            ),
            (1, 2) => ("combinations/failure.png",
                r#"In a puff of smoke, pumpkins and skulls just don't seem to mix!"#
                , 0, 0, 0
            ),
            (1, 3) => ("combinations/pumpkin_pie.png",
                r#"A classic favorite. Pumpkin pie is delicious but not too sweet. The kids will love it and their teeth will too."#
                , 70, 30, 0
            ),
            (1, 4) => ("combinations/failure.png",
                r#"In a puff of smoke, pumpkins and grapes just don't seem to mix!"#
                , 0, 0, 0
            ),
            (1, 5) => ("combinations/pumpkin_spice_chocolate_bar.png",
                r#"Chocolate is always better cut with an earthy flavor, but make no mistake these candy bars are packed with sugar! Enjoy your lovable pumpkin aroma in a new chocolatey way."#
                , 85, 15, 0
            ),
            (1, 6) => ("combinations/pumpkin_spice_latte.png",
                r#"Not just for your coffee enthusiast! Pumpkin spice is as Halloween as it gets. Don't sleep on a tasty spicy treat that's quite sweet."#
                , 50, 50, 0
            ),
            (2, 2) => ("combinations/failure.png",
                r#"In a puff of smoke, skulls just don't seem to mix!"#
                , 0, 0, 0
            ),
            (2, 3) => ("combinations/failure.png",
                r#"In a puff of smoke, skull and egg just doesn't seem to mix!"#
                , 0, 0, 0
            ),
            (2, 4) => ("combinations/bone_marrow_wine.png",
                r#"What's better than an afternoon in front of the fire place with a cool glass of Bone Marrow Wine? Unlike other wine's you might try this one is infused with the life force of a once living being. Perfect for your fledgling vampire friends."#
                , 0, 60, 40
            ),
            (2, 5) => ("combinations/chocolate_skull_fondue.png",
                r#"Chocolate fondue is great on it's own, so why not pair it with the dread of death? Skull fondue is like ecstasy with a dash of existential crisis. Zombies seem to love it the most!"#
                , 60, 0, 40
            ),
            (2, 6) => ("combinations/failure.png",
                r#"In a puff of smoke, skull and coffee beans just doesn't seem to mix!"#
                , 0, 0, 0
            ),
            (3, 3) => ("combinations/egg_over_easy.png",
                r#"Eggs over easy is as old as bread. Can you really go wrong with this one? Just enjoy yourself a nice lightly seasoned egg already!"#
                , 5, 90, 5
            ),
            (3, 4) => ("combinations/egg_salad.png",
                r#"Grapes in an egg salad are the perfect sweet kick to an otherwise savory meal. Just imagine they're eye balls if it's not gruesome enough for you!"#
                , 5, 80, 15
            ),
            (3, 5) => ("combinations/chocolate_chip_cookie.png",
                r#"Chocolate chip cookies are the perfect treat for a young boy and girl. Especially if you have to fatten them up first!"#
                , 100, 0, 0
            ),
            (3, 6) => ("combinations/egg_coffee.png",
                r#"Egg coffee is known for it's double layers, a bottom layer of coffee and a top layer of tasty egg cream. Check your moustaches after this one fellas."#
                , 90, 10, 0
            ),
            (4, 4) => ("combinations/grape_jam.png",
                r#"Grape jam is what brings everybody together! Is that a pigeon I see sitting on the lid of the jar? Hey, hey, what are you doing! Stop stealing my grape jam! I spent valuable hours on that! Hey! Stop it!"#
                , 60, 20, 20
            ),
            (4, 5) => ("combinations/chocolate_covered_grapes.png",
                r#"The only thing better than chocolate covered strawberries are chocolate covered grapes! Did I remind you to just imagine they're eyeballs yet?"#
                , 95, 5, 0
            ),
            (4, 6) => ("combinations/failure.png",
                r#"In a puff of smoke, grapes and coffee beans just doesn't seem to mix!"#
                , 0, 0, 0
            ),
            (5, 5) => ("combinations/molten_dark_chocolate_candy.png",
                r#"Nothing is as delicious as a chocolate ball filled with molten chocolate. This lava is so hot it will sear right through your mandible. You'll scream in agony as you go in for another bite. The horror of it all is irresistible!"#
                , 80, 0, 20
            ),
            (5, 6) => ("combinations/chocolate_espresso.png",
                r#"On the move with a sweet tooth? Chocolate espresso is lot a shot of pure adrenaline!"#
                , 50, 50, 0
            ),
            (6, 6) => ("combinations/black_coffee.png",
                r#"One time I a werewolf told me that black coffee was the only solution to a transformation hangover. If it's just alcohol or something worse, give a straight black coffee a try to restart your senses."#
                , 0, 100, 0
            ),
            _ => ("",
                r#"Combination description."#
                , 0, 0, 0
            ),
        }
    }
}

/// Law: resolution is commutative. The order the two ingredients were
/// picked in never changes the crafted result.
pub proof fn lemma_resolve_commutative(a: u32, b: u32)
    ensures
        resolve_spec(a, b) == resolve_spec(b, a),
{
}

/// Law: resolution is total. Every pair whose canonical form lies outside
/// the authored table resolves to the designated fallback result.
pub proof fn lemma_resolve_total(a: u32, b: u32)
    ensures
        !authored(canon_lo(a, b), canon_hi(a, b)) ==> resolve_spec(a, b)
            == fallback_combination(),
{
}

/// Law: `reset` is idempotent. Resetting a buffer twice in a row leaves it
/// in the same state as resetting it once.
pub proof fn lemma_reset_idempotent(s: CookingSelection)
    ensures
        reset_spec(reset_spec(s)) == reset_spec(s),
{
}

} // verus!
