//! The dialogue state machine: scene/frame progression, per-scene frame
//! limits, text and character-asset lookup, and the branch rule that picks
//! the next scene from the trait deltas of the most recent combination.
//!
//! Scenes 0..=8 form a cyclic graph. Scenes 0, 3 and 6 end in the cooking
//! minigame; the others return to dialogue through an intermission. Each
//! branch point reads exactly one trait axis: scene 0 the sweet axis,
//! scene 3 the savory axis, scene 6 the spooky axis, with strict `>`
//! threshold guards, so ties take the disappointed branch.

use vstd::prelude::*;

verus! {

/// The live narrative state: current scene id and current frame index
/// within that scene.
#[derive(Debug, Clone, PartialEq, Eq, PartialOrd, Ord, Hash, Structural)]
pub struct DialogueState(pub u32, pub u32);

/// Where control goes after a frame advance: stay in dialogue, enter the
/// cooking minigame, or pass through an intermission back to dialogue.
#[derive(Debug, Clone, Copy, PartialEq, Eq, Structural)]
pub enum TransitionTo {
    Cooking,
    Intermission,
    Dialogue,
}

/// The id of the last authored scene.
pub const LAST_SCENE: u32 = 8;

/// The maximum valid frame index of a scene (the index of its final frame).
/// Total: scenes outside the catalog have a single frame at index 0.
pub open spec fn spec_maximum(scene: u32) -> u32 {
    match scene {
        0u32 => 1u32,
        1u32 => 1u32,
        2u32 => 3u32,
        3u32 => 3u32,
        4u32 => 1u32,
        5u32 => 3u32,
        6u32 => 3u32,
        7u32 => 2u32,
        8u32 => 3u32,
        _ => 0u32,
    }
}

/// Whether a scene ends in the cooking minigame rather than an
/// intermission.
pub open spec fn is_cooking_scene(scene: u32) -> bool {
    scene == 0 || scene == 3 || scene == 6
}

/// A well-formed narrative state: an authored scene with the frame inside
/// that scene's bounds.
pub open spec fn wf_state(s: DialogueState) -> bool {
    s.0 <= LAST_SCENE && s.1 <= spec_maximum(s.0)
}

/// The branch table: the scene that follows `scene` given the trait deltas
/// of the most recent combination. Each branch point reads one axis with a
/// strict threshold; the other scenes transition unconditionally, and
/// scenes 7 and 8 loop back to the start.
pub open spec fn next_scene_spec(scene: u32, sweet: u32, savory: u32, spooky: u32) -> u32 {
    if scene == 0 {
        if sweet > 75 {
            1u32
        } else {
            2u32
        }
    } else if scene == 1 || scene == 2 {
        3u32
    } else if scene == 3 {
        if savory > 55 {
            4u32
        } else {
            5u32
        }
    } else if scene == 4 || scene == 5 {
        6u32
    } else if scene == 6 {
        if spooky > 20 {
            7u32
        } else {
            8u32
        }
    } else {
        0u32
    }
}

/// The state after one frame advance: the frame moves up by one until the
/// final frame of the scene, then stays put.
pub open spec fn frame_advanced(s: DialogueState) -> DialogueState {
    if s.1 < spec_maximum(s.0) {
        DialogueState(s.0, (s.1 + 1) as u32)
    } else {
        s
    }
}

/// The outcome of one frame advance: `Dialogue` while frames remain; on a
/// completed scene, `Cooking` for a minigame scene and `Intermission`
/// otherwise.
pub open spec fn frame_outcome(s: DialogueState) -> TransitionTo {
    if s.1 < spec_maximum(s.0) {
        TransitionTo::Dialogue
    } else if is_cooking_scene(s.0) {
        TransitionTo::Cooking
    } else {
        TransitionTo::Intermission
    }
}

/// The state after `k` frame advances.
pub open spec fn frames_advanced(s: DialogueState, k: nat) -> DialogueState
    decreases k,
{
    if k == 0 {
        s
    } else {
        frame_advanced(frames_advanced(s, (k - 1) as nat))
    }
}

/// The path of the asset drawn on the left: always the witch.
pub open spec fn left_character_spec() -> Seq<char> {
    "characters/witch.png"@
}

/// The path of the asset drawn on the right: the visitor of the current
/// three-scene arc (the lady, the guard, then the ghost).
pub open spec fn right_character_spec(scene: u32) -> Seq<char> {
    if scene <= 2 {
        "characters/lady.png"@
    } else if scene <= 5 {
        "characters/guard.png"@
    } else {
        "characters/ghost.png"@
    }
}

/// The dialogue line shown at a (scene, frame) pair. Total: pairs outside
/// the catalog get a placeholder line that no reachable state displays.
pub open spec fn spec_text(scene: u32, frame: u32) -> Seq<char> {
    match (scene, frame) {
        (0u32, 0u32) => "Witch's Brew! Welcome to the village, I'm Matilda. I've always wanted to try the sweets made by witches back home and never hade the chance. Please would you mind brewing me something sweet?"@,
        (0u32, 1u32) => "Of course! Coming right up."@,
        (1u32, 0u32) => "Oh my, this is positively delightful, I love it! Thank you so much, my sweet tooth is very satisfied"@,
        (1u32, 1u32) => "You're welcome! Come back again soon!"@,
        (2u32, 0u32) => "Ah, you really haven't perfected your craft yet have you? This isn't that sweet at all..."@,
        (2u32, 1u32) => "..."@,
        (2u32, 2u32) => "Oh don't worry dear, I'll come by tomorrow to give you more practice."@,
        (2u32, 3u32) => "..."@,
        (3u32, 0u32) => "Lady witch, I'm part of Manor's guard for Duke Trichondri."@,
        (3u32, 1u32) => "Oh, uh, welcome sir, what can I do for you?"@,
        (3u32, 2u32) => "I need something savory this evening Lady witch, please indulge me."@,
        (3u32, 3u32) => "Okay! Coming right up!"@,
        (4u32, 0u32) => "Splendid! I've never had such a savory meal since my mother's home cooking! You have done a splendid job Lady witch, I'll be sure to tell my fellow guardsmen to visit your Witch's Brew."@,
        (4u32, 1u32) => "You're too kind sir! You'll make me blush."@,
        (5u32, 0u32) => "Disaster! You call this savory? What are you thinking!? You shouldn't be let near an ingredient or a stew for the rest of your life!"@,
        (5u32, 1u32) => "Dear sir! That is quite disrespectful!"@,
        (5u32, 2u32) => "Harumph! Maybe next time learn your way around salt shaker and seasoning palette!"@,
        (5u32, 3u32) => "..."@,
        (6u32, 0u32) => "BOO! Give me something spooky or I'll haunt you for the rest of your life!"@,
        (6u32, 1u32) => "Aww, you're so cute, I don't think I would mind!"@,
        (6u32, 2u32) => "Wait, hold on, I really want a spooky meal though! Listen, I'll haunt all your customers so they never return! Haha!"@,
        (6u32, 3u32) => "Alright! Alright! Calm down, I'll whip up something spooky just for you"@,
        (7u32, 0u32) => "Spooooky! I love it! I'll scare so many new people with this, Mwahahaha!"@,
        (7u32, 1u32) => "I'm glad you like it! Don't scare my customers okay?"@,
        (7u32, 2u32) => "No promises!"@,
        (8u32, 0u32) => "You call THIS spooky!? You call THIS scary!? I've never been so insulted in my afterlife!"@,
        (8u32, 1u32) => "Ah, wait! Give me a second chance cute ghost!"@,
        (8u32, 2u32) => "There are no second changes in the afterlife!"@,
        (8u32, 3u32) => "Isn't the afterlife a second chance?..."@,
        _ => "You're not suppose to see this."@,
    }
}

impl DialogueState {
    /// The path of the asset drawn on the left side of the stage.
    pub fn left_character_path(&self) -> (r: &'static str)
        ensures
            r@ == left_character_spec(),
    {
        "characters/witch.png"
    }

    /// The path of the asset drawn on the right side of the stage.
    pub fn right_character_path(&self) -> (r: &'static str)
        requires
            self.0 <= LAST_SCENE,
        ensures
            r@ == right_character_spec(self.0),
    {
        let DialogueState(id, _) = self;
        match id {
            0 | 1 | 2 => "characters/lady.png",
            3 | 4 | 5 => "characters/guard.png",
            _ => "characters/ghost.png",
        }
    }

    /// The maximum valid frame index of the current scene.
    pub fn maximum(&self) -> (r: u32)
        ensures
            r == spec_maximum(self.0),
    {
        let DialogueState(id, _) = self;
        match id {
            0 => 1,
            1 => 1,
            2 => 3,
            3 => 3,
            4 => 1,
            5 => 3,
            6 => 3,
            7 => 2,
            8 => 3,
            _ => 0,
        }
    }

    /// The dialogue line of the current frame.
    pub fn text(&self) -> (r: &'static str)
        ensures
            r@ == spec_text(self.0, self.1),
    {
        let DialogueState(id, frame) = self;
        match (id, frame) {
            (0, 0) => "Witch's Brew! Welcome to the village, I'm Matilda. I've always wanted to try the sweets made by witches back home and never hade the chance. Please would you mind brewing me something sweet?",
            (0, 1) => "Of course! Coming right up.",

            (1, 0) => "Oh my, this is positively delightful, I love it! Thank you so much, my sweet tooth is very satisfied",
            (1, 1) => "You're welcome! Come back again soon!",

            (2, 0) => "Ah, you really haven't perfected your craft yet have you? This isn't that sweet at all...",
            (2, 1) => "...",
            (2, 2) => "Oh don't worry dear, I'll come by tomorrow to give you more practice.",
            (2, 3) => "...",

            (3, 0) => "Lady witch, I'm part of Manor's guard for Duke Trichondri.",
            (3, 1) => "Oh, uh, welcome sir, what can I do for you?",
            (3, 2) => "I need something savory this evening Lady witch, please indulge me.",
            (3, 3) => "Okay! Coming right up!",

            (4, 0) => "Splendid! I've never had such a savory meal since my mother's home cooking! You have done a splendid job Lady witch, I'll be sure to tell my fellow guardsmen to visit your Witch's Brew.",
            (4, 1) => "You're too kind sir! You'll make me blush.",

            (5, 0) => "Disaster! You call this savory? What are you thinking!? You shouldn't be let near an ingredient or a stew for the rest of your life!",
            (5, 1) => "Dear sir! That is quite disrespectful!",
            (5, 2) => "Harumph! Maybe next time learn your way around salt shaker and seasoning palette!",
            (5, 3) => "...",

            (6, 0) => "BOO! Give me something spooky or I'll haunt you for the rest of your life!",
            (6, 1) => "Aww, you're so cute, I don't think I would mind!",
            (6, 2) => "Wait, hold on, I really want a spooky meal though! Listen, I'll haunt all your customers so they never return! Haha!",
            (6, 3) => "Alright! Alright! Calm down, I'll whip up something spooky just for you",

            (7, 0) => "Spooooky! I love it! I'll scare so many new people with this, Mwahahaha!",
            (7, 1) => "I'm glad you like it! Don't scare my customers okay?",
            (7, 2) => "No promises!",

            (8, 0) => "You call THIS spooky!? You call THIS scary!? I've never been so insulted in my afterlife!",
            (8, 1) => "Ah, wait! Give me a second chance cute ghost!",
            (8, 2) => "There are no second changes in the afterlife!",
            (8, 3) => "Isn't the afterlife a second chance?...",

            _ => "You're not suppose to see this.",
        }
    }

    /// Moves to the scene the branch table selects for the current scene
    /// and the given trait deltas, and resets the frame to 0.
    pub fn next_scene(&mut self, sweet: u32, savory: u32, spooky: u32)
        requires
            old(self).0 <= LAST_SCENE,
        ensures
            final(self).0 == next_scene_spec(old(self).0, sweet, savory, spooky),
            final(self).1 == 0,
            wf_state(*final(self)),
    {
        let DialogueState(scene, frame) = self;
        *frame = 0;
        match (*scene, sweet, savory, spooky) {
            (0, x, _, _) if x > 75 => {
                *scene = 1;
            },
            (0, _, _, _) => {
                *scene = 2;
            },
            (1, _, _, _) | (2, _, _, _) => {
                *scene = 3;
            },
            (3, _, x, _) if x > 55 => {
                *scene = 4;
            },
            (3, _, _, _) => {
                *scene = 5;
            },
            (4, _, _, _) | (5, _, _, _) => {
                *scene = 6;
            },
            (6, _, _, x) if x > 20 => {
                *scene = 7;
            },
            (6, _, _, _) => {
                *scene = 8;
            },
            _ => {
                *scene = 0;
            },
        }
    }

    /// Advances one frame within the current scene; on a scene already at
    /// its final frame, leaves the state unchanged and reports where
    /// control goes next.
    pub fn next_frame(&mut self) -> (r: TransitionTo)
        ensures
            *final(self) == frame_advanced(*old(self)),
            r == frame_outcome(*old(self)),
            wf_state(*old(self)) ==> wf_state(*final(self)),
    {
        let maximum = self.maximum();
        let mut last_frame = true;
        let DialogueState(scene, frame) = self;
        if *frame < maximum {
            *frame += 1;
            last_frame = false;
        }
        let cooking_scene = *scene == 0 || *scene == 3 || *scene == 6;
        if last_frame && cooking_scene {
            TransitionTo::Cooking
        } else if last_frame && !cooking_scene {
            TransitionTo::Intermission
        } else {
            TransitionTo::Dialogue
        }
    }
}

/// Law: frame advancing keeps the frame within the scene's bounds. From a
/// well-formed state the frame never exceeds the scene's maximum.
pub proof fn lemma_frame_bounds(s: DialogueState)
    requires
        s.1 <= spec_maximum(s.0),
    ensures
        frame_advanced(s).1 <= spec_maximum(frame_advanced(s).0),
{
}

/// Law: from frame 0, each of the first `maximum` advances stays in the
/// scene with the frame counting up, reporting `Dialogue` before the final
/// frame; the advance made at the final frame is the first to report a
/// scene completion.
pub proof fn lemma_scene_completion(s: DialogueState, k: nat)
    requires
        s.1 == 0,
        k <= spec_maximum(s.0),
    ensures
        frames_advanced(s, k).0 == s.0,
        frames_advanced(s, k).1 == k,
        k < spec_maximum(s.0) ==> frame_outcome(frames_advanced(s, k)) == TransitionTo::Dialogue,
        k == spec_maximum(s.0) ==> frame_outcome(frames_advanced(s, k)) != TransitionTo::Dialogue,
    decreases k,
{
    if k > 0 {
        lemma_scene_completion(s, (k - 1) as nat);
    }
}

/// Law: branch selection is deterministic. The next scene is a function of
/// the current scene and the trait deltas alone: two states in the same
/// scene, handed the same deltas, branch to the same scene.
pub proof fn lemma_branch_deterministic(s1: DialogueState, s2: DialogueState, sweet: u32, savory: u32, spooky: u32)
    requires
        s1.0 == s2.0,
    ensures
        next_scene_spec(s1.0, sweet, savory, spooky) == next_scene_spec(s2.0, sweet, savory, spooky),
{
}

} // verus!
