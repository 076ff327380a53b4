//! The entity data model: a single simulated actor (a hacker) with its
//! cosmetic glyph selection.

use vstd::prelude::*;

verus! {

/// The emotional state of an entity. Cosmetic only: it is picked at
/// creation and never changed by any input handler.
#[derive(Clone, Copy, Debug, PartialEq, Eq, Structural)]
pub enum HackerMood {
    Happy,
    Sad,
}

/// Whether an entity is on its seat. Changed only by the explicit
/// "stand up" input action on the tables screen.
#[derive(Clone, Copy, Debug, PartialEq, Eq, Structural)]
pub enum HackerSitState {
    Sitting,
    Standing,
}

/// A single simulated actor. `hunger` is dormant state: declared, never
/// read or written by any behavior, and preserved as plain data.
/// `position` is a (column, row) pair of grid coordinates, fixed at spawn.
#[derive(Clone, Copy, Debug, PartialEq, Eq)]
pub struct Hacker {
    pub mood: HackerMood,
    pub hunger: u32,
    pub sit_state: HackerSitState,
    pub position: (u16, u16),
}

/// The face glyph for each mood: a smiling face for Happy, a frowning
/// one for Sad.
pub open spec fn face_glyph(m: HackerMood) -> char {
    match m {
        HackerMood::Happy => '\u{1F642}',
        HackerMood::Sad => '\u{1F641}',
    }
}

/// The chair glyph for each sitting state: a seat for Sitting, a
/// distinct "empty seat" symbol for Standing.
pub open spec fn chair_glyph(s: HackerSitState) -> char {
    match s {
        HackerSitState::Sitting => '\u{1F4BA}',
        HackerSitState::Standing => '\u{4DCB}',
    }
}

impl Hacker {
    /// The character representing the mood of this hacker.
    pub fn face(&self) -> (c: char)
        ensures
            c == face_glyph(self.mood),
    {
        match self.mood {
            HackerMood::Happy => '\u{1F642}',
            HackerMood::Sad => '\u{1F641}',
        }
    }

    /// The character representing the chair (or lack thereof) of this hacker.
    pub fn chair(&self) -> (c: char)
        ensures
            c == chair_glyph(self.sit_state),
    {
        match self.sit_state {
            HackerSitState::Sitting => '\u{1F4BA}',
            HackerSitState::Standing => '\u{4DCB}',
        }
    }
}

impl Default for Hacker {
    /// A freshly spawned hacker: happy, fed, sitting, at the origin.
    fn default() -> (h: Hacker)
        ensures
            h.mood == HackerMood::Happy,
            h.hunger == 0,
            h.sit_state == HackerSitState::Sitting,
            h.position.0 == 0 && h.position.1 == 0,
    {
        Hacker {
            mood: HackerMood::Happy,
            hunger: 0,
            sit_state: HackerSitState::Sitting,
            position: (0, 0),
        }
    }
}

/// Law: the face glyph is a function of the mood alone, with exactly two
/// possible outputs, one per mood variant, and the two are distinct.
pub proof fn lemma_face_glyph_two_outputs(m: HackerMood)
    ensures
        face_glyph(m) == face_glyph(HackerMood::Happy) || face_glyph(m) == face_glyph(
            HackerMood::Sad,
        ),
        face_glyph(HackerMood::Happy) != face_glyph(HackerMood::Sad),
{
}

/// Law: the chair glyph is a function of the sitting state alone, with
/// exactly two possible outputs, one per variant, and the two are distinct.
pub proof fn lemma_chair_glyph_two_outputs(s: HackerSitState)
    ensures
        chair_glyph(s) == chair_glyph(HackerSitState::Sitting) || chair_glyph(s) == chair_glyph(
            HackerSitState::Standing,
        ),
        chair_glyph(HackerSitState::Sitting) != chair_glyph(HackerSitState::Standing),
{
}

} // verus!
