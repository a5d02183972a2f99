//! The menu's settings: who plays, against whom, and how sharp the computer
//! opponent is.

use vstd::prelude::*;

use crate::board::Mark;

verus! {

/// A menu setting: a small copyable choice with a fixed caption for each
/// value.
pub trait Setting: Sized + Clone + Copy {
    /// The caption's characters.
    spec fn spec_label(&self) -> Seq<char>;

    /// The caption shown on the setting's menu button.
    fn label(&self) -> (r: &'static str)
        ensures
            r@ == self.spec_label(),
    ;
}

/// Which mark the human player controls in a one-player game.
#[derive(Clone, Copy, Debug, PartialEq, Eq, Structural)]
pub enum HumanMark {
    HumanX,
    HumanO,
}

impl HumanMark {
    /// Whether `mark` is the mark this setting puts in the human's hands.
    pub open spec fn spec_controls(self, mark: Mark) -> bool {
        match (self, mark) {
            (HumanMark::HumanX, Mark::X) => true,
            (HumanMark::HumanO, Mark::O) => true,
            _ => false,
        }
    }

    pub fn controls(&self, mark: Mark) -> (r: bool)
        ensures
            r == self.spec_controls(mark),
    {
        match (self, mark) {
            (HumanMark::HumanX, Mark::X) => true,
            (HumanMark::HumanO, Mark::O) => true,
            _ => false,
        }
    }

    /// Both choices, X first.
    pub fn variants() -> (r: Vec<HumanMark>)
        ensures
            r@ == seq![HumanMark::HumanX, HumanMark::HumanO],
    {
        let mut v: Vec<HumanMark> = Vec::new();
        v.push(HumanMark::HumanX);
        v.push(HumanMark::HumanO);
        proof {
            assert(v@ =~= seq![HumanMark::HumanX, HumanMark::HumanO]);
        }
        v
    }
}

impl Setting for HumanMark {
    open spec fn spec_label(&self) -> Seq<char> {
        match self {
            HumanMark::HumanX => "Human X"@,
            HumanMark::HumanO => "Human O"@,
        }
    }

    fn label(&self) -> (r: &'static str) {
        match self {
            HumanMark::HumanX => "Human X",
            HumanMark::HumanO => "Human O",
        }
    }
}

/// How well the computer opponent plays.
#[derive(Clone, Copy, Debug, PartialEq, Eq, Structural)]
pub enum Difficulty {
    Easy,
    Medium,
    Hard,
}

impl Difficulty {
    /// The three levels, easiest first.
    pub fn variants() -> (r: Vec<Difficulty>)
        ensures
            r@ == seq![Difficulty::Easy, Difficulty::Medium, Difficulty::Hard],
    {
        let mut v: Vec<Difficulty> = Vec::new();
        v.push(Difficulty::Easy);
        v.push(Difficulty::Medium);
        v.push(Difficulty::Hard);
        proof {
            assert(v@ =~= seq![Difficulty::Easy, Difficulty::Medium, Difficulty::Hard]);
        }
        v
    }
}

impl Setting for Difficulty {
    open spec fn spec_label(&self) -> Seq<char> {
        match self {
            Difficulty::Easy => "Easy"@,
            Difficulty::Medium => "Medium"@,
            Difficulty::Hard => "Hard"@,
        }
    }

    fn label(&self) -> (r: &'static str) {
        match self {
            Difficulty::Easy => "Easy",
            Difficulty::Medium => "Medium",
            Difficulty::Hard => "Hard",
        }
    }
}

/// Whether one human plays the computer or two humans share the board.
#[derive(Clone, Copy, Debug, PartialEq, Eq, Structural)]
pub enum GameMode {
    OnePlayer,
    TwoPlayers,
}

impl GameMode {
    /// Both modes, single-player first.
    pub fn variants() -> (r: Vec<GameMode>)
        ensures
            r@ == seq![GameMode::OnePlayer, GameMode::TwoPlayers],
    {
        let mut v: Vec<GameMode> = Vec::new();
        v.push(GameMode::OnePlayer);
        v.push(GameMode::TwoPlayers);
        proof {
            assert(v@ =~= seq![GameMode::OnePlayer, GameMode::TwoPlayers]);
        }
        v
    }
}

impl Setting for GameMode {
    open spec fn spec_label(&self) -> Seq<char> {
        match self {
            GameMode::OnePlayer => "One Player"@,
            GameMode::TwoPlayers => "Two Players"@,
        }
    }

    fn label(&self) -> (r: &'static str) {
        match self {
            GameMode::OnePlayer => "One Player",
            GameMode::TwoPlayers => "Two Players",
        }
    }
}

} // verus!
