//! The closed set of narrative outcomes.

use vstd::prelude::*;

verus! {

/// Every ending a route can register. `FinalBell` is the meta ending: it is
/// unlocked by the others and is not itself required for the unlock.
#[derive(Debug, Clone, Copy, PartialEq, Eq, Hash, Structural)]
pub enum GameEnding {
    TrueWake,
    CycleBreaker,
    Legend,
    Puppetmaster,
    FragmentedMind,
    SunkLegend,
    FinalBell,
}

/// Number of primary endings.
pub const PRIMARY_COUNT: usize = 6;

/// The primary endings as a set: every ending but the meta ending.
pub open spec fn primary_endings() -> Set<GameEnding> {
    Set::new(|e: GameEnding| e.is_primary_spec())
}

impl GameEnding {
    /// An ending is primary unless it is the meta ending.
    pub open spec fn is_primary_spec(self) -> bool {
        self != GameEnding::FinalBell
    }

    /// The small integer under which an ending is stored.
    pub open spec fn code_spec(self) -> u8 {
        match self {
            GameEnding::TrueWake => 0,
            GameEnding::CycleBreaker => 1,
            GameEnding::Legend => 2,
            GameEnding::Puppetmaster => 3,
            GameEnding::FragmentedMind => 4,
            GameEnding::SunkLegend => 5,
            GameEnding::FinalBell => 6,
        }
    }

    /// Whether this ending counts towards unlocking the meta ending.
    pub fn is_primary(&self) -> (b: bool)
        ensures
            b == self.is_primary_spec(),
    {
        match self {
            GameEnding::FinalBell => false,
            _ => true,
        }
    }

    /// The ending's storage code, distinct for distinct endings.
    pub fn code(&self) -> (c: u8)
        ensures
            c == self.code_spec(),
            c < 7,
    {
        match self {
            GameEnding::TrueWake => 0,
            GameEnding::CycleBreaker => 1,
            GameEnding::Legend => 2,
            GameEnding::Puppetmaster => 3,
            GameEnding::FragmentedMind => 4,
            GameEnding::SunkLegend => 5,
            GameEnding::FinalBell => 6,
        }
    }
}

/// Distinct endings have distinct codes, and every code is below seven.
pub proof fn lemma_code_injective(a: GameEnding, b: GameEnding)
    ensures
        a.code_spec() == b.code_spec() <==> a == b,
        a.code_spec() < 7,
{
}

/// The primary endings are exactly six.
pub proof fn lemma_primary_count()
    ensures
        primary_endings().finite(),
        primary_endings().len() == PRIMARY_COUNT,
{
    let s = set![
        GameEnding::TrueWake,
        GameEnding::CycleBreaker,
        GameEnding::Legend,
        GameEnding::Puppetmaster,
        GameEnding::FragmentedMind,
        GameEnding::SunkLegend
    ];
    assert(primary_endings() =~= s);
}

} // verus!
