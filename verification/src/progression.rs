//! The progress record: which endings have been reached, and whether the
//! Final Bell is unlocked.

use vstd::prelude::*;
use std::collections::HashSet;
use crate::endings::{GameEnding, primary_endings};

verus! {

broadcast use vstd::std_specs::hash::group_hash_axioms;

/// The logical state of a progress record.
pub struct ProgressView {
    /// The endings reached so far.
    pub completed: Set<GameEnding>,
    /// Whether the Final Bell is unlocked.
    pub final_bell_unlocked: bool,
}

impl ProgressView {
    /// The state of a fresh record: nothing reached, nothing unlocked.
    pub open spec fn empty() -> ProgressView {
        ProgressView { completed: Set::empty(), final_bell_unlocked: false }
    }

    /// Whether every primary ending has been reached.
    pub open spec fn all_primary(self) -> bool {
        primary_endings().subset_of(self.completed)
    }

    /// The primary endings reached so far.
    pub open spec fn primary_reached(self) -> Set<GameEnding> {
        self.completed.intersect(primary_endings())
    }

    /// The state after registering `ending`: the ending joins the set, and the
    /// Final Bell is unlocked if it was already or if every primary ending is
    /// now present.
    pub open spec fn mark(self, ending: GameEnding) -> ProgressView {
        let completed = self.completed.insert(ending);
        ProgressView {
            completed,
            final_bell_unlocked: self.final_bell_unlocked || primary_endings().subset_of(
                completed,
            ),
        }
    }

    /// Whether registering `ending` is the step that unlocks the Final Bell.
    pub open spec fn newly_unlocked(self, ending: GameEnding) -> bool {
        !self.final_bell_unlocked && self.mark(ending).final_bell_unlocked
    }

    /// What holds of every state reached from the empty one by `mark`: the
    /// set is finite and the unlock flag says exactly whether every primary
    /// ending is present.
    pub open spec fn consistent(self) -> bool {
        &&& self.completed.finite()
        &&& self.final_bell_unlocked == self.all_primary()
    }
}

/// Tracks which endings are completed and whether the Final Bell is unlocked.
#[derive(Debug)]
pub struct GameProgress {
    completed: HashSet<u8>,
    final_bell_unlocked: bool,
}

impl View for GameProgress {
    type V = ProgressView;

    closed spec fn view(&self) -> ProgressView {
        ProgressView {
            completed: Set::new(|e: GameEnding| self.completed@.contains(e.code_spec())),
            final_bell_unlocked: self.final_bell_unlocked,
        }
    }
}

impl GameProgress {
    /// Only codes of endings are stored.
    closed spec fn codes_valid(&self) -> bool {
        forall|c: u8| self.completed@.contains(c) ==> c < 7
    }

    /// The record's invariant: it stores only endings, and its state is
    /// consistent.
    pub closed spec fn wf(&self) -> bool {
        &&& self.codes_valid()
        &&& self@.consistent()
    }

    /// A well-formed record is in a consistent state.
    pub proof fn lemma_wf_consistent(&self)
        requires
            self.wf(),
        ensures
            self@.consistent(),
    {
    }

    /// A fresh record: no ending reached, Final Bell locked.
    pub fn new() -> (progress: GameProgress)
        ensures
            progress.wf(),
            progress@ == ProgressView::empty(),
    {
        let progress = GameProgress { completed: HashSet::new(), final_bell_unlocked: false };
        proof {
            assert(progress@.completed =~= Set::<GameEnding>::empty());
            assert(!progress@.completed.contains(GameEnding::TrueWake));
        }
        progress
    }

    /// Registers `ending`. Returns `true` on exactly the call that unlocks
    /// the Final Bell.
    pub fn mark_completed(&mut self, ending: GameEnding) -> (newly_unlocked: bool)
        requires
            old(self).wf(),
        ensures
            final(self).wf(),
            final(self)@ == old(self)@.mark(ending),
            newly_unlocked == old(self)@.newly_unlocked(ending),
    {
        let was_unlocked = self.final_bell_unlocked;
        let code = ending.code();
        self.completed.insert(code);
        proof {
            assert(self@.completed =~= old(self)@.completed.insert(ending));
            lemma_view_finite(self.completed@);
        }
        self.update_unlock();
        !was_unlocked && self.final_bell_unlocked
    }

    /// Whether every primary ending has been reached.
    pub fn all_primary_completed(&self) -> (all: bool)
        ensures
            all == self@.all_primary(),
    {
        let all = self.completed.contains(&GameEnding::TrueWake.code())
            && self.completed.contains(&GameEnding::CycleBreaker.code())
            && self.completed.contains(&GameEnding::Legend.code())
            && self.completed.contains(&GameEnding::Puppetmaster.code())
            && self.completed.contains(&GameEnding::FragmentedMind.code())
            && self.completed.contains(&GameEnding::SunkLegend.code());
        proof {
            if all {
                assert forall|e: GameEnding| primary_endings().contains(e) implies self@.completed.contains(
                    e,
                ) by {
                    match e {
                        GameEnding::TrueWake => {},
                        GameEnding::CycleBreaker => {},
                        GameEnding::Legend => {},
                        GameEnding::Puppetmaster => {},
                        GameEnding::FragmentedMind => {},
                        GameEnding::SunkLegend => {},
                        GameEnding::FinalBell => {},
                    }
                }
            } else {
                assert(primary_endings().contains(GameEnding::TrueWake));
                assert(primary_endings().contains(GameEnding::CycleBreaker));
                assert(primary_endings().contains(GameEnding::Legend));
                assert(primary_endings().contains(GameEnding::Puppetmaster));
                assert(primary_endings().contains(GameEnding::FragmentedMind));
                assert(primary_endings().contains(GameEnding::SunkLegend));
            }
        }
        all
    }

    /// Unlocks the Final Bell if every primary ending has been reached; never
    /// locks it again.
    fn update_unlock(&mut self)
        requires
            old(self).codes_valid(),
            old(self)@.completed.finite(),
            old(self).final_bell_unlocked ==> old(self)@.all_primary(),
        ensures
            final(self).wf(),
            final(self)@.completed == old(self)@.completed,
            final(self)@.final_bell_unlocked == (old(self)@.final_bell_unlocked
                || old(self)@.all_primary()),
    {
        if self.all_primary_completed() {
            self.final_bell_unlocked = true;
        }
    }

    /// Whether `ending` has been reached.
    pub fn is_completed(&self, ending: GameEnding) -> (reached: bool)
        ensures
            reached == self@.completed.contains(ending),
    {
        self.completed.contains(&ending.code())
    }

    /// How many distinct endings have been reached.
    pub fn completed_len(&self) -> (n: usize)
        requires
            self.wf(),
        ensures
            n == self@.completed.len(),
    {
        proof {
            lemma_view_len(self.completed@);
        }
        self.completed.len()
    }

    /// Whether the Final Bell is unlocked.
    pub fn final_bell_unlocked(&self) -> (unlocked: bool)
        ensures
            unlocked == self@.final_bell_unlocked,
    {
        self.final_bell_unlocked
    }
}

impl Default for GameProgress {
    fn default() -> (progress: GameProgress)
        ensures
            progress.wf(),
            progress@ == ProgressView::empty(),
    {
        GameProgress::new()
    }
}

/// The endings whose codes lie in `codes`.
spec fn decoded(codes: Set<u8>) -> Set<GameEnding> {
    Set::new(|e: GameEnding| codes.contains(e.code_spec()))
}

/// The endings named by any set of codes are finitely many.
proof fn lemma_view_finite(codes: Set<u8>)
    ensures
        decoded(codes).finite(),
{
    let every = set![
        GameEnding::TrueWake,
        GameEnding::CycleBreaker,
        GameEnding::Legend,
        GameEnding::Puppetmaster,
        GameEnding::FragmentedMind,
        GameEnding::SunkLegend,
        GameEnding::FinalBell
    ];
    assert(decoded(codes).subset_of(every));
    vstd::set_lib::lemma_set_subset_finite(every, decoded(codes));
}

/// A set of valid codes is finite and names as many endings as it has codes.
proof fn lemma_view_len(codes: Set<u8>)
    requires
        forall|c: u8| codes.contains(c) ==> c < 7,
    ensures
        codes.finite(),
        decoded(codes).len() == codes.len(),
{
    let all_codes = set![0u8, 1u8, 2u8, 3u8, 4u8, 5u8, 6u8];
    assert(codes.subset_of(all_codes));
    vstd::set_lib::lemma_set_subset_finite(all_codes, codes);
    lemma_view_finite(codes);
    let code = |e: GameEnding| e.code_spec();
    assert forall|c: u8| codes.contains(c) implies decoded(codes).map(code).contains(c) by {
        let e = if c == 0 {
            GameEnding::TrueWake
        } else if c == 1 {
            GameEnding::CycleBreaker
        } else if c == 2 {
            GameEnding::Legend
        } else if c == 3 {
            GameEnding::Puppetmaster
        } else if c == 4 {
            GameEnding::FragmentedMind
        } else if c == 5 {
            GameEnding::SunkLegend
        } else {
            GameEnding::FinalBell
        };
        assert(decoded(codes).contains(e) && code(e) == c);
    }
    assert(decoded(codes).map(code) =~= codes);
    assert(vstd::relations::injective(code));
    vstd::set_lib::lemma_map_size(decoded(codes), codes, code);
}

} // verus!
