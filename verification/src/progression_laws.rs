//! What holds of the progress record over any sequence of registrations.

use vstd::prelude::*;
use vstd::set_lib::*;
use crate::endings::{GameEnding, primary_endings, lemma_primary_count, PRIMARY_COUNT};
use crate::progression::ProgressView;

verus! {

impl ProgressView {
    /// The state after registering `endings` one after the other.
    pub open spec fn mark_all(self, endings: Seq<GameEnding>) -> ProgressView
        decreases endings.len(),
    {
        if endings.len() == 0 {
            self
        } else {
            self.mark_all(endings.drop_last()).mark(endings.last())
        }
    }

    /// How many of the registrations in `endings`, made one after the other,
    /// report the unlock.
    pub open spec fn unlock_count(self, endings: Seq<GameEnding>) -> nat
        decreases endings.len(),
    {
        if endings.len() == 0 {
            0
        } else {
            let before = self.mark_all(endings.drop_last());
            let here: nat = if before.newly_unlocked(endings.last()) {
                1
            } else {
                0
            };
            self.unlock_count(endings.drop_last()) + here
        }
    }
}

/// Registering an ending a second time changes nothing: the set, the unlock
/// flag and with them the whole state stay as the first registration left
/// them, and the second registration never reports an unlock.
pub proof fn lemma_mark_idempotent(s: ProgressView, ending: GameEnding)
    ensures
        s.mark(ending).mark(ending) == s.mark(ending),
        !s.mark(ending).newly_unlocked(ending),
{
    assert(s.completed.insert(ending).insert(ending) =~= s.completed.insert(ending));
}

/// Registering an ending never locks the Final Bell again.
pub proof fn lemma_unlock_is_permanent(s: ProgressView, ending: GameEnding)
    ensures
        s.final_bell_unlocked ==> s.mark(ending).final_bell_unlocked,
{
}

/// Registering an ending never shrinks the set of reached endings: every
/// ending reached before is still reached, and the count does not drop.
pub proof fn lemma_mark_monotonic(s: ProgressView, ending: GameEnding)
    requires
        s.completed.finite(),
    ensures
        s.completed.subset_of(s.mark(ending).completed),
        s.mark(ending).completed.finite(),
        s.mark(ending).completed.len() >= s.completed.len(),
{
}

/// The empty state is consistent.
pub proof fn lemma_empty_consistent()
    ensures
        ProgressView::empty().consistent(),
{
    assert(primary_endings().contains(GameEnding::TrueWake));
}

/// Consistency is kept by every registration.
pub proof fn lemma_mark_consistent(s: ProgressView, ending: GameEnding)
    requires
        s.consistent(),
    ensures
        s.mark(ending).consistent(),
{
}

/// Over any sequence of registrations the Final Bell stays unlocked once it
/// is.
pub proof fn lemma_mark_all_keeps_unlock(s: ProgressView, endings: Seq<GameEnding>)
    ensures
        s.final_bell_unlocked ==> s.mark_all(endings).final_bell_unlocked,
    decreases endings.len(),
{
    if endings.len() > 0 {
        lemma_mark_all_keeps_unlock(s, endings.drop_last());
    }
}

/// Over any sequence of registrations the count of reached endings never
/// drops, and consistency is kept.
pub proof fn lemma_mark_all_monotonic(s: ProgressView, endings: Seq<GameEnding>)
    requires
        s.completed.finite(),
    ensures
        s.completed.subset_of(s.mark_all(endings).completed),
        s.mark_all(endings).completed.finite(),
        s.mark_all(endings).completed.len() >= s.completed.len(),
        s.consistent() ==> s.mark_all(endings).consistent(),
    decreases endings.len(),
{
    if endings.len() > 0 {
        let before = s.mark_all(endings.drop_last());
        lemma_mark_all_monotonic(s, endings.drop_last());
        lemma_mark_monotonic(before, endings.last());
        if s.consistent() {
            lemma_mark_consistent(before, endings.last());
        }
    }
}

/// After any sequence of registrations the set holds what it held before
/// together with the endings of the sequence, whatever their order.
pub proof fn lemma_mark_all_completed(s: ProgressView, endings: Seq<GameEnding>)
    ensures
        s.mark_all(endings).completed == s.completed.union(endings.to_set()),
    decreases endings.len(),
{
    if endings.len() == 0 {
        assert(endings.to_set() =~= Set::<GameEnding>::empty());
        assert(s.completed.union(endings.to_set()) =~= s.completed);
    } else {
        let front = endings.drop_last();
        lemma_mark_all_completed(s, front);
        assert forall|e: GameEnding| endings.to_set().contains(e) <==> (front.to_set().contains(e)
            || e == endings.last()) by {
            if endings.to_set().contains(e) {
                let i = choose|i: int| 0 <= i < endings.len() && endings[i] == e;
                if i < endings.len() - 1 {
                    assert(front[i] == e);
                }
            }
            if front.to_set().contains(e) {
                let i = choose|i: int| 0 <= i < front.len() && front[i] == e;
                assert(endings[i] == e);
            }
            if e == endings.last() {
                assert(endings[endings.len() - 1] == e);
            }
        }
        assert(s.mark_all(endings).completed =~= s.completed.union(endings.to_set()));
    }
}

/// The unlock is reported by exactly the registration that takes the number
/// of primary endings reached from one short of all to all of them.
pub proof fn lemma_unlock_on_last_primary(s: ProgressView, ending: GameEnding)
    requires
        s.consistent(),
    ensures
        s.newly_unlocked(ending) <==> (s.primary_reached().len() == PRIMARY_COUNT - 1 && s.mark(
            ending,
        ).primary_reached().len() == PRIMARY_COUNT),
{
    lemma_primary_count();
    let primary = primary_endings();
    let after = s.mark(ending);
    lemma_len_subset(s.primary_reached(), primary);
    lemma_len_subset(after.primary_reached(), primary);
    if s.newly_unlocked(ending) {
        assert(after.primary_reached() =~= primary);
        assert(!s.all_primary());
        let missing = choose|e: GameEnding| primary.contains(e) && !s.completed.contains(e);
        assert(after.completed.contains(missing));
        assert(missing == ending);
        assert(s.primary_reached() =~= primary.remove(ending));
    }
    if s.primary_reached().len() == PRIMARY_COUNT - 1 && after.primary_reached().len()
        == PRIMARY_COUNT {
        lemma_subset_equality(after.primary_reached(), primary);
        assert(primary.subset_of(after.completed));
        if s.all_primary() {
            assert(s.primary_reached() =~= primary);
        }
    }
}

/// Over any sequence of registrations the unlock is reported once if the
/// Final Bell was locked before and is unlocked after, and never otherwise:
/// in particular never again once it has been reported.
pub proof fn lemma_unlock_reported_once(s: ProgressView, endings: Seq<GameEnding>)
    ensures
        s.unlock_count(endings) == if !s.final_bell_unlocked && s.mark_all(
            endings,
        ).final_bell_unlocked {
            1nat
        } else {
            0nat
        },
    decreases endings.len(),
{
    if endings.len() > 0 {
        lemma_unlock_reported_once(s, endings.drop_last());
        lemma_mark_all_keeps_unlock(s, endings.drop_last());
    }
}

/// Starting from a fresh record, a sequence of registrations reports the
/// unlock exactly once if it names every primary ending, in whatever order
/// and with whatever repetitions or other endings among them, and never if
/// it leaves one out.
pub proof fn lemma_unlock_from_empty(endings: Seq<GameEnding>)
    ensures
        ProgressView::empty().unlock_count(endings) == if primary_endings().subset_of(
            endings.to_set(),
        ) {
            1nat
        } else {
            0nat
        },
{
    let start = ProgressView::empty();
    lemma_unlock_reported_once(start, endings);
    lemma_mark_all_completed(start, endings);
    lemma_empty_consistent();
    lemma_mark_all_monotonic(start, endings);
    assert(start.completed.union(endings.to_set()) =~= endings.to_set());
}

} // verus!
