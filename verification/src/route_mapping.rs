//! The static route table: which timeline a route plays and which ending it
//! registers.

use vstd::prelude::*;
use crate::endings::GameEnding;

verus! {

/// Lowest route id in the table.
pub const FIRST_ROUTE: usize = 1;

/// Highest route id in the table.
pub const LAST_ROUTE: usize = 6;

/// Whether the table has an entry for `id`.
pub open spec fn is_known_route(id: usize) -> bool {
    FIRST_ROUTE <= id <= LAST_ROUTE
}

/// The timeline source of each route, as text.
pub open spec fn route_timeline_path_spec(id: usize) -> Option<Seq<char>> {
    if id == 1 {
        Some("assets/narrative/path1_true_wake.yaml"@)
    } else if id == 2 {
        Some("assets/narrative/path2_sunk_legend.yaml"@)
    } else if id == 3 {
        Some("assets/narrative/path3_cycle_breaker.yaml"@)
    } else if id == 4 {
        Some("assets/narrative/path4_fragmented_mind.yaml"@)
    } else if id == 5 {
        Some("assets/narrative/path5_puppetmaster.yaml"@)
    } else if id == 6 {
        Some("assets/narrative/path6_legend.yaml"@)
    } else {
        None
    }
}

/// The ending that completing each route registers.
pub open spec fn route_result_ending_spec(id: usize) -> Option<GameEnding> {
    if id == 1 {
        Some(GameEnding::TrueWake)
    } else if id == 2 {
        Some(GameEnding::SunkLegend)
    } else if id == 3 {
        Some(GameEnding::CycleBreaker)
    } else if id == 4 {
        Some(GameEnding::FragmentedMind)
    } else if id == 5 {
        Some(GameEnding::Puppetmaster)
    } else if id == 6 {
        Some(GameEnding::Legend)
    } else {
        None
    }
}

/// Looks up the timeline source of a route. Ids outside the table give
/// `None`.
pub fn route_timeline_path(id: usize) -> (path: Option<&'static str>)
    ensures
        path.is_some() == is_known_route(id),
        match path {
            Some(p) => route_timeline_path_spec(id) == Some(p@),
            None => route_timeline_path_spec(id).is_none(),
        },
{
    match id {
        1 => Some("assets/narrative/path1_true_wake.yaml"),
        2 => Some("assets/narrative/path2_sunk_legend.yaml"),
        3 => Some("assets/narrative/path3_cycle_breaker.yaml"),
        4 => Some("assets/narrative/path4_fragmented_mind.yaml"),
        5 => Some("assets/narrative/path5_puppetmaster.yaml"),
        6 => Some("assets/narrative/path6_legend.yaml"),
        _ => None,
    }
}

/// Looks up the ending that a route registers. Ids outside the table give
/// `None`.
pub fn route_result_ending(id: usize) -> (ending: Option<GameEnding>)
    ensures
        ending == route_result_ending_spec(id),
        ending.is_some() == is_known_route(id),
{
    match id {
        1 => Some(GameEnding::TrueWake),
        2 => Some(GameEnding::SunkLegend),
        3 => Some(GameEnding::CycleBreaker),
        4 => Some(GameEnding::FragmentedMind),
        5 => Some(GameEnding::Puppetmaster),
        6 => Some(GameEnding::Legend),
        _ => None,
    }
}

/// The table is total over the known routes and empty elsewhere: a route has
/// a timeline exactly when it has an ending, exactly when its id is known.
pub proof fn lemma_table_total(id: usize)
    ensures
        route_timeline_path_spec(id).is_some() == is_known_route(id),
        route_result_ending_spec(id).is_some() == is_known_route(id),
{
}

/// Every route registers a primary ending, distinct routes register distinct
/// endings, and every primary ending is registered by some route.
pub proof fn lemma_table_covers_primary()
    ensures
        forall|id: usize| #[trigger]
            is_known_route(id) ==> route_result_ending_spec(id).unwrap().is_primary_spec(),
        forall|a: usize, b: usize|
            is_known_route(a) && is_known_route(b) && #[trigger] route_result_ending_spec(a)
                == #[trigger] route_result_ending_spec(b) ==> a == b,
        forall|e: GameEnding| #[trigger]
            e.is_primary_spec() ==> exists|id: usize|
                is_known_route(id) && route_result_ending_spec(id) == Some(e),
{
    assert forall|e: GameEnding| #[trigger] e.is_primary_spec() implies exists|id: usize|
        is_known_route(id) && route_result_ending_spec(id) == Some(e) by {
        let id: usize = match e {
            GameEnding::TrueWake => 1,
            GameEnding::SunkLegend => 2,
            GameEnding::CycleBreaker => 3,
            GameEnding::FragmentedMind => 4,
            GameEnding::Puppetmaster => 5,
            _ => 6,
        };
        assert(is_known_route(id) && route_result_ending_spec(id) == Some(e));
    }
}

} // verus!
