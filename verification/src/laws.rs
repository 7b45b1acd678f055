//! Statements that relate the operations of the library, proved once
//! and for all terms.

use vstd::prelude::*;

use crate::ir::{ExClauseV, ParameterV, TyV, CanonicalV, ConstrainedSubstV, GoalV, InEnvironmentV};
use crate::resolvent::{ResolventOutcomeV, apply_answer_subst_spec};
use crate::shift::{
    lemma_shift_round_trip_param, lemma_shift_round_trip_ty, shift_down_param, shift_down_ty,
    shift_up_param, shift_up_ty,
};
use crate::table::TableV;
use crate::ucanon::mentions_in_env_goal;
use crate::universes::{
    lemma_umap_determined, lemma_umap_from_canonical_monotone, lemma_umap_round_trip,
    umap_contains, umap_from_canonical, umap_to_canonical, umap_wf,
};

verus! {

/// Shift round-trip: shifting any type up by `n` and back down by `n`
/// restores it, at every binder depth.
pub proof fn law_shift_round_trip(t: TyV, binders: nat, n: nat)
    ensures
        shift_down_ty(shift_up_ty(t, binders, n), binders, n) == Some(t),
{
    lemma_shift_round_trip_ty(t, binders, n);
}

/// Shift round-trip for parameters of every kind.
pub proof fn law_shift_round_trip_param(p: ParameterV, binders: nat, n: nat)
    ensures
        shift_down_param(shift_up_param(p, binders, n), binders, n) == Some(p),
{
    lemma_shift_round_trip_param(p, binders, n);
}

/// Universe map round-trip: every universe that was collected into the
/// map comes back unchanged after mapping it to its canonical universe
/// and back.
pub proof fn law_universe_map_round_trip(m: Seq<nat>, universe: nat)
    requires
        umap_wf(m),
        umap_contains(m, universe),
    ensures
        umap_from_canonical(m, umap_to_canonical(m, universe)) == universe,
{
    lemma_umap_round_trip(m, universe);
}

/// Universe monotonicity: mapping out of the canonical space preserves
/// the strict order of universes, in and out of the collected range.
pub proof fn law_universe_monotonicity(m: Seq<nat>, a: nat, b: nat)
    requires
        umap_wf(m),
        a < b,
    ensures
        umap_from_canonical(m, a) < umap_from_canonical(m, b),
{
    lemma_umap_from_canonical_monotone(m, a, b);
}

/// Applying an answer substitution never spawns clause work of its own:
/// the substitution and the delayed literals of the pending X-clause
/// are untouched, its constraints and subgoals only grow, and every
/// subgoal added comes from the zipper's leaf unifications.
pub proof fn law_apply_answer_non_spawning(
    st: TableV,
    ex: ExClauseV,
    selected: InEnvironmentV<GoalV>,
    table_goal: CanonicalV<InEnvironmentV<GoalV>>,
    ans: CanonicalV<ConstrainedSubstV>,
)
    ensures
        apply_answer_subst_spec(st, ex, selected, table_goal, ans) matches
            ResolventOutcomeV::Success { st: _, ex: ex2 } ==> {
            &&& ex2.subst == ex.subst
            &&& ex2.delayed_literals == ex.delayed_literals
            &&& ex2.subgoals.len() >= ex.subgoals.len()
            &&& ex2.subgoals.subrange(0, ex.subgoals.len() as int) =~= ex.subgoals
            &&& ex2.constraints.len() >= ex.constraints.len()
        },
{
    let outcome = apply_answer_subst_spec(st, ex, selected, table_goal, ans);
    match outcome {
        ResolventOutcomeV::Success { st: st2, ex: ex2 } => {
            assert(ex2.subgoals.subrange(0, ex.subgoals.len() as int) =~= ex.subgoals);
        },
        _ => {},
    }
}

/// The universe map a u-canonicalization builds is determined by which
/// universes the payload mentions: two payloads mentioning the same
/// universes get the same map, whatever order the collection visited
/// them in.
pub proof fn law_universe_map_determined(
    g1: InEnvironmentV<GoalV>,
    g2: InEnvironmentV<GoalV>,
    m1: Seq<nat>,
    m2: Seq<nat>,
)
    requires
        umap_wf(m1),
        umap_wf(m2),
        forall|u: nat| umap_contains(m1, u) <==> u == 0 || mentions_in_env_goal(g1, u),
        forall|u: nat| umap_contains(m2, u) <==> u == 0 || mentions_in_env_goal(g2, u),
        forall|u: nat| mentions_in_env_goal(g1, u) <==> mentions_in_env_goal(g2, u),
    ensures
        m1 =~= m2,
{
    assert forall|u: nat| umap_contains(m1, u) <==> umap_contains(m2, u) by {
        assert(umap_contains(m1, u) <==> u == 0 || mentions_in_env_goal(g1, u));
        assert(umap_contains(m2, u) <==> u == 0 || mentions_in_env_goal(g2, u));
    }
    lemma_umap_determined(m1, m2);
}

} // verus!
