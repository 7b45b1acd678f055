//! The universe map: a dense, order-preserving renumbering of universes.
//!
//! U-canonicalization collects every universe that appears free in a
//! term into a sorted vector seeded with the root universe.  Position
//! `i` of the vector is the canonical universe `Ui`; the entry at that
//! position is the original universe it stands for.  The map therefore
//! compresses an arbitrary set of universes onto the dense prefix
//! `U0..Un` while preserving their relative order — which is all that
//! visibility depends on.

use vstd::prelude::*;

use crate::ir::UniverseIndex;

verus! {

/// Maps the universes of a u-canonicalized value (the "canonical"
/// universes) to the universes of the original value and back.
#[derive(Clone, Debug, PartialEq, Eq)]
pub struct UniverseMap {
    /// For each universe `Ux` appearing in the canonicalized value, the
    /// corresponding original universe is `universes[x]`.
    pub universes: Vec<UniverseIndex>,
}

/// The vector is strictly increasing and starts at the root universe.
pub open spec fn umap_wf(m: Seq<nat>) -> bool {
    &&& m.len() >= 1
    &&& m[0] == 0
    &&& forall|i: int, j: int| 0 <= i < j < m.len() ==> m[i] < m[j]
}

/// Whether an original universe was collected into the map.
pub open spec fn umap_contains(m: Seq<nat>, u: nat) -> bool {
    exists|i: int| 0 <= i < m.len() && m[i] == u
}

/// The canonical counterpart of an original universe `u`: the position
/// of the largest collected universe that is at most `u`.  When `u`
/// itself was collected this is its position; otherwise it is the
/// position of the next universe below it, which is sound because every
/// name visible from that universe is also visible from `u`.
pub open spec fn umap_to_canonical(m: Seq<nat>, u: nat) -> nat
    decreases m,
{
    if m.len() <= 1 {
        0
    } else if m.last() <= u {
        (m.len() - 1) as nat
    } else {
        umap_to_canonical(m.drop_last(), u)
    }
}

/// The original counterpart of a canonical universe `c`.  Positions
/// inside the map read the vector; positions past its end stand for
/// universes created during solving and map to fresh originals greater
/// than everything collected, preserving relative order.
pub open spec fn umap_from_canonical(m: Seq<nat>, c: nat) -> nat {
    if c < m.len() {
        m[c as int]
    } else {
        (m.last() + (c - m.len()) + 1) as nat
    }
}

/// The set of collected universes after adding `u`.
pub open spec fn umap_inserted(old_m: Seq<nat>, new_m: Seq<nat>, u: nat) -> bool {
    forall|x: nat| umap_contains(new_m, x) <==> (umap_contains(old_m, x) || x == u)
}

impl View for UniverseMap {
    type V = Seq<nat>;

    open spec fn view(&self) -> Seq<nat> {
        self.universes@.map_values(|ui: UniverseIndex| ui.counter as nat)
    }
}

impl UniverseMap {
    /// The empty map: only the root universe, mapped to itself.
    pub fn new() -> (r: UniverseMap)
        ensures
            r@ =~= seq![0nat],
            umap_wf(r@),
    {
        let mut universes: Vec<UniverseIndex> = Vec::new();
        universes.push(UniverseIndex::root());
        UniverseMap { universes }
    }

    /// Number of canonical universes: the length of the vector.
    pub fn num_canonical_universes(&self) -> (r: usize)
        ensures
            r == self@.len(),
    {
        self.universes.len()
    }

    /// Record that `universe` appears in the value being collected,
    /// keeping the vector sorted and duplicate-free.
    #[verifier::rlimit(60)]
    #[verifier::spinoff_prover]
    pub fn add(&mut self, universe: UniverseIndex)
        requires
            umap_wf(old(self)@),
        ensures
            umap_wf(final(self)@),
            umap_inserted(old(self)@, final(self)@, universe.counter as nat),
            final(self)@.len() >= old(self)@.len(),
            final(self)@.last() >= old(self)@.last(),
            final(self)@.last() >= universe.counter as nat,
    {
        let u = universe.counter;
        let ghost old_m = self@;
        // Find the first position whose entry is >= u.
        let mut i: usize = 0;
        while i < self.universes.len() && self.universes[i].counter < u
            invariant
                i <= self.universes@.len(),
                self@ == old_m,
                umap_wf(old_m),
                forall|j: int| 0 <= j < i ==> old_m[j] < u as nat,
        decreases self.universes@.len() - i,
        {
            i += 1;
        }
        if i < self.universes.len() && self.universes[i].counter == u {
            // Already present.
            proof {
                assert(old_m[i as int] == u as nat);
                assert(umap_inserted(old_m, self@, u as nat));
            }
        } else {
            self.universes.insert(i, universe);
            proof {
                let new_m = self@;
                assert(new_m =~= old_m.insert(i as int, u as nat)) by {
                    assert forall|j: int| 0 <= j < new_m.len() implies new_m[j] == old_m.insert(
                        i as int,
                        u as nat,
                    )[j] by {
                        assert(new_m[j] == self.universes@[j].counter as nat);
                    }
                }
                assert forall|p: int, q: int| 0 <= p < q < new_m.len() implies new_m[p] < new_m[q]
                by {
                    if p < i && q > i {
                        assert(new_m[p] == old_m[p]);
                        assert(new_m[q] == old_m[q - 1]);
                    } else if p < i && q == i {
                        assert(new_m[p] == old_m[p]);
                    } else if p == i && q > i {
                        assert(new_m[q] == old_m[q - 1]);
                        assert(old_m[q - 1] >= u as nat);
                        assert(old_m[q - 1] != u as nat);
                    } else if p > i && q > i {
                        assert(new_m[p] == old_m[p - 1]);
                        assert(new_m[q] == old_m[q - 1]);
                    }
                }
                assert(new_m[0] == 0) by {
                    if i == 0 {
                        assert(old_m[0] == 0);
                        assert(u as nat <= old_m[0]);
                    }
                }
                assert forall|x: nat| umap_contains(new_m, x) implies (umap_contains(old_m, x) || x
                    == u as nat) by {
                    let w = choose|w: int| 0 <= w < new_m.len() && new_m[w] == x;
                    if w < i {
                        assert(old_m[w] == x);
                    } else if w > i {
                        assert(old_m[w - 1] == x);
                    }
                }
                assert forall|x: nat| (umap_contains(old_m, x) || x == u as nat) implies
                    umap_contains(new_m, x) by {
                    if umap_contains(old_m, x) {
                        let w = choose|w: int| 0 <= w < old_m.len() && old_m[w] == x;
                        if w < i {
                            assert(new_m[w] == x);
                        } else {
                            assert(new_m[w + 1] == x);
                        }
                    } else {
                        assert(new_m[i as int] == x);
                    }
                }
                assert(self@.last() >= old_m.last()) by {
                    if i < old_m.len() {
                        assert(new_m.last() == old_m.last());
                    } else {
                        assert(new_m.last() == u as nat);
                        assert(old_m.last() == old_m[i - 1]);
                    }
                }
                assert(self@.last() >= u as nat) by {
                    if i < old_m.len() {
                        assert(new_m.last() == old_m[old_m.len() - 1]);
                        if i < old_m.len() - 1 {
                            assert(old_m[old_m.len() - 1] > old_m[i as int]);
                            assert(old_m[i as int] >= u as nat);
                        }
                    }
                }
            }
        }
    }

    /// The canonical universe standing for an original `universe`.
    pub fn map_universe_to_canonical(&self, universe: UniverseIndex) -> (r: UniverseIndex)
        requires
            umap_wf(self@),
        ensures
            r.counter as nat == umap_to_canonical(self@, universe.counter as nat),
    {
        let u = universe.counter;
        let ghost m = self@;
        assert(self.universes@.len() == m.len());
        let n = self.universes.len();
        let mut i: usize = 0;
        while i + 1 < n && self.universes[i + 1].counter <= u
            invariant
                i < n,
                n == self.universes@.len(),
                n == m.len(),
                m == self@,
                umap_wf(m),
                m[i as int] <= u as nat || i == 0,
                forall|j: int| 0 <= j <= i ==> m[j] <= u as nat || j == 0,
        decreases n - i,
        {
            i += 1;
        }
        proof {
            lemma_umap_to_canonical_found(m, u as nat, i as nat);
        }
        UniverseIndex { counter: i }
    }

    /// The original universe standing for a canonical `universe`.
    pub fn map_universe_from_canonical(&self, universe: UniverseIndex) -> (r: UniverseIndex)
        requires
            umap_wf(self@),
            umap_from_canonical(self@, universe.counter as nat) <= usize::MAX,
        ensures
            r.counter as nat == umap_from_canonical(self@, universe.counter as nat),
    {
        let c = universe.counter;
        if c < self.universes.len() {
            self.universes[c]
        } else {
            let max_counter = self.universes[self.universes.len() - 1].counter;
            let difference = c - self.universes.len();
            UniverseIndex { counter: max_counter + difference + 1 }
        }
    }
}

/// The index the scan of `map_universe_to_canonical` stops at is the one
/// the specification names: the position of the largest entry at most `u`
/// (position 0 when every entry exceeds `u`, which only happens for the
/// root, since the root entry is 0).
proof fn lemma_umap_to_canonical_found(m: Seq<nat>, u: nat, i: nat)
    requires
        umap_wf(m),
        i < m.len(),
        m[i as int] <= u,
        i + 1 < m.len() ==> m[i as int + 1] > u,
    ensures
        umap_to_canonical(m, u) == i,
    decreases m,
{
    if m.len() <= 1 {
    } else if m.last() <= u {
        if i + 1 < m.len() {
            assert(m[i as int + 1] <= m.last());
        }
    } else {
        assert(i + 1 < m.len());
        let rest = m.drop_last();
        assert(umap_wf(rest)) by {
            assert(rest[0] == m[0]);
        }
        lemma_umap_to_canonical_found(rest, u, i);
    }
}

// ---------------------------------------------------------------------------
// Round trip and monotonicity.
// ---------------------------------------------------------------------------

/// A collected universe comes back unchanged: mapping it to its
/// canonical universe and back yields the original.
pub proof fn lemma_umap_round_trip(m: Seq<nat>, u: nat)
    requires
        umap_wf(m),
        umap_contains(m, u),
    ensures
        umap_to_canonical(m, u) < m.len(),
        umap_from_canonical(m, umap_to_canonical(m, u)) == u,
    decreases m,
{
    let w = choose|w: int| 0 <= w < m.len() && m[w] == u;
    lemma_umap_to_canonical_found(m, u, w as nat);
}

/// `umap_to_canonical` never leaves the map.
pub proof fn lemma_umap_to_canonical_in_range(m: Seq<nat>, u: nat)
    requires
        umap_wf(m),
    ensures
        umap_to_canonical(m, u) < m.len(),
    decreases m,
{
    if m.len() > 1 && m.last() > u {
        let rest = m.drop_last();
        assert(umap_wf(rest)) by {
            assert(rest[0] == m[0]);
        }
        lemma_umap_to_canonical_in_range(rest, u);
    }
}

/// Mapping out of the canonical space preserves the strict order of
/// universes: visibility relations survive the translation.
pub proof fn lemma_umap_from_canonical_monotone(m: Seq<nat>, a: nat, b: nat)
    requires
        umap_wf(m),
        a < b,
    ensures
        umap_from_canonical(m, a) < umap_from_canonical(m, b),
{
    if b < m.len() {
        assert(m[a as int] < m[b as int]);
    } else if a < m.len() {
        assert(m[a as int] <= m.last()) by {
            if a + 1 <= m.len() - 1 {
                assert(m[a as int] <= m[m.len() - 1]);
            }
        }
    }
}

/// Two well-formed maps that collected the same universes are the same
/// map: the sorted vector is determined by its membership.
pub proof fn lemma_umap_determined(m1: Seq<nat>, m2: Seq<nat>)
    requires
        umap_wf(m1),
        umap_wf(m2),
        forall|u: nat| umap_contains(m1, u) <==> umap_contains(m2, u),
    ensures
        m1 =~= m2,
    decreases m1.len(),
{
    // The last entries are the greatest members, so they agree.
    assert(umap_contains(m1, m1.last()));
    assert(umap_contains(m2, m2.last()));
    let w1 = choose|w: int| 0 <= w < m2.len() && m2[w] == m1.last();
    let w2 = choose|w: int| 0 <= w < m1.len() && m1[w] == m2.last();
    assert(m2[w1] <= m2.last());
    assert(m1[w2] <= m1.last());
    assert(m1.last() == m2.last());
    if m1.len() == 1 {
        if m2.len() > 1 {
            assert(m2[0] < m2.last());
            assert(umap_contains(m2, m2[0]));
            let w = choose|w: int| 0 <= w < m1.len() && m1[w] == m2[0];
            assert(m1[w] == m1.last());
            assert(false);
        }
        assert(m1[0] == 0 && m2[0] == 0);
        assert(m1 =~= m2);
    } else {
        if m2.len() == 1 {
            assert(m1[0] < m1.last());
            assert(umap_contains(m1, m1[0]));
            let w = choose|w: int| 0 <= w < m2.len() && m2[w] == m1[0];
            assert(false);
        }
        let r1 = m1.drop_last();
        let r2 = m2.drop_last();
        assert(umap_wf(r1)) by {
            assert(r1[0] == m1[0]);
        }
        assert(umap_wf(r2)) by {
            assert(r2[0] == m2[0]);
        }
        assert forall|u: nat| umap_contains(r1, u) <==> umap_contains(r2, u) by {
            if umap_contains(r1, u) {
                let w = choose|w: int| 0 <= w < r1.len() && r1[w] == u;
                assert(m1[w] == u);
                assert(u < m1.last());
                assert(umap_contains(m2, u));
                let v = choose|v: int| 0 <= v < m2.len() && m2[v] == u;
                assert(v < m2.len() - 1) by {
                    if v == m2.len() - 1 {
                        assert(u == m2.last());
                    }
                }
                assert(r2[v] == u);
            }
            if umap_contains(r2, u) {
                let w = choose|w: int| 0 <= w < r2.len() && r2[w] == u;
                assert(m2[w] == u);
                assert(u < m2.last());
                assert(umap_contains(m1, u));
                let v = choose|v: int| 0 <= v < m1.len() && m1[v] == u;
                assert(v < m1.len() - 1) by {
                    if v == m1.len() - 1 {
                        assert(u == m1.last());
                    }
                }
                assert(r1[v] == u);
            }
        }
        lemma_umap_determined(r1, r2);
        assert(m1.len() == m2.len());
        assert forall|i: int| 0 <= i < m1.len() implies m1[i] == m2[i] by {
            if i < m1.len() - 1 {
                assert(r1[i] == m1[i]);
                assert(r2[i] == m2[i]);
                assert(r1[i] == r2[i]);
            } else {
                assert(m1[i] == m1.last());
                assert(m2[i] == m2.last());
            }
        }
        assert(m1 =~= m2);
    }
}

} // verus!
