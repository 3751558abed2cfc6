//! Per-player progress: which paths were completed since the last
//! daily reset, and which dungeon frequenter slots were filled since
//! the rotation last completed.

use super::Path;
use super::info::PathModel;
use crate::sets::lemma_push_to_set;
use crate::text::contains_str;
use vstd::prelude::*;
use vstd::seq_lib::seq_to_set_is_finite;
use vstd::string::StringExecFns;

verus! {

/// How many distinct credit-granting runs complete the dungeon
/// frequenter achievement and restart its cycle.
pub const ROTATION_SIZE: usize = 8;

/// The daily-completion set after running path `p`: its id is recorded,
/// idempotently.
pub open spec fn run_today(today: Set<Seq<char>>, p: PathModel) -> Set<Seq<char>> {
    today.insert(p.id)
}

/// The rotation-credit set after running path `p`: a path with a
/// rotation index fills its slot, and filling the last open slot of
/// the cycle clears the whole set in the same step.
pub open spec fn run_rotation(rotation: Set<u8>, p: PathModel) -> Set<u8> {
    match p.dungeon_frequenter_index {
        None => rotation,
        Some(i) => {
            let filled = rotation.insert(i);
            if filled.len() == ROTATION_SIZE {
                Set::empty()
            } else {
                filled
            }
        },
    }
}

/// Whether path `p` counts as run since the last daily reset.
pub open spec fn spec_has_ran(today: Set<Seq<char>>, p: PathModel) -> bool {
    today.contains(p.id)
}

/// Whether running `p` next would grant dungeon frequenter credit:
/// only a path with a still-open rotation slot does.
pub open spec fn spec_gives_credit(rotation: Set<u8>, p: PathModel) -> bool {
    match p.dungeon_frequenter_index {
        Some(i) => !rotation.contains(i),
        None => false,
    }
}

/// Tracks what dungeons a user has ran since the last daily reset
/// and from the last dungeon frequenter achievement completion.
pub struct UserProgress {
    dungeon_frequenter_progress: Vec<u8>,
    dungeons_ran_today: Vec<String>,
}

fn contains_index(v: &Vec<u8>, x: u8) -> (r: bool)
    ensures
        r == v@.contains(x),
{
    let mut i: usize = 0;
    while i < v.len()
        invariant
            i <= v@.len(),
            forall|j: int| 0 <= j < i ==> v@[j] != x,
        decreases v@.len() - i,
    {
        if v[i] == x {
            return true;
        }
        i = i + 1;
    }
    false
}

impl UserProgress {
    /// The set of rotation indices filled since the rotation last
    /// completed.
    pub closed spec fn rotation_set(self) -> Set<u8> {
        self.dungeon_frequenter_progress@.to_set()
    }

    /// The set of path ids completed since the last daily reset.
    pub closed spec fn today_set(self) -> Set<Seq<char>> {
        self.dungeons_ran_today@.map_values(|s: String| s@).to_set()
    }

    /// Internal well-formedness: each list names a member once, and
    /// the rotation never holds a completed cycle.
    pub closed spec fn inv(self) -> bool {
        &&& self.dungeon_frequenter_progress@.no_duplicates()
        &&& self.dungeon_frequenter_progress@.len() < ROTATION_SIZE
        &&& self.dungeons_ran_today@.map_values(|s: String| s@).no_duplicates()
    }

    /// Creates a tracker for a player that has never run a path.
    pub fn new() -> (r: UserProgress)
        ensures
            r.inv(),
            r.rotation_set() == Set::<u8>::empty(),
            r.today_set() == Set::<Seq<char>>::empty(),
    {
        let r = UserProgress {
            dungeon_frequenter_progress: Vec::new(),
            dungeons_ran_today: Vec::new(),
        };
        proof {
            assert(r.rotation_set() =~= Set::<u8>::empty());
            assert(r.dungeons_ran_today@.map_values(|s: String| s@) =~= Seq::<Seq<char>>::empty());
            assert(r.today_set() =~= Set::<Seq<char>>::empty());
        }
        r
    }

    /// Builds a tracker from a snapshot of fetched progress: the path
    /// ids completed since the last daily reset, and the rotation
    /// indices filled since the rotation last completed. Both lists
    /// must name each member once, and the rotation snapshot must be
    /// short of a completed cycle, as a completed cycle clears itself.
    pub fn from_snapshot(ran_today: Vec<String>, rotation: Vec<u8>) -> (r: UserProgress)
        requires
            ran_today@.map_values(|s: String| s@).no_duplicates(),
            rotation@.no_duplicates(),
            rotation@.len() < ROTATION_SIZE,
        ensures
            r.inv(),
            r.rotation_set() == rotation@.to_set(),
            r.today_set() == ran_today@.map_values(|s: String| s@).to_set(),
    {
        UserProgress { dungeon_frequenter_progress: rotation, dungeons_ran_today: ran_today }
    }

    /// How many rotation slots are currently filled.
    pub fn rotation_filled_count(&self) -> (r: usize)
        requires
            self.inv(),
        ensures
            r == self.rotation_set().len(),
    {
        proof {
            self.dungeon_frequenter_progress@.unique_seq_to_set();
        }
        self.dungeon_frequenter_progress.len()
    }

    /// Modifies a player info as if the player ran a dungeon path.
    pub fn run_path(&mut self, path: &Path)
        requires
            old(self).inv(),
        ensures
            final(self).inv(),
            final(self).today_set() == run_today(old(self).today_set(), path@.path),
            final(self).rotation_set() == run_rotation(old(self).rotation_set(), path@.path),
    {
        // handle dungeon frequenter achievement update
        if let Some(index) = path.dungeon_frequenter_index() {
            let ghost rotation_before = self.dungeon_frequenter_progress@;
            if !contains_index(&self.dungeon_frequenter_progress, index) {
                self.dungeon_frequenter_progress.push(index);
                proof {
                    lemma_push_to_set(rotation_before, index);
                    let after = self.dungeon_frequenter_progress@;
                    assert forall|a: int, b: int|
                        0 <= a < b < after.len() implies after[a] != after[b] by {
                        if b < rotation_before.len() {
                            assert(after[a] == rotation_before[a]);
                            assert(after[b] == rotation_before[b]);
                        } else {
                            assert(after[b] == index);
                            assert(after[a] == rotation_before[a]);
                        }
                    }
                    assert(after.no_duplicates());
                }
            } else {
                proof {
                    assert(rotation_before.to_set().contains(index));
                    assert(self.dungeon_frequenter_progress@.to_set() =~= rotation_before.to_set().insert(
                        index,
                    ));
                }
            }
            proof {
                broadcast use seq_to_set_is_finite;

                self.dungeon_frequenter_progress@.unique_seq_to_set();
            }
            if self.dungeon_frequenter_progress.len() == ROTATION_SIZE {
                self.dungeon_frequenter_progress.clear();
                proof {
                    assert(self.dungeon_frequenter_progress@.to_set() =~= Set::<u8>::empty());
                }
            }
        }
        // handle daily update
        let ghost today_before = self.dungeons_ran_today@.map_values(|s: String| s@);
        if !contains_str(&self.dungeons_ran_today, path.id()) {
            self.dungeons_ran_today.push(String::from_str(path.id()));
            proof {
                let after = self.dungeons_ran_today@.map_values(|s: String| s@);
                assert(after =~= today_before.push(path@.path.id));
                lemma_push_to_set(today_before, path@.path.id);
                assert forall|a: int, b: int|
                    0 <= a < b < after.len() implies after[a] != after[b] by {
                    if b < today_before.len() {
                        assert(after[a] == today_before[a]);
                        assert(after[b] == today_before[b]);
                    } else {
                        assert(after[b] == path@.path.id);
                        assert(after[a] == today_before[a]);
                    }
                }
                assert(after.no_duplicates());
            }
        } else {
            proof {
                assert(today_before.to_set().contains(path@.path.id));
                assert(self.dungeons_ran_today@.map_values(|s: String| s@).to_set()
                    =~= today_before.to_set().insert(path@.path.id));
            }
        }
    }

    /// Modifies a player info as if daily reset happened.
    pub fn daily_reset(&mut self)
        requires
            old(self).inv(),
        ensures
            final(self).inv(),
            final(self).today_set() == Set::<Seq<char>>::empty(),
            final(self).rotation_set() == old(self).rotation_set(),
    {
        self.dungeons_ran_today.clear();
        proof {
            assert(self.dungeons_ran_today@.map_values(|s: String| s@)
                =~= Seq::<Seq<char>>::empty());
            assert(self.today_set() =~= Set::<Seq<char>>::empty());
        }
    }

    /// Gets if a dungeon path has been ran today.
    pub fn has_ran_today(&self, path: &Path) -> (r: bool)
        ensures
            r == spec_has_ran(self.today_set(), path@.path),
    {
        contains_str(&self.dungeons_ran_today, path.id())
    }

    /// Gets if a dungeon path gives dungeon frequenter credit if it
    /// was ran next.
    pub fn gives_dungeon_frequenter_credit(&self, path: &Path) -> (r: bool)
        ensures
            r == spec_gives_credit(self.rotation_set(), path@.path),
    {
        match path.dungeon_frequenter_index() {
            Some(index) => !contains_index(&self.dungeon_frequenter_progress, index),
            None => false,
        }
    }
}

/// After a run the path counts as run today, and later runs of any
/// path never take that away.
pub proof fn lemma_run_monotone_today(today: Set<Seq<char>>, p: PathModel, q: PathModel)
    ensures
        spec_has_ran(run_today(today, p), p),
        spec_has_ran(today, p) ==> spec_has_ran(run_today(today, q), p),
{
}

/// A daily reset makes every "ran today" answer false and leaves every
/// credit answer as it was.
pub proof fn lemma_daily_reset_effect(
    before: UserProgress,
    after: UserProgress,
    p: PathModel,
)
    requires
        after.today_set() == Set::<Seq<char>>::empty(),
        after.rotation_set() == before.rotation_set(),
    ensures
        !spec_has_ran(after.today_set(), p),
        spec_gives_credit(after.rotation_set(), p) == spec_gives_credit(before.rotation_set(), p),
{
}

/// Runs a sequence of paths through the rotation cycle, oldest first.
pub open spec fn run_rotation_seq(rotation: Set<u8>, ps: Seq<PathModel>) -> Set<u8>
    decreases ps.len(),
{
    if ps.len() == 0 {
        rotation
    } else {
        run_rotation_seq(run_rotation(rotation, ps[0]), ps.drop_first())
    }
}

/// Every path of `ps` carries a rotation index.
pub open spec fn all_indexed(ps: Seq<PathModel>) -> bool {
    forall|k: int| 0 <= k < ps.len() ==> (#[trigger] ps[k]).dungeon_frequenter_index is Some
}

/// No two paths of `ps` share a rotation index.
pub open spec fn distinct_indices(ps: Seq<PathModel>) -> bool {
    forall|k1: int, k2: int|
        0 <= k1 < k2 < ps.len() ==> (#[trigger] ps[k1]).dungeon_frequenter_index != (
        #[trigger] ps[k2]).dungeon_frequenter_index
}

/// The rotation indices carried by the paths of `ps`.
pub open spec fn indices_of(ps: Seq<PathModel>) -> Set<u8> {
    ps.map_values(|p: PathModel| p.dungeon_frequenter_index->Some_0).to_set()
}

proof fn lemma_run_rotation_seq_snoc(rotation: Set<u8>, ps: Seq<PathModel>, p: PathModel)
    ensures
        run_rotation_seq(rotation, ps.push(p)) == run_rotation(run_rotation_seq(rotation, ps), p),
    decreases ps.len(),
{
    if ps.len() == 0 {
        assert(ps.push(p)[0] == p);
        assert(ps.push(p).drop_first() =~= Seq::<PathModel>::empty());
        assert(run_rotation_seq(rotation, ps.push(p)) == run_rotation_seq(
            run_rotation(rotation, p),
            Seq::<PathModel>::empty(),
        ));
        assert(run_rotation_seq(run_rotation(rotation, p), Seq::<PathModel>::empty())
            == run_rotation(rotation, p));
        assert(run_rotation_seq(rotation, ps) == rotation);
    } else {
        assert(ps.push(p)[0] == ps[0]);
        assert(ps.push(p).drop_first() =~= ps.drop_first().push(p));
        lemma_run_rotation_seq_snoc(run_rotation(rotation, ps[0]), ps.drop_first(), p);
        assert(run_rotation_seq(rotation, ps.push(p)) == run_rotation_seq(
            run_rotation(rotation, ps[0]),
            ps.drop_first().push(p),
        ));
        assert(run_rotation_seq(rotation, ps) == run_rotation_seq(
            run_rotation(rotation, ps[0]),
            ps.drop_first(),
        ));
    }
}

proof fn lemma_rotation_cycle_prefix(ps: Seq<PathModel>, k: int)
    requires
        all_indexed(ps),
        distinct_indices(ps),
        0 <= k <= ps.len(),
    ensures
        run_rotation_seq(Set::empty(), ps.take(k)) == indices_of(ps.subrange(k - (k % 8), k)),
        run_rotation_seq(Set::empty(), ps.take(k)).len() == k % 8,
    decreases k,
{
    broadcast use seq_to_set_is_finite;

    if k == 0 {
        assert(ps.take(0) =~= Seq::<PathModel>::empty());
        assert(ps.subrange(0, 0) =~= Seq::<PathModel>::empty());
        assert(indices_of(ps.subrange(0, 0)) =~= Set::<u8>::empty());
    } else {
        lemma_rotation_cycle_prefix(ps, k - 1);
        let p = ps[k - 1];
        let i = p.dungeon_frequenter_index->Some_0;
        let before = run_rotation_seq(Set::empty(), ps.take(k - 1));
        let prev_lo = (k - 1) - ((k - 1) % 8);
        let prev = ps.subrange(prev_lo, k - 1);
        assert(ps.take(k) =~= ps.take(k - 1).push(p));
        lemma_run_rotation_seq_snoc(Set::empty(), ps.take(k - 1), p);
        // The new index is not among those of the open cycle segment.
        assert(!before.contains(i)) by {
            if before.contains(i) {
                let mapped = prev.map_values(|q: PathModel| q.dungeon_frequenter_index->Some_0);
                let m = choose|m: int| 0 <= m < mapped.len() && mapped[m] == i;
                assert(ps[prev_lo + m].dungeon_frequenter_index == Some(i));
                assert(ps[k - 1].dungeon_frequenter_index == Some(i));
                assert(prev_lo + m < k - 1);
            }
        }
        let filled = before.insert(i);
        assert(filled.len() == (k - 1) % 8 + 1);
        assert(run_rotation(before, p) == (if filled.len() == 8 {
            Set::<u8>::empty()
        } else {
            filled
        }));
        if (k - 1) % 8 == 7 {
            assert(k % 8 == 0);
            assert(ps.subrange(k, k) =~= Seq::<PathModel>::empty());
            assert(indices_of(ps.subrange(k, k)) =~= Set::<u8>::empty());
        } else {
            assert(k % 8 == (k - 1) % 8 + 1);
            assert(k - (k % 8) == prev_lo);
            assert(ps.subrange(prev_lo, k) =~= prev.push(p));
            assert(indices_of(prev.push(p)) == indices_of(prev).insert(i)) by {
                assert(prev.push(p).map_values(|q: PathModel| q.dungeon_frequenter_index->Some_0)
                    =~= prev.map_values(|q: PathModel| q.dungeon_frequenter_index->Some_0).push(i));
                lemma_push_to_set(
                    prev.map_values(|q: PathModel| q.dungeon_frequenter_index->Some_0),
                    i,
                );
            }
        }
    }
}

/// Running each of the thirty-two rotation-eligible paths once, in any
/// order, completes the cycle exactly four times and leaves the
/// rotation set empty again; a following eligible run is owed credit
/// beforehand and is the sole filled slot afterward.
pub proof fn lemma_rotation_cycle(ps: Seq<PathModel>, next: PathModel)
    requires
        ps.len() == 32,
        all_indexed(ps),
        distinct_indices(ps),
        next.dungeon_frequenter_index is Some,
    ensures
        run_rotation_seq(Set::empty(), ps) == Set::<u8>::empty(),
        spec_gives_credit(run_rotation_seq(Set::empty(), ps), next),
        run_rotation(run_rotation_seq(Set::empty(), ps), next) == Set::<u8>::empty().insert(
            next.dungeon_frequenter_index->Some_0,
        ),
{
    broadcast use seq_to_set_is_finite;

    lemma_rotation_cycle_prefix(ps, 32);
    assert(ps.take(32) =~= ps);
    assert(ps.subrange(32, 32) =~= Seq::<PathModel>::empty());
    assert(indices_of(ps.subrange(32, 32)) =~= Set::<u8>::empty());
    let i = next.dungeon_frequenter_index->Some_0;
    let filled = Set::<u8>::empty().insert(i);
    assert(filled.len() == 1);
}

} // verus!
