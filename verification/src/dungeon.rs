//! Dungeon and path handles over the fixed catalogue, with lookup by
//! path id and by dungeon frequenter rotation index.

pub mod info;
pub mod user;

use crate::text::str_eq;
use info::DungeonInfo;
use info::DungeonModel;
use info::PathInfo;
use info::PathModel;
use info::Rewards;
use info::ac_model;
use info::arah_model;
use info::build_dungeon;
use info::cm_model;
use info::coe_model;
use info::cof_model;
use info::hotw_model;
use info::se_model;
use info::spec_dungeons;
use info::ta_model;
pub use user::UserProgress;
use vstd::prelude::*;
use vstd::string::StringExecFns;

verus! {

/// Information about a dungeon.
#[derive(Debug)]
pub struct Dungeon {
    info: DungeonInfo,
}

/// Information about a path within a dungeon.
#[derive(Debug)]
pub struct Path {
    info: PathInfo,
    dungeon: DungeonInfo,
}

/// The mathematical image of a `Path`: the path's own record paired
/// with the record of the dungeon that owns it.
#[verifier::ext_equal]
pub struct PathView {
    pub path: PathModel,
    pub dungeon: DungeonModel,
}

impl View for Dungeon {
    type V = DungeonModel;

    closed spec fn view(&self) -> DungeonModel {
        self.info@
    }
}

impl View for Path {
    type V = PathView;

    closed spec fn view(&self) -> PathView {
        PathView { path: self.info@, dungeon: self.dungeon@ }
    }
}

/// The paths of dungeon `d`, each paired with `d` as its owner.
pub open spec fn paths_of(d: DungeonModel) -> Seq<PathView> {
    d.paths.map_values(|p: PathModel| PathView { path: p, dungeon: d })
}

/// Every path of the catalogue, dungeon by dungeon, in declaration
/// order.
pub open spec fn spec_all_paths() -> Seq<PathView> {
    paths_of(ac_model()) + paths_of(cm_model()) + paths_of(ta_model()) + paths_of(se_model())
        + paths_of(cof_model()) + paths_of(hotw_model()) + paths_of(coe_model()) + paths_of(
        arah_model(),
    )
}

/// The first coins paid for a path with rewards `rw` on its first
/// completion of a day.
pub open spec fn spec_first_coins(rw: Rewards) -> int {
    match rw {
        Rewards::Story { coins } => coins as int,
        Rewards::Explorable { bonus_coins } => 26_00 + bonus_coins as int,
    }
}

/// The coins paid for a repeated completion within the same day.
pub open spec fn spec_repeat_coins(rw: Rewards) -> int {
    match rw {
        Rewards::Story { coins } => coins as int,
        Rewards::Explorable { .. } => 26_00,
    }
}

/// The tokens paid on the first completion of a day.
pub open spec fn spec_first_tokens(rw: Rewards) -> int {
    match rw {
        Rewards::Story { .. } => 0,
        Rewards::Explorable { .. } => 100,
    }
}

/// The tokens paid on a repeated completion within the same day.
pub open spec fn spec_repeat_tokens(rw: Rewards) -> int {
    match rw {
        Rewards::Story { .. } => 0,
        Rewards::Explorable { .. } => 20,
    }
}

/// Where the paths of dungeon `k` start within the flattened catalogue:
/// the first seven dungeons hold four paths each.
pub open spec fn dungeon_base(k: int) -> int {
    4 * k
}

/// The path counts of the eight catalogue entries, and of the whole
/// flattened catalogue.
proof fn lemma_catalogue_lens()
    ensures
        paths_of(ac_model()).len() == 4,
        paths_of(cm_model()).len() == 4,
        paths_of(ta_model()).len() == 4,
        paths_of(se_model()).len() == 4,
        paths_of(cof_model()).len() == 4,
        paths_of(hotw_model()).len() == 4,
        paths_of(coe_model()).len() == 4,
        paths_of(arah_model()).len() == 5,
        spec_all_paths().len() == 33,
{
}

/// Positions the `i`-th path of dungeon `k` within the flattened
/// catalogue.
pub proof fn lemma_all_paths_segment(k: int, i: int)
    requires
        0 <= k < 8,
        0 <= i < spec_dungeons()[k].paths.len(),
    ensures
        spec_all_paths().len() == 33,
        0 <= dungeon_base(k) + i < 33,
        spec_all_paths()[dungeon_base(k) + i] == (PathView {
            path: spec_dungeons()[k].paths[i],
            dungeon: spec_dungeons()[k],
        }),
{
    lemma_catalogue_lens();
    if k == 0 {
        assert(spec_all_paths()[i] == paths_of(ac_model())[i]);
    } else if k == 1 {
        assert(spec_all_paths()[4 + i] == paths_of(cm_model())[i]);
    } else if k == 2 {
        assert(spec_all_paths()[8 + i] == paths_of(ta_model())[i]);
    } else if k == 3 {
        assert(spec_all_paths()[12 + i] == paths_of(se_model())[i]);
    } else if k == 4 {
        assert(spec_all_paths()[16 + i] == paths_of(cof_model())[i]);
    } else if k == 5 {
        assert(spec_all_paths()[20 + i] == paths_of(hotw_model())[i]);
    } else if k == 6 {
        assert(spec_all_paths()[24 + i] == paths_of(coe_model())[i]);
    } else {
        assert(spec_all_paths()[28 + i] == paths_of(arah_model())[i]);
    }
}

/// A catalogue member breaks into a dungeon of the catalogue and a path
/// of that dungeon.
pub proof fn lemma_wf_path_parts(pv: PathView)
    requires
        spec_all_paths().contains(pv),
    ensures
        spec_dungeons().contains(pv.dungeon),
        pv.dungeon.paths.contains(pv.path),
{
    lemma_catalogue_lens();
    let j = choose|j: int| 0 <= j < spec_all_paths().len() && spec_all_paths()[j] == pv;
    let k: int = if j < 28 {
        j / 4
    } else {
        7
    };
    let i = j - dungeon_base(k);
    assert(0 <= k < 8 && 0 <= i < spec_dungeons()[k].paths.len());
    lemma_all_paths_segment(k, i);
    assert(pv.dungeon == spec_dungeons()[k]);
    assert(pv.path == spec_dungeons()[k].paths[i]);
    assert(spec_dungeons().contains(pv.dungeon)) by {
        assert(spec_dungeons()[k] == pv.dungeon);
    }
}

impl Dungeon {
    /// A dungeon handle is well formed when it carries an entry of the
    /// catalogue.
    pub open spec fn wf(self) -> bool {
        spec_dungeons().contains(self@)
    }

    /// Gets every dungeon.
    pub fn all() -> (r: Vec<Dungeon>)
        ensures
            r@.map_values(|d: Dungeon| d@) == spec_dungeons(),
            r@.len() == 8,
            forall|i: int| 0 <= i < 8 ==> (#[trigger] r@[i]).wf(),
    {
        let mut out: Vec<Dungeon> = Vec::new();
        let mut k: usize = 0;
        while k < 8
            invariant
                k <= 8,
                out@.len() == k,
                forall|i: int| 0 <= i < k ==> (#[trigger] out@[i])@ == spec_dungeons()[i],
            decreases 8 - k,
        {
            out.push(Dungeon { info: build_dungeon(k) });
            k = k + 1;
        }
        proof {
            assert(out@.map_values(|d: Dungeon| d@) =~= spec_dungeons());
            assert forall|i: int| 0 <= i < 8 implies (#[trigger] out@[i]).wf() by {
                assert(spec_dungeons()[i] == out@[i]@);
            }
        }
        out
    }

    /// Gets the name of the dungeon.
    pub fn name(&self) -> (r: &str)
        ensures
            r@ == self@.long_name,
    {
        self.info.long_name.as_str()
    }

    /// Gets a short name for this dungeon.
    pub fn short_name(&self) -> (r: &str)
        ensures
            r@ == self@.short_name,
    {
        self.info.short_name.as_str()
    }

    /// Gets the achievement id of the skin collection achievement for
    /// this dungeon.
    pub fn collection_id(&self) -> (r: u32)
        ensures
            r == self@.collection_id,
    {
        self.info.collection_id
    }

    /// Gets the wallet currency id of the dungeon token for this
    /// dungeon.
    pub fn currency_id(&self) -> (r: u32)
        ensures
            r == self@.currency_id,
    {
        self.info.currency_id
    }

    /// Gets all paths in this dungeon.
    pub fn paths(&self) -> (r: Vec<Path>)
        requires
            self.wf(),
        ensures
            r@.map_values(|p: Path| p@) == paths_of(self@),
            forall|i: int| 0 <= i < r@.len() ==> (#[trigger] r@[i]).wf(),
    {
        let mut out: Vec<Path> = Vec::new();
        let mut i: usize = 0;
        while i < self.info.paths.len()
            invariant
                i <= self.info.paths@.len(),
                out@.len() == i,
                forall|j: int| 0 <= j < i ==> (#[trigger] out@[j])@ == paths_of(self@)[j],
            decreases self.info.paths@.len() - i,
        {
            out.push(Path { info: self.info.paths[i].clone(), dungeon: self.info.clone() });
            i = i + 1;
        }
        proof {
            assert(out@.map_values(|p: Path| p@) =~= paths_of(self@));
            let k = choose|k: int| 0 <= k < spec_dungeons().len() && spec_dungeons()[k] == self@;
            assert forall|i2: int| 0 <= i2 < out@.len() implies (#[trigger] out@[i2]).wf() by {
                lemma_all_paths_segment(k, i2);
                assert(spec_all_paths()[dungeon_base(k) + i2] == out@[i2]@);
                assert(spec_all_paths().contains(out@[i2]@));
            }
        }
        out
    }
}

impl Path {
    /// A path handle is well formed when it comes from the catalogue.
    pub open spec fn wf(self) -> bool {
        spec_all_paths().contains(self@)
    }

    /// Whether the first-per-day coin amount of this path fits a `u32`.
    pub open spec fn rewards_fit(self) -> bool {
        match self@.path.rewards {
            Rewards::Story { .. } => true,
            Rewards::Explorable { bonus_coins } => bonus_coins + 26_00 <= u32::MAX,
        }
    }

    /// Gets every dungeon path.
    pub fn all() -> (r: Vec<Path>)
        ensures
            r@.map_values(|p: Path| p@) == spec_all_paths(),
            r@.len() == 33,
            forall|i: int| 0 <= i < r@.len() ==> (#[trigger] r@[i]).wf(),
    {
        let dungeons = Dungeon::all();
        let mut out: Vec<Path> = Vec::new();
        let mut k: usize = 0;
        while k < 8
            invariant
                k <= 8,
                dungeons@.len() == 8,
                forall|i: int| 0 <= i < 8 ==> (#[trigger] dungeons@[i])@ == spec_dungeons()[i],
                forall|i: int| 0 <= i < 8 ==> (#[trigger] dungeons@[i]).wf(),
                out@.map_values(|p: Path| p@) == spec_paths_prefix(k as int),
                forall|i: int| 0 <= i < out@.len() ==> (#[trigger] out@[i]).wf(),
            decreases 8 - k,
        {
            let ghost out_before = out@;
            let mut ps = dungeons[k].paths();
            out.append(&mut ps);
            proof {
                assert(out@.map_values(|p: Path| p@) =~= out_before.map_values(|p: Path| p@)
                    + paths_of(spec_dungeons()[k as int]));
            }
            k = k + 1;
        }
        proof {
            lemma_paths_prefix_full();
            assert(spec_all_paths().len() == 33) by {
                lemma_all_paths_segment(0, 0);
            }
        }
        out
    }

    /// Looks up a path by its id.
    pub fn from_id(path_id: &str) -> (r: Option<Path>)
        ensures
            match r {
                Some(p) => p.wf() && p@.path.id == path_id@,
                None => forall|j: int|
                    0 <= j < spec_all_paths().len() ==> (#[trigger] spec_all_paths()[j]).path.id
                        != path_id@,
            },
    {
        let mut all = Path::all();
        let mut i: usize = 0;
        while i < all.len()
            invariant
                all@.len() == 33,
                all@.map_values(|p: Path| p@) == spec_all_paths(),
                forall|j: int| 0 <= j < 33 ==> (#[trigger] all@[j]).wf(),
                i <= 33,
                forall|j: int|
                    0 <= j < i ==> (#[trigger] spec_all_paths()[j]).path.id != path_id@,
            decreases 33 - i,
        {
            if str_eq(path_id, all[i].id()) {
                return Some(all.remove(i));
            }
            i = i + 1;
        }
        None
    }

    /// Looks up a path by its index into the dungeon frequenter bits
    /// list.
    pub fn from_dungeon_frequenter_index(index: u8) -> (r: Option<Path>)
        ensures
            match r {
                Some(p) => p.wf() && p@.path.dungeon_frequenter_index == Some(index),
                None => forall|j: int|
                    0 <= j < spec_all_paths().len() ==> (#[trigger] spec_all_paths()[j]).path.dungeon_frequenter_index
                        != Some(index),
            },
    {
        let mut all = Path::all();
        let mut i: usize = 0;
        while i < all.len()
            invariant
                all@.len() == 33,
                all@.map_values(|p: Path| p@) == spec_all_paths(),
                forall|j: int| 0 <= j < 33 ==> (#[trigger] all@[j]).wf(),
                i <= 33,
                forall|j: int|
                    0 <= j < i ==> (#[trigger] spec_all_paths()[j]).path.dungeon_frequenter_index
                        != Some(index),
            decreases 33 - i,
        {
            let found = match all[i].dungeon_frequenter_index() {
                Some(pi) => pi == index,
                None => false,
            };
            if found {
                return Some(all.remove(i));
            }
            i = i + 1;
        }
        None
    }

    /// Gets the dungeon that contains this path.
    pub fn dungeon(&self) -> (r: Dungeon)
        ensures
            r@ == self@.dungeon,
            self.wf() ==> r.wf(),
    {
        proof {
            if self.wf() {
                lemma_wf_path_parts(self@);
            }
        }
        Dungeon { info: self.dungeon.clone() }
    }

    /// Gets the unique dungeon path id used by the remote API for this
    /// path.
    pub fn id(&self) -> (r: &str)
        ensures
            r@ == self@.path.id,
    {
        self.info.id.as_str()
    }

    /// Gets the name of this path.
    pub fn name(&self) -> (r: &str)
        ensures
            r@ == self@.path.long_name,
    {
        self.info.long_name.as_str()
    }

    /// Gets a short name for this path. This is typically used in LFG.
    pub fn short_name(&self) -> (r: &str)
        ensures
            r@ == self@.path.short_name,
    {
        self.info.short_name.as_str()
    }

    /// Gets the index into the dungeon frequenter achievement bits
    /// array for this dungeon path.
    pub fn dungeon_frequenter_index(&self) -> (r: Option<u8>)
        ensures
            r == self@.path.dungeon_frequenter_index,
    {
        self.info.dungeon_frequenter_index
    }

    /// The number of coins gotten by doing this dungeon path the first
    /// time in a day.
    pub fn coins(&self) -> (r: u32)
        requires
            self.wf(),
        ensures
            r as int == spec_first_coins(self@.path.rewards),
    {
        proof {
            lemma_catalogue_rewards_fit(self@);
        }
        match self.info.rewards {
            Rewards::Story { coins } => coins,
            Rewards::Explorable { bonus_coins } => 26_00 + bonus_coins,
        }
    }

    /// The number of coins gotten by doing this dungeon repeatedly in a
    /// day.
    pub fn repeat_coins(&self) -> (r: u32)
        ensures
            r as int == spec_repeat_coins(self@.path.rewards),
    {
        match self.info.rewards {
            Rewards::Story { coins } => coins,
            Rewards::Explorable { .. } => 26_00,
        }
    }

    /// The number of tokens gotten by doing this dungeon path the first
    /// time in a day.
    pub fn tokens(&self) -> (r: u32)
        ensures
            r as int == spec_first_tokens(self@.path.rewards),
    {
        match self.info.rewards {
            Rewards::Story { .. } => 0,
            Rewards::Explorable { .. } => 100,
        }
    }

    /// The number of tokens gotten by doing this dungeon repeatedly in
    /// a day.
    pub fn repeat_tokens(&self) -> (r: u32)
        ensures
            r as int == spec_repeat_tokens(self@.path.rewards),
    {
        match self.info.rewards {
            Rewards::Story { .. } => 0,
            Rewards::Explorable { .. } => 20,
        }
    }
}

/// The flattened paths of the first `k` dungeons of the catalogue.
pub open spec fn spec_paths_prefix(k: int) -> Seq<PathView>
    decreases k,
{
    if k <= 0 {
        Seq::empty()
    } else {
        spec_paths_prefix(k - 1) + paths_of(spec_dungeons()[k - 1])
    }
}

/// The flattened paths of all eight dungeons are the whole catalogue.
pub proof fn lemma_paths_prefix_full()
    ensures
        spec_paths_prefix(8) == spec_all_paths(),
{
    reveal_with_fuel(spec_paths_prefix, 9);
    assert(spec_paths_prefix(8) =~= spec_all_paths());
}

/// Fingerprint that separates every path id of the catalogue: the
/// length and the first three characters.
spec fn id_fingerprint(s: Seq<char>) -> (int, char, char, char)
    recommends
        s.len() >= 3,
{
    (s.len() as int, s[0], s[1], s[2])
}

/// The fingerprint of the path id at each catalogue position.
spec fn id_fingerprint_at(j: int) -> (int, char, char, char) {
    if j == 0 {
        (8, 'a', 'c', '_')
    } else if j == 1 {
        (7, 'h', 'o', 'd')
    } else if j == 2 {
        (5, 'd', 'e', 't')
    } else if j == 3 {
        (5, 't', 'z', 'a')
    } else if j == 4 {
        (8, 'c', 'm', '_')
    } else if j == 5 {
        (5, 'a', 's', 'u')
    } else if j == 6 {
        (6, 's', 'e', 'r')
    } else if j == 7 {
        (6, 'b', 'u', 't')
    } else if j == 8 {
        (8, 't', 'a', '_')
    } else if j == 9 {
        (7, 'l', 'e', 'u')
    } else if j == 10 {
        (6, 'v', 'e', 'v')
    } else if j == 11 {
        (10, 'a', 'e', 't')
    } else if j == 12 {
        (8, 's', 'e', '_')
    } else if j == 13 {
        (5, 'f', 'e', 'r')
    } else if j == 14 {
        (7, 'r', 'a', 's')
    } else if j == 15 {
        (6, 'k', 'o', 'p')
    } else if j == 16 {
        (9, 'c', 'o', 'f')
    } else if j == 17 {
        (6, 'f', 'e', 'r')
    } else if j == 18 {
        (4, 'm', 'a', 'g')
    } else if j == 19 {
        (8, 'r', 'h', 'i')
    } else if j == 20 {
        (10, 'h', 'o', 't')
    } else if j == 21 {
        (7, 'b', 'u', 't')
    } else if j == 22 {
        (9, 'p', 'l', 'u')
    } else if j == 23 {
        (6, 'z', 'e', 'a')
    } else if j == 24 {
        (9, 'c', 'o', 'e')
    } else if j == 25 {
        (9, 's', 'u', 'b')
    } else if j == 26 {
        (10, 't', 'e', 'l')
    } else if j == 27 {
        (10, 'f', 'r', 'o')
    } else if j == 28 {
        (10, 'a', 'r', 'a')
    } else if j == 29 {
        (5, 'j', 'o', 't')
    } else if j == 30 {
        (7, 'm', 'u', 'r')
    } else if j == 31 {
        (9, 'f', 'o', 'r')
    } else {
        (4, 's', 'e', 'e')
    }
}

proof fn lemma_id_fingerprint_d0(j: int)
    requires
        0 <= j < 4,
    ensures
        spec_all_paths().len() == 33,
        spec_all_paths()[j].path.id.len() >= 3,
        id_fingerprint(spec_all_paths()[j].path.id) == id_fingerprint_at(j),
{
    reveal_strlit("ac_story");
    reveal_strlit("hodgins");
    reveal_strlit("detha");
    reveal_strlit("tzark");
    if j == 0 {
        lemma_all_paths_segment(0, 0);
        assert(spec_all_paths()[0].path.id == "ac_story"@);
    } else if j == 1 {
        lemma_all_paths_segment(0, 1);
        assert(spec_all_paths()[1].path.id == "hodgins"@);
    } else if j == 2 {
        lemma_all_paths_segment(0, 2);
        assert(spec_all_paths()[2].path.id == "detha"@);
    } else {
        lemma_all_paths_segment(0, 3);
        assert(spec_all_paths()[3].path.id == "tzark"@);
    }
}

proof fn lemma_id_fingerprint_d1(j: int)
    requires
        4 <= j < 8,
    ensures
        spec_all_paths().len() == 33,
        spec_all_paths()[j].path.id.len() >= 3,
        id_fingerprint(spec_all_paths()[j].path.id) == id_fingerprint_at(j),
{
    reveal_strlit("cm_story");
    reveal_strlit("asura");
    reveal_strlit("seraph");
    reveal_strlit("butler");
    if j == 4 {
        lemma_all_paths_segment(1, 0);
        assert(spec_all_paths()[4].path.id == "cm_story"@);
    } else if j == 5 {
        lemma_all_paths_segment(1, 1);
        assert(spec_all_paths()[5].path.id == "asura"@);
    } else if j == 6 {
        lemma_all_paths_segment(1, 2);
        assert(spec_all_paths()[6].path.id == "seraph"@);
    } else {
        lemma_all_paths_segment(1, 3);
        assert(spec_all_paths()[7].path.id == "butler"@);
    }
}

proof fn lemma_id_fingerprint_d2(j: int)
    requires
        8 <= j < 12,
    ensures
        spec_all_paths().len() == 33,
        spec_all_paths()[j].path.id.len() >= 3,
        id_fingerprint(spec_all_paths()[j].path.id) == id_fingerprint_at(j),
{
    reveal_strlit("ta_story");
    reveal_strlit("leurent");
    reveal_strlit("vevina");
    reveal_strlit("aetherpath");
    if j == 8 {
        lemma_all_paths_segment(2, 0);
        assert(spec_all_paths()[8].path.id == "ta_story"@);
    } else if j == 9 {
        lemma_all_paths_segment(2, 1);
        assert(spec_all_paths()[9].path.id == "leurent"@);
    } else if j == 10 {
        lemma_all_paths_segment(2, 2);
        assert(spec_all_paths()[10].path.id == "vevina"@);
    } else {
        lemma_all_paths_segment(2, 3);
        assert(spec_all_paths()[11].path.id == "aetherpath"@);
    }
}

proof fn lemma_id_fingerprint_d3(j: int)
    requires
        12 <= j < 16,
    ensures
        spec_all_paths().len() == 33,
        spec_all_paths()[j].path.id.len() >= 3,
        id_fingerprint(spec_all_paths()[j].path.id) == id_fingerprint_at(j),
{
    reveal_strlit("se_story");
    reveal_strlit("fergg");
    reveal_strlit("rasalov");
    reveal_strlit("koptev");
    if j == 12 {
        lemma_all_paths_segment(3, 0);
        assert(spec_all_paths()[12].path.id == "se_story"@);
    } else if j == 13 {
        lemma_all_paths_segment(3, 1);
        assert(spec_all_paths()[13].path.id == "fergg"@);
    } else if j == 14 {
        lemma_all_paths_segment(3, 2);
        assert(spec_all_paths()[14].path.id == "rasalov"@);
    } else {
        lemma_all_paths_segment(3, 3);
        assert(spec_all_paths()[15].path.id == "koptev"@);
    }
}

proof fn lemma_id_fingerprint_d4(j: int)
    requires
        16 <= j < 20,
    ensures
        spec_all_paths().len() == 33,
        spec_all_paths()[j].path.id.len() >= 3,
        id_fingerprint(spec_all_paths()[j].path.id) == id_fingerprint_at(j),
{
    reveal_strlit("cof_story");
    reveal_strlit("ferrah");
    reveal_strlit("magg");
    reveal_strlit("rhiannon");
    if j == 16 {
        lemma_all_paths_segment(4, 0);
        assert(spec_all_paths()[16].path.id == "cof_story"@);
    } else if j == 17 {
        lemma_all_paths_segment(4, 1);
        assert(spec_all_paths()[17].path.id == "ferrah"@);
    } else if j == 18 {
        lemma_all_paths_segment(4, 2);
        assert(spec_all_paths()[18].path.id == "magg"@);
    } else {
        lemma_all_paths_segment(4, 3);
        assert(spec_all_paths()[19].path.id == "rhiannon"@);
    }
}

proof fn lemma_id_fingerprint_d5(j: int)
    requires
        20 <= j < 24,
    ensures
        spec_all_paths().len() == 33,
        spec_all_paths()[j].path.id.len() >= 3,
        id_fingerprint(spec_all_paths()[j].path.id) == id_fingerprint_at(j),
{
    reveal_strlit("hotw_story");
    reveal_strlit("butcher");
    reveal_strlit("plunderer");
    reveal_strlit("zealot");
    if j == 20 {
        lemma_all_paths_segment(5, 0);
        assert(spec_all_paths()[20].path.id == "hotw_story"@);
    } else if j == 21 {
        lemma_all_paths_segment(5, 1);
        assert(spec_all_paths()[21].path.id == "butcher"@);
    } else if j == 22 {
        lemma_all_paths_segment(5, 2);
        assert(spec_all_paths()[22].path.id == "plunderer"@);
    } else {
        lemma_all_paths_segment(5, 3);
        assert(spec_all_paths()[23].path.id == "zealot"@);
    }
}

proof fn lemma_id_fingerprint_d6(j: int)
    requires
        24 <= j < 28,
    ensures
        spec_all_paths().len() == 33,
        spec_all_paths()[j].path.id.len() >= 3,
        id_fingerprint(spec_all_paths()[j].path.id) == id_fingerprint_at(j),
{
    reveal_strlit("coe_story");
    reveal_strlit("submarine");
    reveal_strlit("teleporter");
    reveal_strlit("front_door");
    if j == 24 {
        lemma_all_paths_segment(6, 0);
        assert(spec_all_paths()[24].path.id == "coe_story"@);
    } else if j == 25 {
        lemma_all_paths_segment(6, 1);
        assert(spec_all_paths()[25].path.id == "submarine"@);
    } else if j == 26 {
        lemma_all_paths_segment(6, 2);
        assert(spec_all_paths()[26].path.id == "teleporter"@);
    } else {
        lemma_all_paths_segment(6, 3);
        assert(spec_all_paths()[27].path.id == "front_door"@);
    }
}

proof fn lemma_id_fingerprint_d7(j: int)
    requires
        28 <= j < 33,
    ensures
        spec_all_paths().len() == 33,
        spec_all_paths()[j].path.id.len() >= 3,
        id_fingerprint(spec_all_paths()[j].path.id) == id_fingerprint_at(j),
{
    reveal_strlit("arah_story");
    reveal_strlit("jotun");
    reveal_strlit("mursaat");
    reveal_strlit("forgotten");
    reveal_strlit("seer");
    if j == 28 {
        lemma_all_paths_segment(7, 0);
        assert(spec_all_paths()[28].path.id == "arah_story"@);
    } else if j == 29 {
        lemma_all_paths_segment(7, 1);
        assert(spec_all_paths()[29].path.id == "jotun"@);
    } else if j == 30 {
        lemma_all_paths_segment(7, 2);
        assert(spec_all_paths()[30].path.id == "mursaat"@);
    } else if j == 31 {
        lemma_all_paths_segment(7, 3);
        assert(spec_all_paths()[31].path.id == "forgotten"@);
    } else {
        lemma_all_paths_segment(7, 4);
        assert(spec_all_paths()[32].path.id == "seer"@);
    }
}

proof fn lemma_id_fingerprint(j: int)
    requires
        0 <= j < 33,
    ensures
        spec_all_paths().len() == 33,
        spec_all_paths()[j].path.id.len() >= 3,
        id_fingerprint(spec_all_paths()[j].path.id) == id_fingerprint_at(j),
{
    if j < 4 {
        lemma_id_fingerprint_d0(j);
    } else if j < 8 {
        lemma_id_fingerprint_d1(j);
    } else if j < 12 {
        lemma_id_fingerprint_d2(j);
    } else if j < 16 {
        lemma_id_fingerprint_d3(j);
    } else if j < 20 {
        lemma_id_fingerprint_d4(j);
    } else if j < 24 {
        lemma_id_fingerprint_d5(j);
    } else if j < 28 {
        lemma_id_fingerprint_d6(j);
    } else {
        lemma_id_fingerprint_d7(j);
    }
}

/// Distinct catalogue positions never share a path id: a known path id
/// resolves to exactly one path of the catalogue.
pub proof fn lemma_path_ids_unique(i: int, j: int)
    requires
        0 <= i < spec_all_paths().len(),
        0 <= j < spec_all_paths().len(),
        spec_all_paths()[i].path.id == spec_all_paths()[j].path.id,
    ensures
        i == j,
{
    if i != j {
        lemma_id_fingerprint(i);
        lemma_id_fingerprint(j);
        assert(id_fingerprint_at(i) == id_fingerprint_at(j));
        assert(false);
    }
}

/// Every bonus coin amount of the catalogue leaves the first-per-day
/// sum within a `u32`.
pub proof fn lemma_catalogue_rewards_fit(pv: PathView)
    requires
        spec_all_paths().contains(pv),
    ensures
        match pv.path.rewards {
            Rewards::Story { .. } => true,
            Rewards::Explorable { bonus_coins } => bonus_coins + 26_00 <= u32::MAX,
        },
{
    lemma_catalogue_lens();
}

/// A story path pays the same fixed coins first and on repeat and never
/// pays tokens; an explorable path pays the shared base plus its bonus
/// on the first run of a day, the base alone on repeats, and a hundred
/// or twenty tokens.
pub proof fn lemma_reward_structure(rw: Rewards)
    ensures
        rw matches Rewards::Story { coins } ==> spec_first_coins(rw) == coins
            && spec_repeat_coins(rw) == coins && spec_first_tokens(rw) == 0 && spec_repeat_tokens(
            rw,
        ) == 0,
        rw matches Rewards::Explorable { bonus_coins } ==> spec_first_coins(rw) == 26_00
            + bonus_coins && spec_repeat_coins(rw) == 26_00 && spec_first_tokens(rw) == 100
            && spec_repeat_tokens(rw) == 20,
{
}

/// Every well-formed path occurs among its own dungeon's paths.
pub proof fn lemma_path_in_own_dungeon(p: Path)
    requires
        p.wf(),
    ensures
        paths_of(p@.dungeon).contains(p@),
{
    lemma_wf_path_parts(p@);
    let i = choose|i: int|
        0 <= i < p@.dungeon.paths.len() && p@.dungeon.paths[i] == p@.path;
    assert(paths_of(p@.dungeon)[i] =~= p@);
    assert(paths_of(p@.dungeon).contains(p@));
}

/// Whether some path of the catalogue carries rotation index `n`.
pub open spec fn rotation_slot_assigned(n: u8) -> bool {
    exists|j: int|
        0 <= j < spec_all_paths().len() && (#[trigger] spec_all_paths()[j]).path.dungeon_frequenter_index
            == Some(n)
}

/// The rotation index space of the catalogue is exactly the interval
/// below thirty-two: every assigned index is below thirty-two, no two
/// paths share one, and every slot is assigned to some path.
pub proof fn lemma_rotation_index_space()
    ensures
        forall|j: int|
            0 <= j < spec_all_paths().len() ==> match (#[trigger] spec_all_paths()[j]).path.dungeon_frequenter_index {
                Some(n) => n < 32,
                None => true,
            },
        forall|j1: int, j2: int|
            0 <= j1 < spec_all_paths().len() && 0 <= j2 < spec_all_paths().len() && j1 != j2
                && (#[trigger] spec_all_paths()[j1]).path.dungeon_frequenter_index is Some
                && (#[trigger] spec_all_paths()[j2]).path.dungeon_frequenter_index is Some
                ==> spec_all_paths()[j1].path.dungeon_frequenter_index
                != spec_all_paths()[j2].path.dungeon_frequenter_index,
        forall|n: u8| n < 32 ==> #[trigger] rotation_slot_assigned(n),
{
    lemma_catalogue_lens();
    assert forall|n: u8| n < 32 implies #[trigger] rotation_slot_assigned(n) by {
        if n < 4 {
            assert(spec_all_paths()[24 + n as int].path.dungeon_frequenter_index == Some(n));
        } else if n < 8 {
            assert(spec_all_paths()[n as int - 4].path.dungeon_frequenter_index == Some(n));
        } else if n < 12 {
            assert(spec_all_paths()[21 + n as int].path.dungeon_frequenter_index == Some(n));
        } else if n < 16 {
            assert(spec_all_paths()[n as int - 8].path.dungeon_frequenter_index == Some(n));
        } else if n < 20 {
            assert(spec_all_paths()[n as int - 4].path.dungeon_frequenter_index == Some(n));
        } else if n < 24 {
            assert(spec_all_paths()[n as int - 12].path.dungeon_frequenter_index == Some(n));
        } else if n < 28 {
            assert(spec_all_paths()[n as int - 4].path.dungeon_frequenter_index == Some(n));
        } else {
            assert(spec_all_paths()[n as int - 12].path.dungeon_frequenter_index == Some(n));
        }
    }
}

} // verus!
