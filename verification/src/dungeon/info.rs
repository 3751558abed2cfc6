//! The fixed table of dungeons and their paths. The table is built by
//! functions rather than held in statics; each builder's contract ties
//! the value it returns to the spec-level catalogue that the lemmas and
//! the lookup contracts reason over.

use vstd::prelude::*;
use vstd::string::StringExecFns;

verus! {

/// Describes the rewards for a path.
#[derive(Debug, Clone, Copy, PartialEq, Eq, Structural)]
pub enum Rewards {
    /// Story mission. No token rewards. Fixed coin reward.
    Story { coins: u32 },
    /// Explorable path. 100 tokens on first per day, 20 on repeat.
    /// `bonus_coins` + 26s on first per day. 26s on repeat.
    Explorable { bonus_coins: u32 },
}

/// Information about a path within a dungeon.
#[derive(Debug)]
pub struct PathInfo {
    /// The id used by the account progress endpoint to indicate
    /// if a user has done this path today.
    pub id: String,
    /// A user friendly short name.
    pub short_name: String,
    /// A longer user friendly name.
    pub long_name: String,
    /// The index inserted into the bits array for the dungeon
    /// frequenter achievement when this path is done.
    pub dungeon_frequenter_index: Option<u8>,
    /// The rewards for doing this path.
    pub rewards: Rewards,
}

/// Information about a dungeon.
#[derive(Debug)]
pub struct DungeonInfo {
    /// The id used by the dungeons endpoint.
    pub id: String,
    /// A user friendly short name.
    pub short_name: String,
    /// A user friendly long name.
    pub long_name: String,
    /// id of the achievement for collecting all skins.
    pub collection_id: u32,
    /// id of the token used by the wallet currencies endpoint.
    pub currency_id: u32,
    /// Information about every path in this dungeon.
    pub paths: Vec<PathInfo>,
}

/// The mathematical image of a `PathInfo`.
#[verifier::ext_equal]
pub struct PathModel {
    pub id: Seq<char>,
    pub short_name: Seq<char>,
    pub long_name: Seq<char>,
    pub dungeon_frequenter_index: Option<u8>,
    pub rewards: Rewards,
}

/// The mathematical image of a `DungeonInfo`.
#[verifier::ext_equal]
pub struct DungeonModel {
    pub id: Seq<char>,
    pub short_name: Seq<char>,
    pub long_name: Seq<char>,
    pub collection_id: u32,
    pub currency_id: u32,
    pub paths: Seq<PathModel>,
}

impl View for PathInfo {
    type V = PathModel;

    open spec fn view(&self) -> PathModel {
        PathModel {
            id: self.id@,
            short_name: self.short_name@,
            long_name: self.long_name@,
            dungeon_frequenter_index: self.dungeon_frequenter_index,
            rewards: self.rewards,
        }
    }
}

impl View for DungeonInfo {
    type V = DungeonModel;

    open spec fn view(&self) -> DungeonModel {
        DungeonModel {
            id: self.id@,
            short_name: self.short_name@,
            long_name: self.long_name@,
            collection_id: self.collection_id,
            currency_id: self.currency_id,
            paths: self.paths@.map_values(|p: PathInfo| p@),
        }
    }
}

/// The Ascalonian Catacombs entry of the catalogue.
pub open spec fn ac_model() -> DungeonModel {
    DungeonModel {
        id: "ascalonian_catacombs"@,
        short_name: "ac"@,
        long_name: "Ascalonian Catacombs"@,
        collection_id: 1725,
        currency_id: 5,
        paths: seq![
            PathModel {
                id: "ac_story"@,
                short_name: "story"@,
                long_name: "Story"@,
                dungeon_frequenter_index: Some(4u8),
                rewards: Rewards::Story { coins: 13_00 },
            },
            PathModel {
                id: "hodgins"@,
                short_name: "p1"@,
                long_name: "Hodgins (p1)"@,
                dungeon_frequenter_index: Some(5u8),
                rewards: Rewards::Explorable { bonus_coins: 50_00 },
            },
            PathModel {
                id: "detha"@,
                short_name: "p2"@,
                long_name: "Detha (p2)"@,
                dungeon_frequenter_index: Some(6u8),
                rewards: Rewards::Explorable { bonus_coins: 50_00 },
            },
            PathModel {
                id: "tzark"@,
                short_name: "p3"@,
                long_name: "Tzark (p3)"@,
                dungeon_frequenter_index: Some(7u8),
                rewards: Rewards::Explorable { bonus_coins: 50_00 },
            },
        ],
    }
}

/// The Caudecus's Manor entry of the catalogue.
pub open spec fn cm_model() -> DungeonModel {
    DungeonModel {
        id: "caudecus_manor"@,
        short_name: "cm"@,
        long_name: "Caudecus's Manor"@,
        collection_id: 1723,
        currency_id: 9,
        paths: seq![
            PathModel {
                id: "cm_story"@,
                short_name: "story"@,
                long_name: "Story"@,
                dungeon_frequenter_index: Some(12u8),
                rewards: Rewards::Story { coins: 0 },
            },
            PathModel {
                id: "asura"@,
                short_name: "p1"@,
                long_name: "Asura (p1)"@,
                dungeon_frequenter_index: Some(13u8),
                rewards: Rewards::Explorable { bonus_coins: 35_00 },
            },
            PathModel {
                id: "seraph"@,
                short_name: "p2"@,
                long_name: "Seraph (p2)"@,
                dungeon_frequenter_index: Some(14u8),
                rewards: Rewards::Explorable { bonus_coins: 35_00 },
            },
            PathModel {
                id: "butler"@,
                short_name: "p3"@,
                long_name: "Butler (p3)"@,
                dungeon_frequenter_index: Some(15u8),
                rewards: Rewards::Explorable { bonus_coins: 35_00 },
            },
        ],
    }
}

/// The Twilight Arbor entry of the catalogue.
pub open spec fn ta_model() -> DungeonModel {
    DungeonModel {
        id: "twilight_arbor"@,
        short_name: "ta"@,
        long_name: "Twilight Arbor"@,
        collection_id: 1721,
        currency_id: 11,
        paths: seq![
            PathModel {
                id: "ta_story"@,
                short_name: "story"@,
                long_name: "Story"@,
                dungeon_frequenter_index: Some(20u8),
                rewards: Rewards::Story { coins: 0 },
            },
            PathModel {
                id: "leurent"@,
                short_name: "up"@,
                long_name: "Leurent (Up)"@,
                dungeon_frequenter_index: Some(21u8),
                rewards: Rewards::Explorable { bonus_coins: 35_00 },
            },
            PathModel {
                id: "vevina"@,
                short_name: "forward"@,
                long_name: "Vevina (Forward)"@,
                dungeon_frequenter_index: Some(22u8),
                rewards: Rewards::Explorable { bonus_coins: 35_00 },
            },
            PathModel {
                id: "aetherpath"@,
                short_name: "aetherpath"@,
                long_name: "Aetherpath"@,
                dungeon_frequenter_index: Some(23u8),
                rewards: Rewards::Explorable { bonus_coins: 66_00 },
            },
        ],
    }
}

/// The Sorrow's Embrace entry of the catalogue.
pub open spec fn se_model() -> DungeonModel {
    DungeonModel {
        id: "sorrows_embrace"@,
        short_name: "se"@,
        long_name: "Sorrow's Embrace"@,
        collection_id: 1722,
        currency_id: 10,
        paths: seq![
            PathModel {
                id: "se_story"@,
                short_name: "story"@,
                long_name: "Story"@,
                dungeon_frequenter_index: Some(16u8),
                rewards: Rewards::Story { coins: 0 },
            },
            PathModel {
                id: "fergg"@,
                short_name: "p1"@,
                long_name: "Fergg (p1)"@,
                dungeon_frequenter_index: Some(17u8),
                rewards: Rewards::Explorable { bonus_coins: 35_00 },
            },
            PathModel {
                id: "rasalov"@,
                short_name: "p2"@,
                long_name: "Rasolov (p2)"@,
                dungeon_frequenter_index: Some(18u8),
                rewards: Rewards::Explorable { bonus_coins: 35_00 },
            },
            PathModel {
                id: "koptev"@,
                short_name: "p3"@,
                long_name: "Koptev (p3)"@,
                dungeon_frequenter_index: Some(19u8),
                rewards: Rewards::Explorable { bonus_coins: 35_00 },
            },
        ],
    }
}

/// The Citadel of Flame entry of the catalogue.
pub open spec fn cof_model() -> DungeonModel {
    DungeonModel {
        id: "citadel_of_flame"@,
        short_name: "cof"@,
        long_name: "Citadel of Flame"@,
        collection_id: 1714,
        currency_id: 13,
        paths: seq![
            PathModel {
                id: "cof_story"@,
                short_name: "story"@,
                long_name: "Story"@,
                dungeon_frequenter_index: Some(28u8),
                rewards: Rewards::Story { coins: 0 },
            },
            PathModel {
                id: "ferrah"@,
                short_name: "p1"@,
                long_name: "Ferrah (p1)"@,
                dungeon_frequenter_index: Some(29u8),
                rewards: Rewards::Explorable { bonus_coins: 35_00 },
            },
            PathModel {
                id: "magg"@,
                short_name: "p2"@,
                long_name: "Magg (p2)"@,
                dungeon_frequenter_index: Some(30u8),
                rewards: Rewards::Explorable { bonus_coins: 35_00 },
            },
            PathModel {
                id: "rhiannon"@,
                short_name: "p3"@,
                long_name: "Rhiannon (p3)"@,
                dungeon_frequenter_index: Some(31u8),
                rewards: Rewards::Explorable { bonus_coins: 35_00 },
            },
        ],
    }
}

/// The Honor of the Waves entry of the catalogue.
pub open spec fn hotw_model() -> DungeonModel {
    DungeonModel {
        id: "honor_of_the_waves"@,
        short_name: "hotw"@,
        long_name: "Honor of the Waves"@,
        collection_id: 1718,
        currency_id: 12,
        paths: seq![
            PathModel {
                id: "hotw_story"@,
                short_name: "story"@,
                long_name: "Story"@,
                dungeon_frequenter_index: Some(24u8),
                rewards: Rewards::Story { coins: 0 },
            },
            PathModel {
                id: "butcher"@,
                short_name: "p1"@,
                long_name: "Butcher (p1)"@,
                dungeon_frequenter_index: Some(25u8),
                rewards: Rewards::Explorable { bonus_coins: 35_00 },
            },
            PathModel {
                id: "plunderer"@,
                short_name: "p2"@,
                long_name: "Plunderer (p2)"@,
                dungeon_frequenter_index: Some(26u8),
                rewards: Rewards::Explorable { bonus_coins: 35_00 },
            },
            PathModel {
                id: "zealot"@,
                short_name: "p3"@,
                long_name: "Zealot (p3)"@,
                dungeon_frequenter_index: Some(27u8),
                rewards: Rewards::Explorable { bonus_coins: 35_00 },
            },
        ],
    }
}

/// The Crucible of Eternity entry of the catalogue.
pub open spec fn coe_model() -> DungeonModel {
    DungeonModel {
        id: "crucible_of_eternity"@,
        short_name: "coe"@,
        long_name: "Crucible of Eternity"@,
        collection_id: 1719,
        currency_id: 14,
        paths: seq![
            PathModel {
                id: "coe_story"@,
                short_name: "story"@,
                long_name: "Story"@,
                dungeon_frequenter_index: Some(0u8),
                rewards: Rewards::Story { coins: 0 },
            },
            PathModel {
                id: "submarine"@,
                short_name: "p1"@,
                long_name: "Submarine (p1)"@,
                dungeon_frequenter_index: Some(1u8),
                rewards: Rewards::Explorable { bonus_coins: 35_00 },
            },
            PathModel {
                id: "teleporter"@,
                short_name: "p2"@,
                long_name: "Teleporter (p2)"@,
                dungeon_frequenter_index: Some(2u8),
                rewards: Rewards::Explorable { bonus_coins: 35_00 },
            },
            PathModel {
                id: "front_door"@,
                short_name: "p3"@,
                long_name: "Front Door (p3)"@,
                dungeon_frequenter_index: Some(3u8),
                rewards: Rewards::Explorable { bonus_coins: 35_00 },
            },
        ],
    }
}

/// The Ruined City of Arah entry of the catalogue. Its story path takes
/// no part in the dungeon frequenter rotation.
pub open spec fn arah_model() -> DungeonModel {
    DungeonModel {
        id: "ruined_city_of_arah"@,
        short_name: "arah"@,
        long_name: "The Ruined City of Arah"@,
        collection_id: 1724,
        currency_id: 6,
        paths: seq![
            PathModel {
                id: "arah_story"@,
                short_name: "story"@,
                long_name: "Story"@,
                dungeon_frequenter_index: None,
                rewards: Rewards::Story { coins: 0 },
            },
            PathModel {
                id: "jotun"@,
                short_name: "p1"@,
                long_name: "Jotun (p1)"@,
                dungeon_frequenter_index: Some(8u8),
                rewards: Rewards::Explorable { bonus_coins: 1_80_00 },
            },
            PathModel {
                id: "mursaat"@,
                short_name: "p2"@,
                long_name: "Mursaat (p2)"@,
                dungeon_frequenter_index: Some(9u8),
                rewards: Rewards::Explorable { bonus_coins: 1_05_00 },
            },
            PathModel {
                id: "forgotten"@,
                short_name: "p3"@,
                long_name: "Forgotten (p3)"@,
                dungeon_frequenter_index: Some(10u8),
                rewards: Rewards::Explorable { bonus_coins: 50_00 },
            },
            PathModel {
                id: "seer"@,
                short_name: "p4"@,
                long_name: "Seer (p4)"@,
                dungeon_frequenter_index: Some(11u8),
                rewards: Rewards::Explorable { bonus_coins: 1_80_00 },
            },
        ],
    }
}

/// Every dungeon of the catalogue, in declaration order.
pub open spec fn spec_dungeons() -> Seq<DungeonModel> {
    seq![
        ac_model(),
        cm_model(),
        ta_model(),
        se_model(),
        cof_model(),
        hotw_model(),
        coe_model(),
        arah_model(),
    ]
}

fn mk_path(
    id: &str,
    short_name: &str,
    long_name: &str,
    dungeon_frequenter_index: Option<u8>,
    rewards: Rewards,
) -> (r: PathInfo)
    ensures
        r@ == (PathModel {
            id: id@,
            short_name: short_name@,
            long_name: long_name@,
            dungeon_frequenter_index,
            rewards,
        }),
{
    PathInfo {
        id: id.to_owned(),
        short_name: short_name.to_owned(),
        long_name: long_name.to_owned(),
        dungeon_frequenter_index,
        rewards,
    }
}

fn build_ac() -> (r: DungeonInfo)
    ensures
        r@ == ac_model(),
{
    let mut paths: Vec<PathInfo> = Vec::new();
    paths.push(mk_path("ac_story", "story", "Story", Some(4), Rewards::Story { coins: 13_00 }));
    paths.push(
        mk_path("hodgins", "p1", "Hodgins (p1)", Some(5), Rewards::Explorable { bonus_coins: 50_00 }),
    );
    paths.push(
        mk_path("detha", "p2", "Detha (p2)", Some(6), Rewards::Explorable { bonus_coins: 50_00 }),
    );
    paths.push(
        mk_path("tzark", "p3", "Tzark (p3)", Some(7), Rewards::Explorable { bonus_coins: 50_00 }),
    );
    let r = DungeonInfo {
        id: "ascalonian_catacombs".to_owned(),
        short_name: "ac".to_owned(),
        long_name: "Ascalonian Catacombs".to_owned(),
        collection_id: 1725,
        currency_id: 5,
        paths,
    };
    proof {
        assert(r@.paths =~= ac_model().paths);
        assert(r@ =~= ac_model());
    }
    r
}

fn build_cm() -> (r: DungeonInfo)
    ensures
        r@ == cm_model(),
{
    let mut paths: Vec<PathInfo> = Vec::new();
    paths.push(mk_path("cm_story", "story", "Story", Some(12), Rewards::Story { coins: 0 }));
    paths.push(
        mk_path("asura", "p1", "Asura (p1)", Some(13), Rewards::Explorable { bonus_coins: 35_00 }),
    );
    paths.push(
        mk_path("seraph", "p2", "Seraph (p2)", Some(14), Rewards::Explorable { bonus_coins: 35_00 }),
    );
    paths.push(
        mk_path("butler", "p3", "Butler (p3)", Some(15), Rewards::Explorable { bonus_coins: 35_00 }),
    );
    let r = DungeonInfo {
        id: "caudecus_manor".to_owned(),
        short_name: "cm".to_owned(),
        long_name: "Caudecus's Manor".to_owned(),
        collection_id: 1723,
        currency_id: 9,
        paths,
    };
    proof {
        assert(r@.paths =~= cm_model().paths);
        assert(r@ =~= cm_model());
    }
    r
}

fn build_ta() -> (r: DungeonInfo)
    ensures
        r@ == ta_model(),
{
    let mut paths: Vec<PathInfo> = Vec::new();
    paths.push(mk_path("ta_story", "story", "Story", Some(20), Rewards::Story { coins: 0 }));
    paths.push(
        mk_path("leurent", "up", "Leurent (Up)", Some(21), Rewards::Explorable { bonus_coins: 35_00 }),
    );
    paths.push(
        mk_path(
            "vevina",
            "forward",
            "Vevina (Forward)",
            Some(22),
            Rewards::Explorable { bonus_coins: 35_00 },
        ),
    );
    paths.push(
        mk_path(
            "aetherpath",
            "aetherpath",
            "Aetherpath",
            Some(23),
            Rewards::Explorable { bonus_coins: 66_00 },
        ),
    );
    let r = DungeonInfo {
        id: "twilight_arbor".to_owned(),
        short_name: "ta".to_owned(),
        long_name: "Twilight Arbor".to_owned(),
        collection_id: 1721,
        currency_id: 11,
        paths,
    };
    proof {
        assert(r@.paths =~= ta_model().paths);
        assert(r@ =~= ta_model());
    }
    r
}

fn build_se() -> (r: DungeonInfo)
    ensures
        r@ == se_model(),
{
    let mut paths: Vec<PathInfo> = Vec::new();
    paths.push(mk_path("se_story", "story", "Story", Some(16), Rewards::Story { coins: 0 }));
    paths.push(
        mk_path("fergg", "p1", "Fergg (p1)", Some(17), Rewards::Explorable { bonus_coins: 35_00 }),
    );
    paths.push(
        mk_path("rasalov", "p2", "Rasolov (p2)", Some(18), Rewards::Explorable { bonus_coins: 35_00 }),
    );
    paths.push(
        mk_path("koptev", "p3", "Koptev (p3)", Some(19), Rewards::Explorable { bonus_coins: 35_00 }),
    );
    let r = DungeonInfo {
        id: "sorrows_embrace".to_owned(),
        short_name: "se".to_owned(),
        long_name: "Sorrow's Embrace".to_owned(),
        collection_id: 1722,
        currency_id: 10,
        paths,
    };
    proof {
        assert(r@.paths =~= se_model().paths);
        assert(r@ =~= se_model());
    }
    r
}

fn build_cof() -> (r: DungeonInfo)
    ensures
        r@ == cof_model(),
{
    let mut paths: Vec<PathInfo> = Vec::new();
    paths.push(mk_path("cof_story", "story", "Story", Some(28), Rewards::Story { coins: 0 }));
    paths.push(
        mk_path("ferrah", "p1", "Ferrah (p1)", Some(29), Rewards::Explorable { bonus_coins: 35_00 }),
    );
    paths.push(
        mk_path("magg", "p2", "Magg (p2)", Some(30), Rewards::Explorable { bonus_coins: 35_00 }),
    );
    paths.push(
        mk_path("rhiannon", "p3", "Rhiannon (p3)", Some(31), Rewards::Explorable { bonus_coins: 35_00 }),
    );
    let r = DungeonInfo {
        id: "citadel_of_flame".to_owned(),
        short_name: "cof".to_owned(),
        long_name: "Citadel of Flame".to_owned(),
        collection_id: 1714,
        currency_id: 13,
        paths,
    };
    proof {
        assert(r@.paths =~= cof_model().paths);
        assert(r@ =~= cof_model());
    }
    r
}

fn build_hotw() -> (r: DungeonInfo)
    ensures
        r@ == hotw_model(),
{
    let mut paths: Vec<PathInfo> = Vec::new();
    paths.push(mk_path("hotw_story", "story", "Story", Some(24), Rewards::Story { coins: 0 }));
    paths.push(
        mk_path("butcher", "p1", "Butcher (p1)", Some(25), Rewards::Explorable { bonus_coins: 35_00 }),
    );
    paths.push(
        mk_path(
            "plunderer",
            "p2",
            "Plunderer (p2)",
            Some(26),
            Rewards::Explorable { bonus_coins: 35_00 },
        ),
    );
    paths.push(
        mk_path("zealot", "p3", "Zealot (p3)", Some(27), Rewards::Explorable { bonus_coins: 35_00 }),
    );
    let r = DungeonInfo {
        id: "honor_of_the_waves".to_owned(),
        short_name: "hotw".to_owned(),
        long_name: "Honor of the Waves".to_owned(),
        collection_id: 1718,
        currency_id: 12,
        paths,
    };
    proof {
        assert(r@.paths =~= hotw_model().paths);
        assert(r@ =~= hotw_model());
    }
    r
}

fn build_coe() -> (r: DungeonInfo)
    ensures
        r@ == coe_model(),
{
    let mut paths: Vec<PathInfo> = Vec::new();
    paths.push(mk_path("coe_story", "story", "Story", Some(0), Rewards::Story { coins: 0 }));
    paths.push(
        mk_path("submarine", "p1", "Submarine (p1)", Some(1), Rewards::Explorable { bonus_coins: 35_00 }),
    );
    paths.push(
        mk_path(
            "teleporter",
            "p2",
            "Teleporter (p2)",
            Some(2),
            Rewards::Explorable { bonus_coins: 35_00 },
        ),
    );
    paths.push(
        mk_path(
            "front_door",
            "p3",
            "Front Door (p3)",
            Some(3),
            Rewards::Explorable { bonus_coins: 35_00 },
        ),
    );
    let r = DungeonInfo {
        id: "crucible_of_eternity".to_owned(),
        short_name: "coe".to_owned(),
        long_name: "Crucible of Eternity".to_owned(),
        collection_id: 1719,
        currency_id: 14,
        paths,
    };
    proof {
        assert(r@.paths =~= coe_model().paths);
        assert(r@ =~= coe_model());
    }
    r
}

fn build_arah() -> (r: DungeonInfo)
    ensures
        r@ == arah_model(),
{
    let mut paths: Vec<PathInfo> = Vec::new();
    paths.push(mk_path("arah_story", "story", "Story", None, Rewards::Story { coins: 0 }));
    paths.push(
        mk_path("jotun", "p1", "Jotun (p1)", Some(8), Rewards::Explorable { bonus_coins: 1_80_00 }),
    );
    paths.push(
        mk_path("mursaat", "p2", "Mursaat (p2)", Some(9), Rewards::Explorable { bonus_coins: 1_05_00 }),
    );
    paths.push(
        mk_path(
            "forgotten",
            "p3",
            "Forgotten (p3)",
            Some(10),
            Rewards::Explorable { bonus_coins: 50_00 },
        ),
    );
    paths.push(
        mk_path("seer", "p4", "Seer (p4)", Some(11), Rewards::Explorable { bonus_coins: 1_80_00 }),
    );
    let r = DungeonInfo {
        id: "ruined_city_of_arah".to_owned(),
        short_name: "arah".to_owned(),
        long_name: "The Ruined City of Arah".to_owned(),
        collection_id: 1724,
        currency_id: 6,
        paths,
    };
    proof {
        assert(r@.paths =~= arah_model().paths);
        assert(r@ =~= arah_model());
    }
    r
}

/// Builds the `k`-th dungeon record of the catalogue.
pub fn build_dungeon(k: usize) -> (r: DungeonInfo)
    requires
        k < 8,
    ensures
        r@ == spec_dungeons()[k as int],
{
    if k == 0 {
        build_ac()
    } else if k == 1 {
        build_cm()
    } else if k == 2 {
        build_ta()
    } else if k == 3 {
        build_se()
    } else if k == 4 {
        build_cof()
    } else if k == 5 {
        build_hotw()
    } else if k == 6 {
        build_coe()
    } else {
        build_arah()
    }
}

fn clone_path_info(p: &PathInfo) -> (r: PathInfo)
    ensures
        r@ == p@,
{
    PathInfo {
        id: p.id.clone(),
        short_name: p.short_name.clone(),
        long_name: p.long_name.clone(),
        dungeon_frequenter_index: p.dungeon_frequenter_index,
        rewards: p.rewards,
    }
}

impl Clone for PathInfo {
    fn clone(&self) -> (r: Self)
        ensures
            r@ == self@,
    {
        clone_path_info(self)
    }
}

impl Clone for DungeonInfo {
    fn clone(&self) -> (r: Self)
        ensures
            r@ == self@,
    {
        let mut paths: Vec<PathInfo> = Vec::new();
        let mut i: usize = 0;
        while i < self.paths.len()
            invariant
                i <= self.paths@.len(),
                paths@.len() == i,
                forall|j: int| 0 <= j < i ==> paths@[j]@ == self.paths@[j]@,
            decreases self.paths@.len() - i,
        {
            paths.push(clone_path_info(&self.paths[i]));
            i = i + 1;
        }
        let r = DungeonInfo {
            id: self.id.clone(),
            short_name: self.short_name.clone(),
            long_name: self.long_name.clone(),
            collection_id: self.collection_id,
            currency_id: self.currency_id,
            paths,
        };
        proof {
            assert(r@.paths =~= self@.paths);
            assert(r@ =~= self@);
        }
        r
    }
}

} // verus!
