//! End points of the remote API and the request URIs built for them.

use crate::text::decimal_u32;
use crate::text::spec_decimal;
use vstd::prelude::*;
use vstd::string::StringExecFns;

verus! {

/// An item id of the remote API.
pub struct ItemId(pub u32);

/// An item stat id of the remote API.
pub struct ItemStatId(pub u32);

/// A recipe id of the remote API.
pub struct RecipeId(pub u32);

/// The version number of the remote API to address.
pub struct ApiVersion(pub u8);

/// An API key carried along for authenticated end points.
pub struct ApiKey(pub String);

/// An achievement id of the remote API.
pub struct AchievementId(pub u32);

/// List of end points that are accessible from the remote API.
/// Each end point indicates if authentication is required to access
/// the contents, and maps to a path under the API root.
pub enum EndPoint {
    Achievements(Option<AchievementId>),
    AchievementsDaily,
    AchievementsDailyTomorrow,
    Account,
    AccountAchievements,
    AccountBank,
    AccountMaterials,
    AccountDailycrafting,
    AccountDungeons,
    AccountDyes,
    Items(Option<ItemId>),
    ItemStats(Option<ItemId>),
    ItemStatsAll(Option<ItemStatId>),
    Recipes(Option<RecipeId>),
    Build,
}

/// Whether the end point serves account-bound data and so needs an
/// authenticated request.
pub open spec fn spec_requires_auth(e: EndPoint) -> bool {
    match e {
        EndPoint::Account => true,
        EndPoint::AccountAchievements => true,
        EndPoint::AccountBank => true,
        EndPoint::AccountMaterials => true,
        EndPoint::AccountDailycrafting => true,
        EndPoint::AccountDungeons => true,
        EndPoint::AccountDyes => true,
        EndPoint::Achievements(_) => false,
        EndPoint::AchievementsDaily => false,
        EndPoint::AchievementsDailyTomorrow => false,
        EndPoint::Items(_) => false,
        EndPoint::ItemStats(_) => false,
        EndPoint::ItemStatsAll(_) => false,
        EndPoint::Recipes(_) => false,
        EndPoint::Build => false,
    }
}

/// The path of the end point under the API root: the fixed segment of
/// the end point, and the decimal id where one is addressed.
pub open spec fn spec_uri(e: EndPoint) -> Seq<char> {
    match e {
        EndPoint::Account => "account"@,
        EndPoint::AccountAchievements => "account/achievements"@,
        EndPoint::AccountDailycrafting => "account/dailycrafting"@,
        EndPoint::AccountDungeons => "account/dungeons"@,
        EndPoint::AccountDyes => "account/dyes"@,
        EndPoint::Achievements(op_id) => match op_id {
            Some(id) => "achievements/"@ + spec_decimal(id.0 as nat),
            None => "achievements"@,
        },
        EndPoint::AchievementsDaily => "achievements/daily"@,
        EndPoint::AchievementsDailyTomorrow => "achievements/daily/tomorrow"@,
        EndPoint::AccountMaterials => "account/materials"@,
        EndPoint::AccountBank => "account/bank"@,
        EndPoint::Items(op_id) => match op_id {
            Some(id) => "items/"@ + spec_decimal(id.0 as nat),
            None => "items"@,
        },
        EndPoint::ItemStats(op_id) => match op_id {
            Some(id) => "itemstats/"@ + spec_decimal(id.0 as nat),
            None => "itemstats"@,
        },
        EndPoint::ItemStatsAll(op_id) => match op_id {
            Some(id) => "itemstats/"@ + spec_decimal(id.0 as nat),
            None => "itemstats"@,
        },
        EndPoint::Recipes(op_id) => match op_id {
            Some(id) => "recipes/"@ + spec_decimal(id.0 as nat),
            None => "recipes"@,
        },
        EndPoint::Build => "build"@,
    }
}

impl EndPoint {
    /// Whether the end point needs an authenticated request.
    pub fn requires_auth(self) -> (r: bool)
        ensures
            r == spec_requires_auth(self),
    {
        match self {
            // do require auth.
            EndPoint::Account => true,
            EndPoint::AccountAchievements => true,
            EndPoint::AccountBank => true,
            EndPoint::AccountMaterials => true,
            EndPoint::AccountDailycrafting => true,
            EndPoint::AccountDungeons => true,
            EndPoint::AccountDyes => true,
            // don't require auth
            EndPoint::Achievements(_) => false,
            EndPoint::AchievementsDaily => false,
            EndPoint::AchievementsDailyTomorrow => false,
            EndPoint::Items(_) => false,
            EndPoint::ItemStats(_) => false,
            EndPoint::ItemStatsAll(_) => false,
            EndPoint::Recipes(_) => false,
            EndPoint::Build => false,
        }
    }

    /// The path of the end point under the API root.
    pub fn uri(&self) -> (r: String)
        ensures
            r@ == spec_uri(*self),
    {
        match self {
            EndPoint::Account => "account".to_owned(),
            EndPoint::AccountAchievements => "account/achievements".to_owned(),
            EndPoint::AccountDailycrafting => "account/dailycrafting".to_owned(),
            EndPoint::AccountDungeons => "account/dungeons".to_owned(),
            EndPoint::AccountDyes => "account/dyes".to_owned(),
            EndPoint::Achievements(op_id) => match op_id {
                Some(id) => "achievements/".to_owned().concat(decimal_u32(id.0).as_str()),
                None => "achievements".to_owned(),
            },
            EndPoint::AchievementsDaily => "achievements/daily".to_owned(),
            EndPoint::AchievementsDailyTomorrow => "achievements/daily/tomorrow".to_owned(),
            EndPoint::AccountMaterials => "account/materials".to_owned(),
            EndPoint::AccountBank => "account/bank".to_owned(),
            EndPoint::Items(op_id) => match op_id {
                Some(id) => "items/".to_owned().concat(decimal_u32(id.0).as_str()),
                None => "items".to_owned(),
            },
            EndPoint::ItemStats(op_id) => match op_id {
                Some(id) => "itemstats/".to_owned().concat(decimal_u32(id.0).as_str()),
                None => "itemstats".to_owned(),
            },
            EndPoint::ItemStatsAll(op_id) => match op_id {
                Some(id) => "itemstats/".to_owned().concat(decimal_u32(id.0).as_str()),
                None => "itemstats".to_owned(),
            },
            EndPoint::Recipes(op_id) => match op_id {
                Some(id) => "recipes/".to_owned().concat(decimal_u32(id.0).as_str()),
                None => "recipes".to_owned(),
            },
            EndPoint::Build => "build".to_owned(),
        }
    }
}

/// The view of an optional API key: the characters of the key, if one
/// is held.
pub open spec fn spec_key_view(k: Option<ApiKey>) -> Option<Seq<char>> {
    match k {
        Some(key) => Some(key.0@),
        None => None,
    }
}

/// Builds request URIs against one version of the remote API, with an
/// optional API key for authenticated end points.
pub struct Requester {
    version: ApiVersion,
    api_key: Option<ApiKey>,
    base_uri: String,
}

impl Requester {
    /// The version addressed.
    pub closed spec fn spec_version(self) -> u8 {
        self.version.0
    }

    /// The API key held, if any.
    pub closed spec fn spec_api_key(self) -> Option<Seq<char>> {
        spec_key_view(self.api_key)
    }

    /// The API root that request URIs start with.
    pub closed spec fn spec_base_uri(self) -> Seq<char> {
        self.base_uri@
    }

    /// Creates a requester for one version of the remote API.
    pub fn new(version: ApiVersion, api_key: Option<ApiKey>) -> (r: Requester)
        ensures
            r.spec_version() == version.0,
            r.spec_api_key() == spec_key_view(api_key),
            r.spec_base_uri() == "https://api.guildwars2.com/v"@ + spec_decimal(version.0 as nat),
    {
        let uri_str = "https://api.guildwars2.com/v".to_owned().concat(
            decimal_u32(version.0 as u32).as_str(),
        );
        Requester { version, api_key, base_uri: uri_str }
    }

    /// The full request URI for an end point: the API root, a slash,
    /// and the end point's path.
    pub fn build_uri(&self, end_point: &EndPoint) -> (r: String)
        ensures
            r@ == self.spec_base_uri() + "/"@ + spec_uri(*end_point),
    {
        let mut new_uri = self.base_uri.clone();
        new_uri.append("/");
        new_uri.append(end_point.uri().as_str());
        new_uri
    }
}

} // verus!
