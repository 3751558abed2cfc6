use gw2_dungeons::uri::AchievementId;
use gw2_dungeons::uri::ApiVersion;
use gw2_dungeons::uri::EndPoint;
use gw2_dungeons::uri::ItemId;
use gw2_dungeons::uri::Requester;

#[test]
fn test_item_construction() {
    let p = EndPoint::Items(Some(ItemId(3)));
    assert_eq!(p.uri(), "items/3");
    let k = EndPoint::Items(Some(ItemId(1000)));
    assert_eq!(k.uri(), "items/1000");
}

#[test]
fn test_item_none() {
    let p = EndPoint::Items(None);
    assert_eq!(p.uri(), "items");
}

#[test]
fn test_uri_achivements() {
    let p = EndPoint::Achievements(None);
    assert_eq!(p.uri(), "achievements");
}

#[test]
fn test_uri_achivement_ids() {
    let p = EndPoint::Achievements(Some(AchievementId(32)));
    assert_eq!(p.uri(), "achievements/32");
}

#[test]
fn test_uri_account_achivements() {
    let p = EndPoint::AccountAchievements;
    assert_eq!(p.requires_auth(), true);
}

#[test]
fn uri_building() {
    let r = Requester::new(ApiVersion(2), None);
    let result = r.build_uri(&EndPoint::AccountBank);
    assert_eq!(result, "https://api.guildwars2.com/v2/account/bank");
}

/// Ids render in full decimal, and zero renders as a single digit.
#[test]
fn uri_decimal_ids() {
    assert_eq!(EndPoint::Recipes(Some(gw2_dungeons::uri::RecipeId(0))).uri(), "recipes/0");
    assert_eq!(
        EndPoint::Achievements(Some(AchievementId(4294967295))).uri(),
        "achievements/4294967295"
    );
    assert_eq!(EndPoint::ItemStats(Some(ItemId(907))).uri(), "itemstats/907");
}
