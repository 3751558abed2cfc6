use gw2_dungeons::api_key::APIKey;
use gw2_dungeons::api_key::AccountInfo;
use gw2_dungeons::api_key::Permission;
use gw2_dungeons::api_key::TokenInfo;

/// Basic test for the from_data constructor and all getters.
#[test]
fn from_data() {
    let key_string = "the_key";
    let token_info = TokenInfo {
        name: "api_key_name".into(),
        permissions: vec!["account".into(), "pvp".into()],
    };
    let account_info = AccountInfo {
        id: "account_id".into(),
        name: "account_name".into(),
        access: vec!["PlayForFree".into(), "GuildWars2".into()],
    };
    let key = APIKey::from_data(key_string, token_info, account_info);

    assert_eq!("the_key", key.key());
    assert_eq!("the_key", key.display_string());
    let expected = Permission::from_string("account").union(Permission::from_string("pvp"));
    assert_eq!(expected, key.permissions());
    assert_eq!("api_key_name", key.key_name());
    assert_eq!("account_id", key.account_id());
    assert_eq!("account_name", key.account_name());
    assert_eq!(2, key.access().len());
    assert!(key.access().contains(&"PlayForFree".to_string()));
    assert!(key.access().contains(&"GuildWars2".to_string()));
}

/// Unknown permissions get ignored.
#[test]
fn unknown_permission() {
    assert_eq!(Permission::empty(), Permission::from_string("123456"));
}

/// Each recognized permission name raises exactly its own flag.
#[test]
fn known_permissions() {
    let p = Permission::from_string("wallet");
    assert!(p.wallet);
    assert!(!p.account);
    assert!(!p.builds);
    assert!(!p.characters);
    assert!(!p.guilds);
    assert!(!p.inventories);
    assert!(!p.progression);
    assert!(!p.pvp);
    assert!(!p.tradingpost);
    assert!(!p.unlocks);
    let q = Permission::from_strings(vec![
        "progression".to_string(),
        "wallet".to_string(),
        "bogus".to_string(),
    ]);
    assert!(q.progression && q.wallet);
    assert!(!q.account && !q.pvp);
}

/// Duplicate access entries collapse to one.
#[test]
fn duplicate_access_entries() {
    let token_info = TokenInfo { name: "k".into(), permissions: vec![] };
    let account_info = AccountInfo {
        id: "i".into(),
        name: "n".into(),
        access: vec!["GuildWars2".into(), "GuildWars2".into()],
    };
    let key = APIKey::from_data("x", token_info, account_info);
    assert_eq!(1, key.access().len());
    assert!(key.access().contains(&"GuildWars2".to_string()));
}
