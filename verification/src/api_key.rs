//! An API key together with the account information it grants access
//! to, and the set of permissions the key carries.

use crate::sets::lemma_push_to_set;
use crate::text::contains_str;
use crate::text::str_eq;
use vstd::prelude::*;
use vstd::string::StringExecFns;

verus! {

/// The possible permissions that an API key can have, as a set of
/// named flags.
#[derive(Debug, Clone, Copy, PartialEq, Eq, Structural)]
pub struct Permission {
    pub account: bool,
    pub builds: bool,
    pub characters: bool,
    pub guilds: bool,
    pub inventories: bool,
    pub progression: bool,
    pub pvp: bool,
    pub tradingpost: bool,
    pub unlocks: bool,
    pub wallet: bool,
}

/// The permission set granted by a list of permission names: each flag
/// is raised exactly when its name occurs. Unknown names grant nothing.
pub open spec fn spec_permissions_of(names: Seq<Seq<char>>) -> Permission {
    Permission {
        account: names.contains("account"@),
        builds: names.contains("builds"@),
        characters: names.contains("characters"@),
        guilds: names.contains("guilds"@),
        inventories: names.contains("inventories"@),
        progression: names.contains("progression"@),
        pvp: names.contains("pvp"@),
        tradingpost: names.contains("tradingpost"@),
        unlocks: names.contains("unlocks"@),
        wallet: names.contains("wallet"@),
    }
}

impl Permission {
    /// The permission set with no flag raised.
    pub open spec fn spec_empty() -> Permission {
        Permission {
            account: false,
            builds: false,
            characters: false,
            guilds: false,
            inventories: false,
            progression: false,
            pvp: false,
            tradingpost: false,
            unlocks: false,
            wallet: false,
        }
    }

    /// Creates the permission set with no flag raised.
    pub fn empty() -> (r: Self)
        ensures
            r == Permission::spec_empty(),
    {
        Permission {
            account: false,
            builds: false,
            characters: false,
            guilds: false,
            inventories: false,
            progression: false,
            pvp: false,
            tradingpost: false,
            unlocks: false,
            wallet: false,
        }
    }

    /// The permission set holding the flags of both arguments.
    pub fn union(self, other: Self) -> (r: Self)
        ensures
            r.account == (self.account || other.account),
            r.builds == (self.builds || other.builds),
            r.characters == (self.characters || other.characters),
            r.guilds == (self.guilds || other.guilds),
            r.inventories == (self.inventories || other.inventories),
            r.progression == (self.progression || other.progression),
            r.pvp == (self.pvp || other.pvp),
            r.tradingpost == (self.tradingpost || other.tradingpost),
            r.unlocks == (self.unlocks || other.unlocks),
            r.wallet == (self.wallet || other.wallet),
    {
        Permission {
            account: self.account || other.account,
            builds: self.builds || other.builds,
            characters: self.characters || other.characters,
            guilds: self.guilds || other.guilds,
            inventories: self.inventories || other.inventories,
            progression: self.progression || other.progression,
            pvp: self.pvp || other.pvp,
            tradingpost: self.tradingpost || other.tradingpost,
            unlocks: self.unlocks || other.unlocks,
            wallet: self.wallet || other.wallet,
        }
    }

    /// The flag named by `string`; an unknown name grants nothing.
    pub fn from_string(string: &str) -> (r: Self)
        ensures
            r == spec_permissions_of(seq![string@]),
    {
        let mut r = Permission::empty();
        if str_eq(string, "account") {
            r.account = true;
        } else if str_eq(string, "builds") {
            r.builds = true;
        } else if str_eq(string, "characters") {
            r.characters = true;
        } else if str_eq(string, "guilds") {
            r.guilds = true;
        } else if str_eq(string, "inventories") {
            r.inventories = true;
        } else if str_eq(string, "progression") {
            r.progression = true;
        } else if str_eq(string, "pvp") {
            r.pvp = true;
        } else if str_eq(string, "tradingpost") {
            r.tradingpost = true;
        } else if str_eq(string, "unlocks") {
            r.unlocks = true;
        } else if str_eq(string, "wallet") {
            r.wallet = true;
        }
        proof {
            reveal_strlit("account");
            reveal_strlit("builds");
            reveal_strlit("characters");
            reveal_strlit("guilds");
            reveal_strlit("inventories");
            reveal_strlit("progression");
            reveal_strlit("pvp");
            reveal_strlit("tradingpost");
            reveal_strlit("unlocks");
            reveal_strlit("wallet");
            assert("account"@[0] == 'a' && "unlocks"@[0] == 'u');
            assert("builds"@[0] == 'b' && "guilds"@[0] == 'g' && "wallet"@[0] == 'w');
            assert("inventories"@[0] == 'i' && "progression"@[0] == 'p' && "tradingpost"@[0]
                == 't');
            assert(seq![string@].contains("account"@) == (string@ == "account"@)) by {
                if seq![string@].contains("account"@) {
                    assert(seq![string@][0] == "account"@);
                } else {
                    assert(string@ == "account"@ ==> seq![string@][0] == "account"@);
                }
            }
            assert(seq![string@].contains("builds"@) == (string@ == "builds"@)) by {
                if seq![string@].contains("builds"@) {
                    assert(seq![string@][0] == "builds"@);
                } else {
                    assert(string@ == "builds"@ ==> seq![string@][0] == "builds"@);
                }
            }
            assert(seq![string@].contains("characters"@) == (string@ == "characters"@)) by {
                if seq![string@].contains("characters"@) {
                    assert(seq![string@][0] == "characters"@);
                } else {
                    assert(string@ == "characters"@ ==> seq![string@][0] == "characters"@);
                }
            }
            assert(seq![string@].contains("guilds"@) == (string@ == "guilds"@)) by {
                if seq![string@].contains("guilds"@) {
                    assert(seq![string@][0] == "guilds"@);
                } else {
                    assert(string@ == "guilds"@ ==> seq![string@][0] == "guilds"@);
                }
            }
            assert(seq![string@].contains("inventories"@) == (string@ == "inventories"@)) by {
                if seq![string@].contains("inventories"@) {
                    assert(seq![string@][0] == "inventories"@);
                } else {
                    assert(string@ == "inventories"@ ==> seq![string@][0] == "inventories"@);
                }
            }
            assert(seq![string@].contains("progression"@) == (string@ == "progression"@)) by {
                if seq![string@].contains("progression"@) {
                    assert(seq![string@][0] == "progression"@);
                } else {
                    assert(string@ == "progression"@ ==> seq![string@][0] == "progression"@);
                }
            }
            assert(seq![string@].contains("pvp"@) == (string@ == "pvp"@)) by {
                if seq![string@].contains("pvp"@) {
                    assert(seq![string@][0] == "pvp"@);
                } else {
                    assert(string@ == "pvp"@ ==> seq![string@][0] == "pvp"@);
                }
            }
            assert(seq![string@].contains("tradingpost"@) == (string@ == "tradingpost"@)) by {
                if seq![string@].contains("tradingpost"@) {
                    assert(seq![string@][0] == "tradingpost"@);
                } else {
                    assert(string@ == "tradingpost"@ ==> seq![string@][0] == "tradingpost"@);
                }
            }
            assert(seq![string@].contains("unlocks"@) == (string@ == "unlocks"@)) by {
                if seq![string@].contains("unlocks"@) {
                    assert(seq![string@][0] == "unlocks"@);
                } else {
                    assert(string@ == "unlocks"@ ==> seq![string@][0] == "unlocks"@);
                }
            }
            assert(seq![string@].contains("wallet"@) == (string@ == "wallet"@)) by {
                if seq![string@].contains("wallet"@) {
                    assert(seq![string@][0] == "wallet"@);
                } else {
                    assert(string@ == "wallet"@ ==> seq![string@][0] == "wallet"@);
                }
            }
        }
        r
    }

    /// The permission set granted by a list of permission names.
    pub fn from_strings(strings: Vec<String>) -> (r: Self)
        ensures
            r == spec_permissions_of(strings@.map_values(|s: String| s@)),
    {
        Permission {
            account: contains_str(&strings, "account"),
            builds: contains_str(&strings, "builds"),
            characters: contains_str(&strings, "characters"),
            guilds: contains_str(&strings, "guilds"),
            inventories: contains_str(&strings, "inventories"),
            progression: contains_str(&strings, "progression"),
            pvp: contains_str(&strings, "pvp"),
            tradingpost: contains_str(&strings, "tradingpost"),
            unlocks: contains_str(&strings, "unlocks"),
            wallet: contains_str(&strings, "wallet"),
        }
    }
}

/// Payload of the token info endpoint.
pub struct TokenInfo {
    /// The name that the user gave the API key when they created it.
    pub name: String,
    /// The permissions the user gave this API key.
    pub permissions: Vec<String>,
}

/// Payload of the account endpoint.
pub struct AccountInfo {
    /// Unique, never changing id.
    pub id: String,
    /// Account name, can very rarely change.
    pub name: String,
    /// The user's access to content.
    /// What expansions they own and if they are free to play.
    pub access: Vec<String>,
}

/// Contains an API key and information about the key and its user.
#[derive(Debug)]
pub struct APIKey {
    /// The API key.
    key: String,
    /// The permissions of the API key.
    permissions: Permission,
    /// The name that the user gave the API key when they created it.
    key_name: String,
    /// A non-changing unique id for the account that this API key is
    /// for.
    account_id: String,
    /// The account's name. This can (very rarely) change.
    account_name: String,
    /// What content the account can access, each entry named once.
    access: Vec<String>,
}

impl APIKey {
    /// The key itself.
    pub closed spec fn spec_key(self) -> Seq<char> {
        self.key@
    }

    /// The permissions of the key.
    pub closed spec fn spec_permissions(self) -> Permission {
        self.permissions
    }

    /// The name the user gave the key.
    pub closed spec fn spec_key_name(self) -> Seq<char> {
        self.key_name@
    }

    /// The unique account id.
    pub closed spec fn spec_account_id(self) -> Seq<char> {
        self.account_id@
    }

    /// The account name.
    pub closed spec fn spec_account_name(self) -> Seq<char> {
        self.account_name@
    }

    /// The content access entries, in first-seen order.
    pub closed spec fn spec_access(self) -> Seq<Seq<char>> {
        self.access@.map_values(|s: String| s@)
    }

    /// Internal well-formedness: the access list names each entry once.
    pub closed spec fn inv(self) -> bool {
        self.access@.map_values(|s: String| s@).no_duplicates()
    }

    /// Creates a new API key from the data fetched from the endpoints.
    pub fn from_data(key: &str, token_info: TokenInfo, account_info: AccountInfo) -> (r: Self)
        ensures
            r.inv(),
            r.spec_key() == key@,
            r.spec_permissions() == spec_permissions_of(
                token_info.permissions@.map_values(|s: String| s@),
            ),
            r.spec_key_name() == token_info.name@,
            r.spec_account_id() == account_info.id@,
            r.spec_account_name() == account_info.name@,
            r.spec_access().to_set() == account_info.access@.map_values(|s: String| s@).to_set(),
    {
        let mut access: Vec<String> = Vec::new();
        let mut i: usize = 0;
        proof {
            assert(access@.map_values(|s: String| s@) =~= Seq::<Seq<char>>::empty());
        }
        while i < account_info.access.len()
            invariant
                i <= account_info.access@.len(),
                access@.map_values(|s: String| s@).no_duplicates(),
                access@.map_values(|s: String| s@).to_set() == account_info.access@.map_values(
                    |s: String| s@,
                ).take(i as int).to_set(),
            decreases account_info.access@.len() - i,
        {
            let ghost seen = access@.map_values(|s: String| s@);
            let ghost source = account_info.access@.map_values(|s: String| s@);
            let entry = &account_info.access[i];
            if !contains_str(&access, entry.as_str()) {
                access.push(entry.clone());
                proof {
                    assert(access@.map_values(|s: String| s@) =~= seen.push(entry@));
                    lemma_push_to_set(seen, entry@);
                    assert(source.take(i + 1) =~= source.take(i as int).push(entry@));
                    lemma_push_to_set(source.take(i as int), entry@);
                    let after = access@.map_values(|s: String| s@);
                    assert forall|a: int, b: int|
                        0 <= a < b < after.len() implies after[a] != after[b] by {
                        if b < seen.len() {
                            assert(after[a] == seen[a]);
                            assert(after[b] == seen[b]);
                        } else {
                            assert(after[b] == entry@);
                            assert(after[a] == seen[a]);
                        }
                    }
                    assert(after.no_duplicates());
                }
            } else {
                proof {
                    assert(seen.to_set().contains(entry@));
                    assert(source.take(i + 1) =~= source.take(i as int).push(entry@));
                    lemma_push_to_set(source.take(i as int), entry@);
                    assert(seen.to_set() =~= source.take(i as int).to_set().insert(entry@));
                }
            }
            i = i + 1;
        }
        proof {
            assert(account_info.access@.map_values(|s: String| s@).take(
                account_info.access@.len() as int,
            ) =~= account_info.access@.map_values(|s: String| s@));
        }
        Self {
            key: key.to_owned(),
            permissions: Permission::from_strings(token_info.permissions),
            key_name: token_info.name,
            account_id: account_info.id,
            account_name: account_info.name,
            access,
        }
    }

    /// Gets the api key as a string.
    pub fn key(&self) -> (r: String)
        ensures
            r@ == self.spec_key(),
    {
        self.key.clone()
    }

    /// Renders the key, as the key string itself.
    pub fn display_string(&self) -> (r: String)
        ensures
            r@ == self.spec_key(),
    {
        self.key.clone()
    }

    /// Gets the permissions of the API key.
    pub fn permissions(&self) -> (r: Permission)
        ensures
            r == self.spec_permissions(),
    {
        self.permissions
    }

    /// Gets the name that the user gave the API key when they created
    /// it.
    pub fn key_name(&self) -> (r: String)
        ensures
            r@ == self.spec_key_name(),
    {
        self.key_name.clone()
    }

    /// Gets the non-changing unique id for the account that this API
    /// key is for.
    pub fn account_id(&self) -> (r: String)
        ensures
            r@ == self.spec_account_id(),
    {
        self.account_id.clone()
    }

    /// Gets the account's name. This can (very rarely) change.
    pub fn account_name(&self) -> (r: String)
        ensures
            r@ == self.spec_account_name(),
    {
        self.account_name.clone()
    }

    /// Gets what content the account for this API key has access to.
    pub fn access(&self) -> (r: Vec<String>)
        ensures
            r@.map_values(|s: String| s@) == self.spec_access(),
    {
        let mut out: Vec<String> = Vec::new();
        let mut i: usize = 0;
        while i < self.access.len()
            invariant
                i <= self.access@.len(),
                out@.len() == i,
                forall|j: int| 0 <= j < i ==> (#[trigger] out@[j])@ == self.access@[j]@,
            decreases self.access@.len() - i,
        {
            out.push(self.access[i].clone());
            i = i + 1;
        }
        proof {
            assert(out@.map_values(|s: String| s@) =~= self.spec_access());
        }
        out
    }
}

} // verus!
