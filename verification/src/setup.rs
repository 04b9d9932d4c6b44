//! What instantiating the component creates: its badges, its token, and the
//! rules that tie its roles to badges.
use crate::access::Role;
use crate::decimal::Decimal;
use crate::vault::StableCoinVault;
use scrypto::types::ResourceAddress;
use vstd::prelude::*;

verus! {

/// A metadata entry to create; a locked entry can never be changed.
#[derive(Clone, Debug)]
pub struct MetadataEntry {
    pub key: String,
    pub value: String,
    pub locked: bool,
}

/// Who receives a badge's initial supply.
#[derive(Clone, Copy, Debug, PartialEq, Eq, Structural)]
pub enum Holder {
    /// Handed back to whoever instantiates the component.
    Caller,
    /// Kept in a vault of the component.
    Component,
}

/// A badge resource to create.
#[derive(Clone, Debug)]
pub struct BadgeSpec {
    pub metadata: Vec<MetadataEntry>,
    pub divisibility: u8,
    pub initial_supply: u64,
    pub holder: Holder,
}

/// The token resource to create; its whole supply fills the component's vault.
#[derive(Clone, Debug)]
pub struct TokenSpec {
    pub divisibility: u8,
    pub metadata: Vec<MetadataEntry>,
    pub initial_supply: Decimal,
}

/// The badge that a role rule asks for.
#[derive(Clone, Copy, Debug)]
pub enum RoleBadge {
    /// The badge of this index in `VaultSetup::badges`.
    Created(usize),
    /// A badge that exists already.
    Given(ResourceAddress),
}

/// A role is met by a proof of `badge`: of any amount where `min_amount` is
/// `None`, of at least `min_amount` whole badges otherwise.
#[derive(Clone, Copy, Debug)]
pub struct RoleRule {
    pub role: Role,
    pub badge: RoleBadge,
    pub min_amount: Option<u64>,
}

/// The plan of an instantiation. The badges are created in the order of
/// `badges`, then the token.
#[derive(Debug)]
pub struct VaultSetup {
    pub badges: Vec<BadgeSpec>,
    pub token: TokenSpec,
    pub role_rules: Vec<RoleRule>,
    /// The indices in `badges` of the badges handed back to the caller, in
    /// the order they are returned.
    pub handed_back: Vec<usize>,
}

/// `b` is an indivisible badge whose only metadata is a locked `name`.
pub open spec fn is_badge(b: BadgeSpec, name: Seq<char>, supply: u64, holder: Holder) -> bool {
    &&& b.metadata@.len() == 1
    &&& b.metadata@[0].key@ == "name"@
    &&& b.metadata@[0].value@ == name
    &&& b.metadata@[0].locked
    &&& b.divisibility == 0
    &&& b.initial_supply == supply
    &&& b.holder == holder
}

/// The number of metadata entries the token is created with.
pub open spec fn token_metadata_len() -> int {
    6
}

fn name_badge(name: &str, supply: u64, holder: Holder) -> (r: BadgeSpec)
    ensures
        is_badge(r, name@, supply, holder),
{
    let mut metadata: Vec<MetadataEntry> = Vec::new();
    metadata.push(MetadataEntry { key: "name".to_owned(), value: name.to_owned(), locked: true });
    BadgeSpec { metadata: metadata, divisibility: 0, initial_supply: supply, holder: holder }
}

impl StableCoinVault {
    /// Plans the component's instantiation, in creation order: an admin
    /// badge with a supply of 3 and a super admin badge with a supply of 2,
    /// both for the caller, an auth badge with a supply of 1 that the
    /// component keeps, and the token, with the maximum divisibility, the
    /// first six `keys` paired with the first six `values` as locked
    /// metadata, and `total_supply` minted. The owner role asks for
    /// `owner_badge_addr`, the super admin role for two super admin badges,
    /// and the admin role for the admin badge. The super admin badges are
    /// handed back first, then the admin badges.
    pub fn new(
        total_supply: Decimal,
        keys: Vec<String>,
        values: Vec<String>,
        owner_badge_addr: ResourceAddress,
    ) -> (r: VaultSetup)
        requires
            keys@.len() >= token_metadata_len(),
            values@.len() >= token_metadata_len(),
        ensures
            r.badges@.len() == 3,
            is_badge(r.badges@[0], "admin_badge"@, 3, Holder::Caller),
            is_badge(r.badges@[1], "super_admin"@, 2, Holder::Caller),
            is_badge(r.badges@[2], "auth_badge"@, 1, Holder::Component),
            r.token.divisibility == 18,
            r.token.initial_supply == total_supply,
            r.token.metadata@.len() == token_metadata_len(),
            forall|i: int|
                0 <= i < token_metadata_len() ==> {
                    &&& (#[trigger] r.token.metadata@[i]).key@ == keys@[i]@
                    &&& r.token.metadata@[i].value@ == values@[i]@
                    &&& r.token.metadata@[i].locked
                },
            r.role_rules@.len() == 3,
            r.role_rules@[0].role == Role::Owner,
            r.role_rules@[0].badge matches RoleBadge::Given(a) && a == owner_badge_addr,
            r.role_rules@[0].min_amount is None,
            r.role_rules@[1].role == Role::SuperAdmin,
            r.role_rules@[1].badge matches RoleBadge::Created(i) && i == 1,
            r.role_rules@[1].min_amount == Some(2u64),
            r.role_rules@[2].role == Role::Admin,
            r.role_rules@[2].badge matches RoleBadge::Created(i) && i == 0,
            r.role_rules@[2].min_amount is None,
            r.handed_back@ == seq![1usize, 0usize],
    {
        let mut metadata: Vec<MetadataEntry> = Vec::new();
        let mut i: usize = 0;
        while i < 6
            invariant
                i <= 6,
                keys@.len() >= 6,
                values@.len() >= 6,
                metadata@.len() == i,
                forall|j: int|
                    0 <= j < i ==> {
                        &&& (#[trigger] metadata@[j]).key@ == keys@[j]@
                        &&& metadata@[j].value@ == values@[j]@
                        &&& metadata@[j].locked
                    },
            decreases 6 - i,
        {
            metadata.push(MetadataEntry { key: keys[i].clone(), value: values[i].clone(), locked: true });
            i = i + 1;
        }
        let mut badges: Vec<BadgeSpec> = Vec::new();
        badges.push(name_badge("admin_badge", 3, Holder::Caller));
        badges.push(name_badge("super_admin", 2, Holder::Caller));
        badges.push(name_badge("auth_badge", 1, Holder::Component));
        let mut role_rules: Vec<RoleRule> = Vec::new();
        role_rules.push(
            RoleRule { role: Role::Owner, badge: RoleBadge::Given(owner_badge_addr), min_amount: None },
        );
        role_rules.push(
            RoleRule { role: Role::SuperAdmin, badge: RoleBadge::Created(1), min_amount: Some(2) },
        );
        role_rules.push(RoleRule { role: Role::Admin, badge: RoleBadge::Created(0), min_amount: None });
        let mut handed_back: Vec<usize> = Vec::new();
        handed_back.push(1);
        handed_back.push(0);
        VaultSetup {
            handed_back: handed_back,
            badges: badges,
            token: TokenSpec { divisibility: 18, metadata: metadata, initial_supply: total_supply },
            role_rules: role_rules,
        }
    }
}

impl VaultSetup {
    /// The component's state once the token has been created at `token`:
    /// the whole initial supply sits in the vault, at version 1.
    pub fn into_vault(&self, token: ResourceAddress) -> (r: StableCoinVault)
        ensures
            r.token == token,
            r.vault_amount == self.token.initial_supply,
            r.total_supply == self.token.initial_supply,
            r.version == 1,
    {
        StableCoinVault {
            token: token,
            vault_amount: self.token.initial_supply,
            total_supply: self.token.initial_supply,
            version: 1,
        }
    }
}

} // verus!
