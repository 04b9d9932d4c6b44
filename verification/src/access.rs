//! Who may call which method of the component, and who may reassign which
//! role.
use vstd::prelude::*;

verus! {

/// The roles of the component.
#[derive(Clone, Copy, Debug, PartialEq, Eq, Structural)]
pub enum Role {
    /// Whoever presents the owner badge.
    Owner,
    /// Whoever presents two super admin badges.
    SuperAdmin,
    /// Whoever presents the admin badge.
    Admin,
}

/// The methods of the component.
#[derive(Clone, Copy, Debug, PartialEq, Eq, Structural)]
pub enum Method {
    FreeToken,
    Buy,
    ChangePrice,
    MintToBucket,
    MintToVault,
    WithdrawToBucket,
    DepositToVault,
    BurnInVault,
    BurnInBucket,
    UpdateMetadata,
    SetTokenStageThree,
    GetVaultData,
    SetVersion,
}

/// Which callers a method admits: everyone, or the holders of the roles
/// marked `true`.
#[derive(Clone, Copy, Debug, PartialEq, Eq, Structural)]
pub struct Access {
    pub public: bool,
    pub owner: bool,
    pub super_admin: bool,
    pub admin: bool,
}

/// The methods open to every caller.
pub open spec fn open_to_all(method: Method) -> bool {
    method is FreeToken || method is Buy || method is DepositToVault || method is GetVaultData
}

/// The methods open to the owner.
pub open spec fn open_to_owner(method: Method) -> bool {
    method is WithdrawToBucket || method is SetTokenStageThree
}

/// The methods open to a super admin.
pub open spec fn open_to_super_admin(method: Method) -> bool {
    method is BurnInVault || method is SetVersion || method is SetTokenStageThree
}

/// The methods open to an admin.
pub open spec fn open_to_admin(method: Method) -> bool {
    method is ChangePrice || method is MintToBucket || method is MintToVault
        || method is BurnInBucket || method is UpdateMetadata
}

/// The roles that `method` admits.
pub fn method_access(method: Method) -> (r: Access)
    ensures
        r.public == open_to_all(method),
        r.owner == open_to_owner(method),
        r.super_admin == open_to_super_admin(method),
        r.admin == open_to_admin(method),
{
    match method {
        Method::FreeToken | Method::Buy | Method::DepositToVault | Method::GetVaultData => {
            Access { public: true, owner: false, super_admin: false, admin: false }
        },
        Method::ChangePrice | Method::MintToBucket | Method::MintToVault | Method::BurnInBucket
        | Method::UpdateMetadata => Access { public: false, owner: false, super_admin: false, admin: true },
        Method::WithdrawToBucket => Access { public: false, owner: true, super_admin: false, admin: false },
        Method::BurnInVault | Method::SetVersion => {
            Access { public: false, owner: false, super_admin: true, admin: false }
        },
        Method::SetTokenStageThree => Access {
            public: false,
            owner: true,
            super_admin: true,
            admin: false,
        },
    }
}

/// Whether a caller holding the roles marked in `held` may call `method`.
pub fn may_call(method: Method, held: Access) -> (r: bool)
    ensures
        r == (open_to_all(method) || (open_to_owner(method) && held.owner) || (open_to_super_admin(
            method,
        ) && held.super_admin) || (open_to_admin(method) && held.admin)),
{
    let a = method_access(method);
    a.public || (a.owner && held.owner) || (a.super_admin && held.super_admin) || (a.admin
        && held.admin)
}

/// The roles whose holders may reassign `role`: the owner role is fixed, the
/// super admin role is reassigned by the owner, and the admin role by the
/// owner or a super admin.
pub fn role_updaters(role: Role) -> (r: Access)
    ensures
        !r.public,
        !r.admin,
        r.owner == (role != Role::Owner),
        r.super_admin == (role == Role::Admin),
{
    match role {
        Role::Owner => Access { public: false, owner: false, super_admin: false, admin: false },
        Role::SuperAdmin => Access { public: false, owner: true, super_admin: false, admin: false },
        Role::Admin => Access { public: false, owner: true, super_admin: true, admin: false },
    }
}

} // verus!
