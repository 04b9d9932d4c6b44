//! The decision logic of a stablecoin vault component: a fungible token held
//! in a vault, with a tracked total supply, minting, burning, withdrawing,
//! depositing, metadata updates and a role-based method access table.
pub mod access;
pub mod decimal;
pub mod laws;
pub mod metadata;
pub mod setup;
pub mod vault;

pub use access::{may_call, method_access, role_updaters, Access, Method, Role};
pub use decimal::Decimal;
pub use metadata::{IdType, MetadataLookup, ResourceKind};
pub use setup::{BadgeSpec, Holder, MetadataEntry, RoleBadge, RoleRule, TokenSpec, VaultSetup};
pub use vault::{ResourceCall, StableCoinVault, TokenBucket, VaultError};
