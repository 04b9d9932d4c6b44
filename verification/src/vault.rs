//! The stablecoin vault: the state the component keeps (its token vault, the
//! total supply it has tracked, its version) and the decision each of its
//! methods takes. Each method that can refuse a call has a check beside it
//! that says whether, and why not; the method itself admits only the calls
//! its check lets through (a refused call aborts the transaction). It updates
//! the state and says what to do with the ledger: which amount of the token
//! to hand out, mint, take in or burn, or which resource-manager calls to make.
use crate::decimal::{atto_scale, lemma_attos_in_range, decimal_checked_add, decimal_checked_sub, decimal_lt, in_decimal_range, Decimal};
use scrypto::types::ResourceAddress;
use vstd::prelude::*;

verus! {

#[verifier::external_type_specification]
#[verifier::external_body]
pub struct ExResourceAddress(scrypto::types::ResourceAddress);

/// `==` of Scrypto's `ResourceAddress`, which compares the address bytes.
#[verifier::external_body]
pub(crate) fn same_resource(a: &ResourceAddress, b: &ResourceAddress) -> (r: bool)
    ensures
        r == (*a == *b),
{
    *a == *b
}

/// Why a vault method refuses a call.
#[derive(Clone, Copy, Debug, PartialEq, Eq, Structural)]
pub enum VaultError {
    /// The amount asked for is not positive.
    InvalidAmount,
    /// The vault holds less than the amount asked for.
    InsufficientFunds,
    /// A bucket handed in to be burnt does not hold the vault's token.
    InvalidToken,
    /// A bucket handed in to be stored does not hold the vault's token.
    MismatchingResource,
    /// An amount would leave the range of `Decimal`.
    Overflow,
    /// The version may only be changed from version 3 on.
    InvalidVersion,
}

impl VaultError {
    /// The message the component aborts the transaction with.
    pub fn message(&self) -> (r: &'static str)
        ensures
            *self == VaultError::InvalidAmount ==> r@ == "invalid amount"@,
            *self == VaultError::InsufficientFunds ==> r@ == "not enough amount in the vault"@,
            *self == VaultError::InvalidToken ==> r@ == "input token invalid"@,
            *self == VaultError::MismatchingResource ==> r@ == "mismatching resource"@,
            *self == VaultError::Overflow ==> r@ == "Overflow"@,
            *self == VaultError::InvalidVersion ==> r@ == "invalid version"@,
    {
        match self {
            VaultError::InvalidAmount => "invalid amount",
            VaultError::InsufficientFunds => "not enough amount in the vault",
            VaultError::InvalidToken => "input token invalid",
            VaultError::MismatchingResource => "mismatching resource",
            VaultError::Overflow => "Overflow",
            VaultError::InvalidVersion => "invalid version",
        }
    }
}

/// A bucket of some resource handed to the component.
#[derive(Clone, Copy, Debug)]
pub struct TokenBucket {
    pub resource: ResourceAddress,
    pub amount: Decimal,
}

/// A call to make on the token's resource manager.
#[derive(Clone, Debug)]
pub enum ResourceCall {
    /// Set the metadata entry `key` to `value`.
    SetMetadata { key: String, value: String },
    /// Set the minter role to deny all.
    DenyMinting,
    /// Lock the minter role.
    LockMinting,
    /// Set the metadata setter role to deny all.
    DenyMetadataUpdates,
    /// Lock the metadata setter role.
    LockMetadataUpdates,
}

/// The state of the component.
#[derive(Clone, Copy, Debug)]
pub struct StableCoinVault {
    /// The token held in the vault.
    pub token: ResourceAddress,
    /// The amount of the token in the vault.
    pub vault_amount: Decimal,
    /// The total supply of the token as the component has tracked it.
    pub total_supply: Decimal,
    pub version: u16,
}

/// The mathematical state of the component: amounts counted in attos.
pub struct VaultModel {
    pub token: ResourceAddress,
    pub vault: int,
    pub supply: int,
    pub version: int,
}

impl View for StableCoinVault {
    type V = VaultModel;

    open spec fn view(&self) -> VaultModel {
        VaultModel {
            token: self.token,
            vault: self.vault_amount.attos(),
            supply: self.total_supply.attos(),
            version: self.version as int,
        }
    }
}

impl VaultModel {
    /// The amounts are those a `Decimal` can hold, as in every view of a
    /// `StableCoinVault`.
    pub open spec fn amounts_in_range(self) -> bool {
        in_decimal_range(self.vault) && in_decimal_range(self.supply)
    }

    pub open spec fn with_vault(self, vault: int) -> VaultModel {
        VaultModel { token: self.token, vault: vault, supply: self.supply, version: self.version }
    }

    pub open spec fn with_supply(self, supply: int) -> VaultModel {
        VaultModel { token: self.token, vault: self.vault, supply: supply, version: self.version }
    }

    /// Handing out one whole token from the vault.
    pub open spec fn take_one(self) -> Result<VaultModel, VaultError> {
        if self.vault < atto_scale() {
            Err(VaultError::InsufficientFunds)
        } else {
            Ok(self.with_vault(self.vault - atto_scale()))
        }
    }

    /// Minting `amount` for the caller: the tracked supply grows.
    pub open spec fn mint_to_bucket(self, amount: int) -> Result<VaultModel, VaultError> {
        if amount <= 0 {
            Err(VaultError::InvalidAmount)
        } else if !in_decimal_range(self.supply + amount) {
            Err(VaultError::Overflow)
        } else {
            Ok(self.with_supply(self.supply + amount))
        }
    }

    /// Minting `amount` into the vault: the vault and the tracked supply grow.
    pub open spec fn mint_to_vault(self, amount: int) -> Result<VaultModel, VaultError> {
        if amount <= 0 {
            Err(VaultError::InvalidAmount)
        } else if !in_decimal_range(self.vault + amount) || !in_decimal_range(self.supply + amount) {
            Err(VaultError::Overflow)
        } else {
            Ok(VaultModel {
                token: self.token,
                vault: self.vault + amount,
                supply: self.supply + amount,
                version: self.version,
            })
        }
    }

    /// Handing out `amount` from the vault.
    pub open spec fn withdraw_to_bucket(self, amount: int) -> Result<VaultModel, VaultError> {
        if amount <= 0 {
            Err(VaultError::InvalidAmount)
        } else if amount > self.vault {
            Err(VaultError::InsufficientFunds)
        } else {
            Ok(self.with_vault(self.vault - amount))
        }
    }

    /// Storing a bucket of `resource` holding `amount` in the vault.
    pub open spec fn deposit_to_vault(self, resource: ResourceAddress, amount: int) -> Result<
        VaultModel,
        VaultError,
    > {
        if resource != self.token {
            Err(VaultError::MismatchingResource)
        } else if !in_decimal_range(self.vault + amount) {
            Err(VaultError::Overflow)
        } else {
            Ok(self.with_vault(self.vault + amount))
        }
    }

    /// Burning `amount` out of the vault: the vault and the tracked supply shrink.
    pub open spec fn burn_in_vault(self, amount: int) -> Result<VaultModel, VaultError> {
        if amount <= 0 {
            Err(VaultError::InvalidAmount)
        } else if amount > self.vault {
            Err(VaultError::InsufficientFunds)
        } else if !in_decimal_range(self.supply - amount) {
            Err(VaultError::Overflow)
        } else {
            Ok(VaultModel {
                token: self.token,
                vault: self.vault - amount,
                supply: self.supply - amount,
                version: self.version,
            })
        }
    }

    /// Burning a bucket of `resource` holding `amount`: the tracked supply shrinks.
    pub open spec fn burn_in_bucket(self, resource: ResourceAddress, amount: int) -> Result<
        VaultModel,
        VaultError,
    > {
        if resource != self.token {
            Err(VaultError::InvalidToken)
        } else if !in_decimal_range(self.supply - amount) {
            Err(VaultError::Overflow)
        } else {
            Ok(self.with_supply(self.supply - amount))
        }
    }

    /// Changing the version, which is allowed only from version 3 on.
    pub open spec fn set_version(self, new_version: int) -> Result<VaultModel, VaultError> {
        if self.version < 3 {
            Err(VaultError::InvalidVersion)
        } else {
            Ok(VaultModel {
                token: self.token,
                vault: self.vault,
                supply: self.supply,
                version: new_version,
            })
        }
    }
}

/// The view of every vault has its amounts in range.
pub proof fn lemma_view_in_range(v: StableCoinVault)
    ensures
        v@.amounts_in_range(),
{
    lemma_attos_in_range(v.vault_amount);
    lemma_attos_in_range(v.total_supply);
}


/// The answer of a check: `Ok` where the model lets the call through, and
/// the model's error where it refuses it.
pub open spec fn check_answer(outcome: Result<VaultModel, VaultError>, r: Result<(), VaultError>) -> bool {
    match outcome {
        Ok(_) => r is Ok,
        Err(e) => r == Err::<(), VaultError>(e),
    }
}

impl StableCoinVault {
    /// Whether `free_token` and `buy` may go through: the vault must hold at
    /// least one whole token. A call they are not allowed aborts the
    /// transaction with the error's message.
    pub fn check_take_one(&self) -> (r: Result<(), VaultError>)
        ensures
            check_answer(self@.take_one(), r),
    {
        let one = Decimal::from_u64(1);
        if decimal_lt(self.vault_amount, one) {
            Err(VaultError::InsufficientFunds)
        } else {
            Ok(())
        }
    }

    /// Hands out one whole token from the vault.
    pub fn free_token(&mut self) -> (r: Decimal)
        requires
            old(self)@.take_one() is Ok,
        ensures
            final(self)@ == old(self)@.take_one()->Ok_0,
            r.attos() == atto_scale(),
    {
        self.take_one()
    }

    /// Hands out one whole token from the vault in exchange for `funds`,
    /// which the component does not look at.
    pub fn buy(&mut self, funds: TokenBucket) -> (r: Decimal)
        requires
            old(self)@.take_one() is Ok,
        ensures
            final(self)@ == old(self)@.take_one()->Ok_0,
            r.attos() == atto_scale(),
    {
        self.take_one()
    }

    fn take_one(&mut self) -> (r: Decimal)
        requires
            old(self)@.take_one() is Ok,
        ensures
            final(self)@ == old(self)@.take_one()->Ok_0,
            r.attos() == atto_scale(),
    {
        let one = Decimal::from_u64(1);
        self.vault_amount = decimal_checked_sub(self.vault_amount, one).unwrap();
        one
    }

    /// Any price: pricing is not implemented, nothing changes.
    pub fn change_price(&mut self, new_price: Decimal)
        ensures
            *final(self) == *old(self),
    {
    }

    /// Whether `mint_to_bucket(amount)` may go through.
    pub fn check_mint_to_bucket(&self, amount: Decimal) -> (r: Result<(), VaultError>)
        ensures
            check_answer(self@.mint_to_bucket(amount.attos()), r),
    {
        if !decimal_lt(Decimal::zero(), amount) {
            Err(VaultError::InvalidAmount)
        } else if decimal_checked_add(self.total_supply, amount).is_none() {
            Err(VaultError::Overflow)
        } else {
            Ok(())
        }
    }

    /// Adds `amount` to the tracked supply, the vault untouched, and returns
    /// the amount to mint for the caller.
    pub fn mint_to_bucket(&mut self, amount: Decimal) -> (r: Decimal)
        requires
            old(self)@.mint_to_bucket(amount.attos()) is Ok,
        ensures
            final(self)@ == old(self)@.mint_to_bucket(amount.attos())->Ok_0,
            r == amount,
    {
        self.total_supply = decimal_checked_add(self.total_supply, amount).unwrap();
        amount
    }

    /// Whether `mint_to_vault(amount)` may go through.
    pub fn check_mint_to_vault(&self, amount: Decimal) -> (r: Result<(), VaultError>)
        ensures
            check_answer(self@.mint_to_vault(amount.attos()), r),
    {
        if !decimal_lt(Decimal::zero(), amount) {
            Err(VaultError::InvalidAmount)
        } else if decimal_checked_add(self.vault_amount, amount).is_none()
            || decimal_checked_add(self.total_supply, amount).is_none() {
            Err(VaultError::Overflow)
        } else {
            Ok(())
        }
    }

    /// Adds `amount` to the vault and to the tracked supply, and returns the
    /// amount to mint into the vault.
    pub fn mint_to_vault(&mut self, amount: Decimal) -> (r: Decimal)
        requires
            old(self)@.mint_to_vault(amount.attos()) is Ok,
        ensures
            final(self)@ == old(self)@.mint_to_vault(amount.attos())->Ok_0,
            r == amount,
    {
        self.vault_amount = decimal_checked_add(self.vault_amount, amount).unwrap();
        self.total_supply = decimal_checked_add(self.total_supply, amount).unwrap();
        amount
    }

    /// Whether `withdraw_to_bucket(amount)` may go through.
    pub fn check_withdraw_to_bucket(&self, amount: Decimal) -> (r: Result<(), VaultError>)
        ensures
            check_answer(self@.withdraw_to_bucket(amount.attos()), r),
    {
        if !decimal_lt(Decimal::zero(), amount) {
            Err(VaultError::InvalidAmount)
        } else if decimal_lt(self.vault_amount, amount) {
            Err(VaultError::InsufficientFunds)
        } else {
            Ok(())
        }
    }

    /// Takes `amount` out of the vault and returns the amount handed out.
    pub fn withdraw_to_bucket(&mut self, amount: Decimal) -> (r: Decimal)
        requires
            old(self)@.withdraw_to_bucket(amount.attos()) is Ok,
        ensures
            final(self)@ == old(self)@.withdraw_to_bucket(amount.attos())->Ok_0,
            r == amount,
    {
        self.vault_amount = decimal_checked_sub(self.vault_amount, amount).unwrap();
        amount
    }

    /// Whether `deposit_to_vault(bucket)` may go through.
    pub fn check_deposit_to_vault(&self, bucket: TokenBucket) -> (r: Result<(), VaultError>)
        ensures
            check_answer(self@.deposit_to_vault(bucket.resource, bucket.amount.attos()), r),
    {
        if !same_resource(&bucket.resource, &self.token) {
            Err(VaultError::MismatchingResource)
        } else if decimal_checked_add(self.vault_amount, bucket.amount).is_none() {
            Err(VaultError::Overflow)
        } else {
            Ok(())
        }
    }

    /// Stores `bucket` in the vault and returns the amount taken in.
    pub fn deposit_to_vault(&mut self, bucket: TokenBucket) -> (r: Decimal)
        requires
            old(self)@.deposit_to_vault(bucket.resource, bucket.amount.attos()) is Ok,
        ensures
            final(self)@ == old(self)@.deposit_to_vault(bucket.resource, bucket.amount.attos())->Ok_0,
            r == bucket.amount,
    {
        self.vault_amount = decimal_checked_add(self.vault_amount, bucket.amount).unwrap();
        bucket.amount
    }

    /// Whether `burn_in_vault(amount)` may go through.
    pub fn check_burn_in_vault(&self, amount: Decimal) -> (r: Result<(), VaultError>)
        ensures
            check_answer(self@.burn_in_vault(amount.attos()), r),
    {
        if !decimal_lt(Decimal::zero(), amount) {
            Err(VaultError::InvalidAmount)
        } else if decimal_lt(self.vault_amount, amount) {
            Err(VaultError::InsufficientFunds)
        } else if decimal_checked_sub(self.total_supply, amount).is_none() {
            Err(VaultError::Overflow)
        } else {
            Ok(())
        }
    }

    /// Takes `amount` off the vault and off the tracked supply, and returns
    /// the amount to burn out of the vault.
    pub fn burn_in_vault(&mut self, amount: Decimal) -> (r: Decimal)
        requires
            old(self)@.burn_in_vault(amount.attos()) is Ok,
        ensures
            final(self)@ == old(self)@.burn_in_vault(amount.attos())->Ok_0,
            r == amount,
    {
        self.total_supply = decimal_checked_sub(self.total_supply, amount).unwrap();
        self.vault_amount = decimal_checked_sub(self.vault_amount, amount).unwrap();
        amount
    }

    /// Whether `burn_in_bucket(bucket)` may go through.
    pub fn check_burn_in_bucket(&self, bucket: TokenBucket) -> (r: Result<(), VaultError>)
        ensures
            check_answer(self@.burn_in_bucket(bucket.resource, bucket.amount.attos()), r),
    {
        if !same_resource(&bucket.resource, &self.token) {
            Err(VaultError::InvalidToken)
        } else if decimal_checked_sub(self.total_supply, bucket.amount).is_none() {
            Err(VaultError::Overflow)
        } else {
            Ok(())
        }
    }

    /// Takes the amount of `bucket`, which holds the vault's token, off the
    /// tracked supply, and returns the amount to burn.
    pub fn burn_in_bucket(&mut self, bucket: TokenBucket) -> (r: Decimal)
        requires
            old(self)@.burn_in_bucket(bucket.resource, bucket.amount.attos()) is Ok,
        ensures
            final(self)@ == old(self)@.burn_in_bucket(bucket.resource, bucket.amount.attos())->Ok_0,
            r == bucket.amount,
    {
        self.total_supply = decimal_checked_sub(self.total_supply, bucket.amount).unwrap();
        bucket.amount
    }

    /// The version, the amount in the vault and the tracked total supply.
    pub fn get_vault_data(&self) -> (r: (u16, Decimal, Decimal))
        ensures
            r == (self.version, self.vault_amount, self.total_supply),
    {
        (self.version, self.vault_amount, self.total_supply)
    }

    /// Whether `set_version` may go through: only from version 3 on.
    pub fn check_set_version(&self) -> (r: Result<(), VaultError>)
        ensures
            forall|v: int| check_answer(#[trigger] self@.set_version(v), r),
    {
        if self.version < 3 {
            Err(VaultError::InvalidVersion)
        } else {
            Ok(())
        }
    }

    /// Changes the version.
    pub fn set_version(&mut self, new_version: u16)
        requires
            old(self)@.set_version(new_version as int) is Ok,
        ensures
            final(self)@ == old(self)@.set_version(new_version as int)->Ok_0,
    {
        self.version = new_version;
    }

    /// Sets the token's metadata entry `key` to `value`; the state is unchanged.
    pub fn update_metadata(&mut self, key: String, value: String) -> (r: ResourceCall)
        ensures
            *final(self) == *old(self),
            r matches ResourceCall::SetMetadata { key: k, value: v } && k@ == key@ && v@ == value@,
    {
        ResourceCall::SetMetadata { key: key, value: value }
    }

    /// Moves the token to its last stage: records the stage in the metadata,
    /// then denies and locks minting and metadata updates, in this order.
    pub fn set_token_stage_three(&self) -> (r: Vec<ResourceCall>)
        ensures
            r@.len() == 5,
            r@[0] matches ResourceCall::SetMetadata { key: k, value: v } && k@ == "stage"@ && v@
                == "Lock mint, withdraw, and update_metadata rules"@,
            r@[1] is DenyMinting,
            r@[2] is LockMinting,
            r@[3] is DenyMetadataUpdates,
            r@[4] is LockMetadataUpdates,
    {
        let mut calls: Vec<ResourceCall> = Vec::new();
        calls.push(
            ResourceCall::SetMetadata {
                key: "stage".to_owned(),
                value: "Lock mint, withdraw, and update_metadata rules".to_owned(),
            },
        );
        calls.push(ResourceCall::DenyMinting);
        calls.push(ResourceCall::LockMinting);
        calls.push(ResourceCall::DenyMetadataUpdates);
        calls.push(ResourceCall::LockMetadataUpdates);
        calls
    }
}

} // verus!
