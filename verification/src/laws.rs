//! What holds of the vault across calls: how the tracked supply and the
//! tokens outside the vault move, which calls undo each other, and that the
//! version of a vault that starts below 3 can never change.
use crate::decimal::{atto_scale, in_decimal_range};
use crate::metadata::{lookup_text, MetadataLookup};
use crate::vault::{StableCoinVault, VaultError, VaultModel};
use scrypto::types::ResourceAddress;
use vstd::prelude::*;

verus! {

/// A call of one of the component's methods, with its amounts in attos.
pub enum Operation {
    FreeToken,
    Buy,
    ChangePrice,
    MintToBucket(int),
    MintToVault(int),
    WithdrawToBucket(int),
    DepositToVault(ResourceAddress, int),
    BurnInVault(int),
    BurnInBucket(ResourceAddress, int),
    UpdateMetadata,
    SetTokenStageThree,
    GetVaultData,
    SetVersion(int),
}

/// The state after `op`, or why `op` is refused; the methods of
/// `StableCoinVault` are stated over the same functions.
pub open spec fn apply(m: VaultModel, op: Operation) -> Result<VaultModel, VaultError> {
    match op {
        Operation::FreeToken | Operation::Buy => m.take_one(),
        Operation::ChangePrice | Operation::UpdateMetadata | Operation::SetTokenStageThree
        | Operation::GetVaultData => Ok(m),
        Operation::MintToBucket(a) => m.mint_to_bucket(a),
        Operation::MintToVault(a) => m.mint_to_vault(a),
        Operation::WithdrawToBucket(a) => m.withdraw_to_bucket(a),
        Operation::DepositToVault(res, a) => m.deposit_to_vault(res, a),
        Operation::BurnInVault(a) => m.burn_in_vault(a),
        Operation::BurnInBucket(res, a) => m.burn_in_bucket(res, a),
        Operation::SetVersion(v) => m.set_version(v),
    }
}

/// The amount of the token that `op` hands to the caller when it succeeds.
pub open spec fn handed_out(op: Operation) -> int {
    match op {
        Operation::FreeToken | Operation::Buy => atto_scale(),
        Operation::MintToBucket(a) | Operation::WithdrawToBucket(a) => a,
        _ => 0,
    }
}

/// The amount of the token that `op` takes from the caller when it succeeds.
pub open spec fn taken_in(op: Operation) -> int {
    match op {
        Operation::DepositToVault(_, a) | Operation::BurnInBucket(_, a) => a,
        _ => 0,
    }
}

/// The amount of the token that `op` mints when it succeeds.
pub open spec fn minted(op: Operation) -> int {
    match op {
        Operation::MintToBucket(a) | Operation::MintToVault(a) => a,
        _ => 0,
    }
}

/// The amount of the token that `op` burns when it succeeds.
pub open spec fn burned(op: Operation) -> int {
    match op {
        Operation::BurnInVault(a) | Operation::BurnInBucket(_, a) => a,
        _ => 0,
    }
}

/// The amounts that `op` takes in are never negative, as those of real buckets.
pub open spec fn buckets_nonnegative(op: Operation) -> bool {
    match op {
        Operation::DepositToVault(_, a) | Operation::BurnInBucket(_, a) => a >= 0,
        _ => true,
    }
}

/// The state after the calls `ops` in order; a refused call changes nothing.
pub open spec fn run(m: VaultModel, ops: Seq<Operation>) -> VaultModel
    decreases ops.len(),
{
    if ops.len() == 0 {
        m
    } else {
        let prev = run(m, ops.drop_last());
        match apply(prev, ops.last()) {
            Ok(n) => n,
            Err(_) => prev,
        }
    }
}

/// The amount the calls `ops` hand out minus the amount they take in,
/// counting the calls that succeed.
pub open spec fn net_outflow(m: VaultModel, ops: Seq<Operation>) -> int
    decreases ops.len(),
{
    if ops.len() == 0 {
        0
    } else {
        let prev = run(m, ops.drop_last());
        let before = net_outflow(m, ops.drop_last());
        match apply(prev, ops.last()) {
            Ok(_) => before + handed_out(ops.last()) - taken_in(ops.last()),
            Err(_) => before,
        }
    }
}

/// A call that succeeds changes the tracked supply by what it mints minus
/// what it burns, and the tokens outside the vault (the supply minus the
/// vault) by what it hands out minus what it takes in; it never changes the
/// token.
pub proof fn lemma_supply_accounting(m: VaultModel, op: Operation)
    ensures
        apply(m, op) matches Ok(n) ==> {
            &&& n.token == m.token
            &&& n.supply == m.supply + minted(op) - burned(op)
            &&& n.supply - n.vault == m.supply - m.vault + handed_out(op) - taken_in(op)
        },
{
}

/// Over any sequence of calls, the tokens outside the vault change by what
/// the successful calls handed out minus what they took in. A vault set up
/// with its whole supply inside thus always has exactly the net outflow
/// outside.
pub proof fn lemma_outside_tokens_conserved(m: VaultModel, ops: Seq<Operation>)
    ensures
        run(m, ops).supply - run(m, ops).vault == m.supply - m.vault + net_outflow(m, ops),
        run(m, ops).token == m.token,
    decreases ops.len(),
{
    if ops.len() > 0 {
        lemma_outside_tokens_conserved(m, ops.drop_last());
        lemma_supply_accounting(run(m, ops.drop_last()), ops.last());
    }
}

/// A vault as instantiated holds its whole supply, so after any calls the
/// tokens outside it are exactly the net outflow of those calls.
pub proof fn lemma_new_vault_outside_tokens(v: StableCoinVault, ops: Seq<Operation>)
    requires
        v.vault_amount == v.total_supply,
    ensures
        run(v@, ops).supply - run(v@, ops).vault == net_outflow(v@, ops),
{
    lemma_outside_tokens_conserved(v@, ops);
}

/// A call never leaves a vault holding a nonnegative amount with a negative
/// one, when the buckets it takes in hold nonnegative amounts.
pub proof fn lemma_vault_nonnegative(m: VaultModel, op: Operation)
    requires
        m.vault >= 0,
        buckets_nonnegative(op),
    ensures
        apply(m, op) matches Ok(n) ==> n.vault >= 0,
{
}

/// The vault never holds more than the tracked supply, when what a call
/// takes in comes from the tokens outside the vault (a bucket handed in holds
/// between nothing and all of them).
pub proof fn lemma_vault_within_supply(m: VaultModel, op: Operation)
    requires
        m.vault <= m.supply,
        0 <= taken_in(op) <= m.supply - m.vault,
    ensures
        apply(m, op) matches Ok(n) ==> n.vault <= n.supply,
{
}

/// Below version 3 no call changes the version: `set_version` is refused
/// and every other call keeps it.
pub proof fn lemma_version_kept(m: VaultModel, op: Operation)
    requires
        m.version < 3,
    ensures
        apply(m, op) matches Ok(n) ==> n.version == m.version,
        op is SetVersion ==> apply(m, op) is Err,
{
}

/// A vault that starts below version 3 (a new vault starts at 1) keeps its
/// version whatever calls follow, so `set_version` is refused in every state
/// it reaches.
pub proof fn lemma_version_frozen(m: VaultModel, ops: Seq<Operation>, new_version: int)
    requires
        m.version < 3,
    ensures
        run(m, ops).version == m.version,
        run(m, ops).set_version(new_version) == Err::<VaultModel, VaultError>(
            VaultError::InvalidVersion,
        ),
    decreases ops.len(),
{
    if ops.len() > 0 {
        lemma_version_frozen(m, ops.drop_last(), new_version);
        lemma_version_kept(run(m, ops.drop_last()), ops.last());
    }
}

/// Depositing what was just withdrawn restores the vault.
pub proof fn lemma_withdraw_then_deposit(m: VaultModel, amount: int)
    requires
        m.amounts_in_range(),
        m.withdraw_to_bucket(amount) is Ok,
    ensures
        m.withdraw_to_bucket(amount)->Ok_0.deposit_to_vault(m.token, amount) == Ok::<
            VaultModel,
            VaultError,
        >(m),
{
}

/// Withdrawing what was just deposited restores a vault that holds a
/// nonnegative amount, for a positive amount.
pub proof fn lemma_deposit_then_withdraw(m: VaultModel, amount: int)
    requires
        m.vault >= 0,
        m.amounts_in_range(),
        amount > 0,
        m.deposit_to_vault(m.token, amount) is Ok,
    ensures
        m.deposit_to_vault(m.token, amount)->Ok_0.withdraw_to_bucket(amount) == Ok::<
            VaultModel,
            VaultError,
        >(m),
{
}

/// Burning in the vault what was just minted into it restores a vault that
/// holds a nonnegative amount.
pub proof fn lemma_mint_then_burn_in_vault(m: VaultModel, amount: int)
    requires
        m.vault >= 0,
        m.amounts_in_range(),
        m.mint_to_vault(amount) is Ok,
    ensures
        m.mint_to_vault(amount)->Ok_0.burn_in_vault(amount) == Ok::<VaultModel, VaultError>(m),
{
}

/// Burning the bucket that `mint_to_bucket` handed out restores the vault.
pub proof fn lemma_mint_then_burn_in_bucket(m: VaultModel, amount: int)
    requires
        m.amounts_in_range(),
        m.mint_to_bucket(amount) is Ok,
    ensures
        m.mint_to_bucket(amount)->Ok_0.burn_in_bucket(m.token, amount) == Ok::<
            VaultModel,
            VaultError,
        >(m),
{
}

/// What the calls `ops` mint minus what they burn, counting the calls that
/// succeed.
pub open spec fn net_minted(m: VaultModel, ops: Seq<Operation>) -> int
    decreases ops.len(),
{
    if ops.len() == 0 {
        0
    } else {
        let prev = run(m, ops.drop_last());
        let before = net_minted(m, ops.drop_last());
        match apply(prev, ops.last()) {
            Ok(_) => before + minted(ops.last()) - burned(ops.last()),
            Err(_) => before,
        }
    }
}

/// Over any sequence of calls, the tracked supply changes by what the
/// successful calls minted minus what they burnt.
pub proof fn lemma_supply_follows_mints_and_burns(m: VaultModel, ops: Seq<Operation>)
    ensures
        run(m, ops).supply == m.supply + net_minted(m, ops),
    decreases ops.len(),
{
    if ops.len() > 0 {
        lemma_supply_follows_mints_and_burns(m, ops.drop_last());
        lemma_supply_accounting(run(m, ops.drop_last()), ops.last());
    }
}

/// Every call of `ops` that takes tokens in takes them from outside the
/// vault: never less than nothing, never more than the supply minus the
/// vault in the state it is made in.
pub open spec fn inflow_from_outside(m: VaultModel, ops: Seq<Operation>) -> bool
    decreases ops.len(),
{
    if ops.len() == 0 {
        true
    } else {
        let prev = run(m, ops.drop_last());
        &&& inflow_from_outside(m, ops.drop_last())
        &&& 0 <= taken_in(ops.last())
        &&& taken_in(ops.last()) <= prev.supply - prev.vault
    }
}

/// Over any sequence of calls that take tokens in only from outside the
/// vault, a vault holding between nothing and the whole supply keeps doing so.
pub proof fn lemma_vault_bounds_kept(m: VaultModel, ops: Seq<Operation>)
    requires
        0 <= m.vault <= m.supply,
        inflow_from_outside(m, ops),
    ensures
        0 <= run(m, ops).vault <= run(m, ops).supply,
    decreases ops.len(),
{
    if ops.len() > 0 {
        lemma_vault_bounds_kept(m, ops.drop_last());
        let prev = run(m, ops.drop_last());
        lemma_vault_nonnegative(prev, ops.last());
        lemma_vault_within_supply(prev, ops.last());
    }
}

/// What `get_vault_data` reports of a vault as instantiated (version 1, a
/// nonnegative supply all in the vault), after any calls that take tokens in
/// only from outside it: version 1, and a vault amount between nothing and
/// the tracked supply, which is the initial supply plus what the calls
/// minted minus what they burnt, and tokens outside it equal to the calls'
/// net outflow.
pub proof fn lemma_new_vault_data(v: StableCoinVault, ops: Seq<Operation>)
    requires
        v.version == 1,
        v.vault_amount == v.total_supply,
        v.total_supply.attos() >= 0,
        inflow_from_outside(v@, ops),
    ensures
        run(v@, ops).version == 1,
        0 <= run(v@, ops).vault <= run(v@, ops).supply,
        run(v@, ops).supply == v@.supply + net_minted(v@, ops),
        run(v@, ops).supply - run(v@, ops).vault == net_outflow(v@, ops),
        run(v@, ops).token == v.token,
{
    lemma_supply_follows_mints_and_burns(v@, ops);
    lemma_version_frozen(v@, ops, 1);
    lemma_vault_bounds_kept(v@, ops);
    lemma_outside_tokens_conserved(v@, ops);
}

/// Handing out one token goes through exactly when the vault holds at least
/// one whole token, whatever the tracked supply; it takes one token off the
/// vault and changes nothing else. Otherwise the vault is short.
pub proof fn lemma_take_one_outcome(m: VaultModel)
    ensures
        m.take_one() is Ok <==> m.vault >= atto_scale(),
        m.vault >= atto_scale() ==> m.take_one() == Ok::<VaultModel, VaultError>(
            VaultModel { token: m.token, vault: m.vault - atto_scale(), supply: m.supply, version: m.version },
        ),
        m.vault < atto_scale() ==> m.take_one() == Err::<VaultModel, VaultError>(VaultError::InsufficientFunds),
{
}

/// Minting for the caller goes through exactly for a positive amount that
/// keeps the tracked supply in range, whatever the vault holds; it raises the
/// supply by the amount and leaves the vault, token and version alone.
pub proof fn lemma_mint_to_bucket_outcome(m: VaultModel, amount: int)
    ensures
        m.mint_to_bucket(amount) is Ok <==> (amount > 0 && in_decimal_range(m.supply + amount)),
        (amount > 0 && in_decimal_range(m.supply + amount)) ==> m.mint_to_bucket(amount) == Ok::<
            VaultModel,
            VaultError,
        >(VaultModel { token: m.token, vault: m.vault, supply: m.supply + amount, version: m.version }),
        amount <= 0 ==> m.mint_to_bucket(amount) == Err::<VaultModel, VaultError>(VaultError::InvalidAmount),
        (amount > 0 && !in_decimal_range(m.supply + amount)) ==> m.mint_to_bucket(amount) == Err::<
            VaultModel,
            VaultError,
        >(VaultError::Overflow),
{
}

/// Minting into the vault goes through exactly for a positive amount that
/// keeps the vault and the tracked supply in range, whatever the vault holds;
/// it raises both by the amount.
pub proof fn lemma_mint_to_vault_outcome(m: VaultModel, amount: int)
    ensures
        m.mint_to_vault(amount) is Ok <==> (amount > 0 && in_decimal_range(m.vault + amount)
            && in_decimal_range(m.supply + amount)),
        (amount > 0 && in_decimal_range(m.vault + amount) && in_decimal_range(m.supply + amount))
            ==> m.mint_to_vault(amount) == Ok::<VaultModel, VaultError>(
            VaultModel {
                token: m.token,
                vault: m.vault + amount,
                supply: m.supply + amount,
                version: m.version,
            },
        ),
        amount <= 0 ==> m.mint_to_vault(amount) == Err::<VaultModel, VaultError>(VaultError::InvalidAmount),
        (amount > 0 && !(in_decimal_range(m.vault + amount) && in_decimal_range(m.supply + amount)))
            ==> m.mint_to_vault(amount) == Err::<VaultModel, VaultError>(VaultError::Overflow),
{
}

/// Withdrawing goes through exactly for an amount above nothing and at most
/// what the vault holds; it lowers the vault by the amount and nothing else.
pub proof fn lemma_withdraw_to_bucket_outcome(m: VaultModel, amount: int)
    ensures
        m.withdraw_to_bucket(amount) is Ok <==> 0 < amount <= m.vault,
        0 < amount <= m.vault ==> m.withdraw_to_bucket(amount) == Ok::<VaultModel, VaultError>(
            VaultModel { token: m.token, vault: m.vault - amount, supply: m.supply, version: m.version },
        ),
        amount <= 0 ==> m.withdraw_to_bucket(amount) == Err::<VaultModel, VaultError>(
            VaultError::InvalidAmount,
        ),
        0 < amount && m.vault < amount ==> m.withdraw_to_bucket(amount) == Err::<VaultModel, VaultError>(
            VaultError::InsufficientFunds,
        ),
{
}

/// Depositing goes through exactly for a bucket of the vault's token whose
/// amount keeps the vault in range; it raises the vault by that amount and
/// nothing else.
pub proof fn lemma_deposit_to_vault_outcome(m: VaultModel, resource: ResourceAddress, amount: int)
    ensures
        m.deposit_to_vault(resource, amount) is Ok <==> (resource == m.token && in_decimal_range(
            m.vault + amount,
        )),
        (resource == m.token && in_decimal_range(m.vault + amount)) ==> m.deposit_to_vault(
            resource,
            amount,
        ) == Ok::<VaultModel, VaultError>(
            VaultModel { token: m.token, vault: m.vault + amount, supply: m.supply, version: m.version },
        ),
        resource != m.token ==> m.deposit_to_vault(resource, amount) == Err::<VaultModel, VaultError>(
            VaultError::MismatchingResource,
        ),
{
}

/// Burning in the vault goes through exactly for an amount above nothing, at
/// most what the vault holds, that keeps the tracked supply in range; it
/// lowers the vault and the supply by the amount.
pub proof fn lemma_burn_in_vault_outcome(m: VaultModel, amount: int)
    ensures
        m.burn_in_vault(amount) is Ok <==> (0 < amount <= m.vault && in_decimal_range(
            m.supply - amount,
        )),
        (0 < amount <= m.vault && in_decimal_range(m.supply - amount)) ==> m.burn_in_vault(amount)
            == Ok::<VaultModel, VaultError>(
            VaultModel {
                token: m.token,
                vault: m.vault - amount,
                supply: m.supply - amount,
                version: m.version,
            },
        ),
        amount <= 0 ==> m.burn_in_vault(amount) == Err::<VaultModel, VaultError>(VaultError::InvalidAmount),
        0 < amount && m.vault < amount ==> m.burn_in_vault(amount) == Err::<VaultModel, VaultError>(
            VaultError::InsufficientFunds,
        ),
{
}

/// Burning a bucket goes through exactly for a bucket of the vault's token
/// whose amount keeps the tracked supply in range, whatever the vault holds;
/// it lowers the supply by that amount and leaves the vault alone.
pub proof fn lemma_burn_in_bucket_outcome(m: VaultModel, resource: ResourceAddress, amount: int)
    ensures
        m.burn_in_bucket(resource, amount) is Ok <==> (resource == m.token && in_decimal_range(
            m.supply - amount,
        )),
        (resource == m.token && in_decimal_range(m.supply - amount)) ==> m.burn_in_bucket(
            resource,
            amount,
        ) == Ok::<VaultModel, VaultError>(
            VaultModel { token: m.token, vault: m.vault, supply: m.supply - amount, version: m.version },
        ),
        resource != m.token ==> m.burn_in_bucket(resource, amount) == Err::<VaultModel, VaultError>(
            VaultError::InvalidToken,
        ),
{
}

/// Changing the version goes through exactly from version 3 on, and then
/// sets it to the new version and changes nothing else.
pub proof fn lemma_set_version_outcome(m: VaultModel, new_version: int)
    ensures
        m.set_version(new_version) is Ok <==> m.version >= 3,
        m.version >= 3 ==> m.set_version(new_version) == Ok::<VaultModel, VaultError>(
            VaultModel { token: m.token, vault: m.vault, supply: m.supply, version: new_version },
        ),
        m.version < 3 ==> m.set_version(new_version) == Err::<VaultModel, VaultError>(
            VaultError::InvalidVersion,
        ),
{
}

/// A metadata entry that holds a string is reported as exactly that string;
/// an absent one as `"err"`, one that is not a string as
/// `"MetadataConversioniError"`.
pub proof fn lemma_lookup_text_outcome(s: String)
    ensures
        lookup_text(MetadataLookup::Found(s)) == s@,
        lookup_text(MetadataLookup::Absent) == "err"@,
        lookup_text(MetadataLookup::Unconvertible) == "MetadataConversioniError"@,
{
}

} // verus!
