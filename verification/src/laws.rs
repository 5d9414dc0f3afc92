use vstd::prelude::*;
use crate::address::Address;
use crate::blacklist::{
    blacklist_written, check_outcome, Blacklist, BlacklistEntry, CheckBlacklist, ModifyBlacklist,
};
use crate::config::{
    initialize_refusal, initialized, Initialize, StablecoinConfig, MAX_NAME_LEN, MAX_SYMBOL_LEN,
    MAX_URI_LEN,
};
use crate::error::StablecoinError;
use crate::ledger::LedgerReply;
use crate::seizure::{
    accounts_after, request_after, seize_refusal, stage_after, transfer_fits, transfer_request,
    SeizeTokens, Seizure, SeizureStage,
};

verus! {

/// An instance is created once. With an empty slot and display data within
/// bounds, `initialize` is accepted and leaves one record in which the caller
/// is both the mint and the freeze authority; whatever a later `initialize` on
/// that slot is given, it is refused as already initialized.
pub proof fn law_initialize_once(
    ctx: Initialize,
    name: String,
    symbol: String,
    uri: String,
    decimals: u8,
    again_name: Seq<char>,
    again_symbol: Seq<char>,
    again_uri: Seq<char>,
)
    requires
        ctx.stablecoin_config is None,
        name@.len() <= MAX_NAME_LEN,
        symbol@.len() <= MAX_SYMBOL_LEN,
        uri@.len() <= MAX_URI_LEN,
    ensures
        initialize_refusal(ctx, name@, symbol@, uri@) is None,
        initialized(ctx, name, symbol, uri, decimals).stablecoin_config is Some,
        initialized(ctx, name, symbol, uri, decimals).stablecoin_config->0.wf(),
        initialized(ctx, name, symbol, uri, decimals).stablecoin_config->0.mint_authority
            == ctx.authority,
        initialized(ctx, name, symbol, uri, decimals).stablecoin_config->0.freeze_authority
            == ctx.authority,
        initialize_refusal(
            initialized(ctx, name, symbol, uri, decimals),
            again_name,
            again_symbol,
            again_uri,
        ) == Some(StablecoinError::AlreadyInitialized),
{
}

/// The check reads the flag as it stands. Right after the mint authority has
/// blocked an address, the check of that address fails as blacklisted; right
/// after it has lifted the block, the check succeeds. Nothing of an earlier
/// answer is kept.
pub proof fn law_check_follows_flag(ctx: ModifyBlacklist, address: Address, now: i64)
    requires
        ctx.stablecoin_config.spec_may_mint(ctx.authority),
    ensures
        check_outcome(
            CheckBlacklist {
                blacklist_entry: blacklist_written(ctx, address, true, now).blacklist_entry,
            },
            address,
        ) == Err::<(), StablecoinError>(StablecoinError::AddressBlacklisted),
        check_outcome(
            CheckBlacklist {
                blacklist_entry: blacklist_written(ctx, address, false, now).blacklist_entry,
            },
            address,
        ) is Ok,
        blacklist_written(ctx, address, true, now).stablecoin_config.spec_may_mint(
            blacklist_written(ctx, address, true, now).authority,
        ),
{
}

/// For every address, the check of its record succeeds exactly when the
/// blacklist does not flag it, and that is also when the address may take part
/// in a movement of value: the check as a call of its own and the decision
/// inside a transfer come out alike on the same blacklist.
pub proof fn law_check_agrees_with_transfer_decision(blacklist: Blacklist, address: Address)
    ensures
        check_outcome(CheckBlacklist { blacklist_entry: blacklist.spec_slot(address) }, address)
            is Ok <==> !blacklist.flagged(address),
        blacklist.spec_permits(seq![address]) <==> !blacklist.flagged(address),
{
    let one = seq![address];
    assert(one[0] == address);
}

/// Storing a record changes the answer for its address at once and for no
/// other address: afterwards the address is flagged exactly if the stored flag
/// is set, its record is the stored one, and every other address is flagged as
/// before. No record is lost: an address that had one still has one.
pub proof fn law_store_is_seen_at_once(
    before: Blacklist,
    after: Blacklist,
    entry: BlacklistEntry,
    other: Address,
)
    requires
        after@ == before@.insert(entry.address@, (entry.is_blacklisted, entry.timestamp)),
        other@ != entry.address@,
    ensures
        after.flagged(entry.address) == entry.is_blacklisted,
        after.spec_slot(entry.address) == entry,
        after.flagged(other) == before.flagged(other),
        after.spec_slot(other) == before.spec_slot(other),
        after@.contains_key(entry.address@),
        before@.contains_key(other@) ==> after@.contains_key(other@),
{
}

/// Only the holder of the mint authority rotates it, and the rotation takes
/// the power away from the old holder at once: after the authority went to
/// another identity, that identity holds it, the old one does not, and the
/// freeze authority is who it was.
pub proof fn law_rotation_revokes(
    config: StablecoinConfig,
    caller: Address,
    new_authority: Address,
)
    requires
        config.spec_may_mint(caller),
        new_authority@ != caller@,
    ensures
        config.with_minter(new_authority).spec_may_mint(new_authority),
        !config.with_minter(new_authority).spec_may_mint(caller),
        config.with_minter(new_authority).freeze_authority == config.freeze_authority,
        config.with_freezer(new_authority).mint_authority == config.mint_authority,
{
}

/// A seizure whose freeze and transfer the ledger both accepts leaves the
/// source frozen and poorer by the amount, and the treasury richer by it.
pub proof fn law_seizure_moves_amount(ctx: SeizeTokens, amount: u64)
    requires
        seize_refusal(ctx, amount) is None,
        transfer_fits(ctx, amount),
    ensures
        ({
            let opened = Seizure { stage: SeizureStage::AwaitingFreeze, amount };
            let frozen = accounts_after(ctx, opened, LedgerReply::Accepted);
            let pending = Seizure {
                stage: stage_after(opened.stage, LedgerReply::Accepted),
                amount,
            };
            let done = accounts_after(frozen, pending, LedgerReply::Accepted);
            &&& request_after(ctx, opened, LedgerReply::Accepted) == Some(
                transfer_request(ctx, amount),
            )
            &&& transfer_fits(frozen, amount)
            &&& stage_after(pending.stage, LedgerReply::Accepted) == SeizureStage::Seized
            &&& done.from.frozen
            &&& done.from.amount == ctx.from.amount - amount
            &&& done.treasury.amount == ctx.treasury.amount + amount
        }),
{
}

/// A seizure whose transfer the ledger refuses after the freeze was accepted
/// leaves the source frozen and moves no balance; a seizure whose freeze is
/// refused changes nothing and asks for no transfer.
pub proof fn law_seizure_partial(ctx: SeizeTokens, amount: u64)
    ensures
        ({
            let opened = Seizure { stage: SeizureStage::AwaitingFreeze, amount };
            let frozen = accounts_after(ctx, opened, LedgerReply::Accepted);
            let pending = Seizure {
                stage: stage_after(opened.stage, LedgerReply::Accepted),
                amount,
            };
            let left = accounts_after(frozen, pending, LedgerReply::Refused);
            &&& stage_after(pending.stage, LedgerReply::Refused) == SeizureStage::FrozenUnseized
            &&& request_after(frozen, pending, LedgerReply::Refused) is None
            &&& left.from.frozen
            &&& left.from.amount == ctx.from.amount
            &&& left.treasury == ctx.treasury
            &&& accounts_after(ctx, opened, LedgerReply::Refused) == ctx
            &&& stage_after(opened.stage, LedgerReply::Refused) == SeizureStage::Aborted
            &&& request_after(ctx, opened, LedgerReply::Refused) is None
        }),
{
}

/// Blocking an address and then lifting the block leaves it unblocked: the
/// check succeeds, the record is still there, and its time is that of the
/// lifting, the later of the two calls.
pub proof fn law_block_then_lift(ctx: ModifyBlacklist, address: Address, blocked_at: i64, lifted_at: i64)
    requires
        ctx.stablecoin_config.spec_may_mint(ctx.authority),
    ensures
        ({
            let blocked = blacklist_written(ctx, address, true, blocked_at);
            let lifted = blacklist_written(blocked, address, false, lifted_at);
            &&& blocked.stablecoin_config.spec_may_mint(blocked.authority)
            &&& check_outcome(CheckBlacklist { blacklist_entry: lifted.blacklist_entry }, address)
                is Ok
            &&& lifted.blacklist_entry.address == address
            &&& lifted.blacklist_entry.timestamp == lifted_at
        }),
{
}

} // verus!
