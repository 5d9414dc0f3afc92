use vstd::prelude::*;
use crate::address::Address;
use crate::blacklist::Blacklist;
use crate::config::StablecoinConfig;
use crate::error::StablecoinError;
use crate::ledger::{LedgerCall, TokenAccount};

verus! {

/// What a mint is handed: the record of the instance, the mint, the account to
/// be credited and the caller.
#[derive(Clone, Debug, PartialEq, Eq)]
pub struct MintTo {
    pub stablecoin_config: StablecoinConfig,
    pub mint: Address,
    pub to: TokenAccount,
    pub authority: Address,
}

/// What a freeze is handed: the record of the instance, the mint, the account
/// to be frozen and the caller.
#[derive(Clone, Debug, PartialEq, Eq)]
pub struct FreezeAccount {
    pub stablecoin_config: StablecoinConfig,
    pub mint: Address,
    pub token_account: TokenAccount,
    pub authority: Address,
}

/// What a thaw is handed: the record of the instance, the mint, the account to
/// be thawed and the caller.
#[derive(Clone, Debug, PartialEq, Eq)]
pub struct ThawAccount {
    pub stablecoin_config: StablecoinConfig,
    pub mint: Address,
    pub token_account: TokenAccount,
    pub authority: Address,
}

/// The refusal that `mint_to` gives, if any: the caller is tried first, then
/// the amount, then the holder of the receiving account.
pub open spec fn mint_refusal(ctx: MintTo, blacklist: Blacklist, amount: u64) -> Option<
    StablecoinError,
> {
    if !ctx.stablecoin_config.spec_may_mint(ctx.authority) {
        Some(StablecoinError::InvalidMintAuthority)
    } else if amount == 0 {
        Some(StablecoinError::InvalidMintAmount)
    } else if blacklist.flagged(ctx.to.owner) {
        Some(StablecoinError::AddressBlacklisted)
    } else {
        None
    }
}

/// Decides a mint of `amount` to `ctx.to`. The caller must hold the mint
/// authority, the amount must not be zero, and the holder of the receiving
/// account must not be blocked. The result is the request for the ledger, which
/// does the crediting.
pub fn mint_to(ctx: &MintTo, blacklist: &Blacklist, amount: u64) -> (r: Result<
    LedgerCall,
    StablecoinError,
>)
    ensures
        match mint_refusal(*ctx, *blacklist, amount) {
            Some(e) => r == Err::<LedgerCall, StablecoinError>(e),
            None => r == Ok::<LedgerCall, StablecoinError>(
                LedgerCall::MintTo {
                    mint: ctx.mint,
                    to: ctx.to.address,
                    authority: ctx.authority,
                    bump: ctx.stablecoin_config.bump,
                    amount,
                },
            ),
        },
{
    if !ctx.stablecoin_config.may_mint(&ctx.authority) {
        return Err(StablecoinError::InvalidMintAuthority);
    }
    if amount == 0 {
        return Err(StablecoinError::InvalidMintAmount);
    }
    if blacklist.is_flagged(&ctx.to.owner) {
        return Err(StablecoinError::AddressBlacklisted);
    }
    Ok(
        LedgerCall::MintTo {
            mint: ctx.mint,
            to: ctx.to.address,
            authority: ctx.authority,
            bump: ctx.stablecoin_config.bump,
            amount,
        },
    )
}

/// Decides a freeze of `ctx.token_account`. The caller must hold the freeze
/// authority. The result is the request for the ledger.
pub fn freeze_account(ctx: &FreezeAccount) -> (r: Result<LedgerCall, StablecoinError>)
    ensures
        ctx.stablecoin_config.spec_may_freeze(ctx.authority) ==> r == Ok::<
            LedgerCall,
            StablecoinError,
        >(
            LedgerCall::FreezeAccount {
                mint: ctx.mint,
                account: ctx.token_account.address,
                authority: ctx.authority,
                bump: ctx.stablecoin_config.bump,
            },
        ),
        !ctx.stablecoin_config.spec_may_freeze(ctx.authority) ==> r == Err::<
            LedgerCall,
            StablecoinError,
        >(StablecoinError::InvalidFreezeAuthority),
{
    if !ctx.stablecoin_config.may_freeze(&ctx.authority) {
        return Err(StablecoinError::InvalidFreezeAuthority);
    }
    Ok(
        LedgerCall::FreezeAccount {
            mint: ctx.mint,
            account: ctx.token_account.address,
            authority: ctx.authority,
            bump: ctx.stablecoin_config.bump,
        },
    )
}

/// Decides a thaw of `ctx.token_account`. The caller must hold the freeze
/// authority; whether the holder is blocked plays no part. The result is the
/// request for the ledger.
pub fn thaw_account(ctx: &ThawAccount) -> (r: Result<LedgerCall, StablecoinError>)
    ensures
        ctx.stablecoin_config.spec_may_freeze(ctx.authority) ==> r == Ok::<
            LedgerCall,
            StablecoinError,
        >(
            LedgerCall::ThawAccount {
                mint: ctx.mint,
                account: ctx.token_account.address,
                authority: ctx.authority,
                bump: ctx.stablecoin_config.bump,
            },
        ),
        !ctx.stablecoin_config.spec_may_freeze(ctx.authority) ==> r == Err::<
            LedgerCall,
            StablecoinError,
        >(StablecoinError::InvalidFreezeAuthority),
{
    if !ctx.stablecoin_config.may_freeze(&ctx.authority) {
        return Err(StablecoinError::InvalidFreezeAuthority);
    }
    Ok(
        LedgerCall::ThawAccount {
            mint: ctx.mint,
            account: ctx.token_account.address,
            authority: ctx.authority,
            bump: ctx.stablecoin_config.bump,
        },
    )
}

/// The compliance decision as the ledger asks for it on every transfer: succeeds when neither
/// the sending nor the receiving holder is blocked, and fails with
/// `AddressBlacklisted` otherwise.
pub fn transfer_hook(blacklist: &Blacklist, source: &TokenAccount, destination: &TokenAccount) -> (r:
    Result<(), StablecoinError>)
    ensures
        blacklist.spec_permits(seq![source.owner, destination.owner]) ==> r is Ok,
        !blacklist.spec_permits(seq![source.owner, destination.owner]) ==> r == Err::<
            (),
            StablecoinError,
        >(StablecoinError::AddressBlacklisted),
{
    let mut participants: Vec<Address> = Vec::new();
    participants.push(source.owner);
    participants.push(destination.owner);
    assert(participants@ =~= seq![source.owner, destination.owner]);
    if blacklist.permits(&participants) {
        Ok(())
    } else {
        Err(StablecoinError::AddressBlacklisted)
    }
}

} // verus!
