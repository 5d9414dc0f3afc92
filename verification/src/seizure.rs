use vstd::prelude::*;
use crate::address::Address;
use crate::config::StablecoinConfig;
use crate::error::StablecoinError;
use crate::ledger::{LedgerCall, LedgerReply, TokenAccount};

verus! {

/// What a seizure is handed: the record of the instance, the account to be
/// emptied, the signer who authorises the movement out of it, the treasury
/// that receives, and the caller, who must hold the freeze authority.
#[derive(Clone, Debug, PartialEq, Eq)]
pub struct SeizeTokens {
    pub stablecoin_config: StablecoinConfig,
    pub mint: Address,
    pub from: TokenAccount,
    pub from_authority: Address,
    pub treasury: TokenAccount,
    pub authority: Address,
}

/// How far a seizure has come.
#[derive(Clone, Copy, Debug, PartialEq, Eq, Structural)]
pub enum SeizureStage {
    /// The freeze was requested; the ledger has not answered yet.
    AwaitingFreeze,
    /// The account is frozen and the transfer was requested.
    AwaitingTransfer,
    /// The funds are in the treasury; the account is still frozen.
    Seized,
    /// The freeze was refused: nothing happened and no transfer was tried.
    Aborted,
    /// The transfer was refused after the freeze: the account stays frozen and
    /// keeps its funds until the transfer is tried again or it is thawed.
    FrozenUnseized,
}

/// A seizure under way: its stage and the amount it is to move.
#[derive(Clone, Copy, Debug, PartialEq, Eq)]
pub struct Seizure {
    pub stage: SeizureStage,
    pub amount: u64,
}

/// The refusal that `seize_tokens` gives, if any.
pub open spec fn seize_refusal(ctx: SeizeTokens, amount: u64) -> Option<StablecoinError> {
    if amount == 0 {
        Some(StablecoinError::InvalidFreezeAmount)
    } else if !ctx.stablecoin_config.spec_may_freeze(ctx.authority) {
        Some(StablecoinError::InvalidFreezeAuthority)
    } else {
        None
    }
}

/// The request that freezes the account under seizure, signed in the name of
/// the token instance.
pub open spec fn freeze_request(ctx: SeizeTokens) -> LedgerCall {
    LedgerCall::FreezeAccount {
        mint: ctx.mint,
        account: ctx.from.address,
        authority: ctx.authority,
        bump: ctx.stablecoin_config.bump,
    }
}

/// The request that moves the seized amount to the treasury. It is signed by
/// the holder's side, not by the freeze authority.
pub open spec fn transfer_request(ctx: SeizeTokens, amount: u64) -> LedgerCall {
    LedgerCall::Transfer {
        from: ctx.from.address,
        to: ctx.treasury.address,
        authority: ctx.from_authority,
        amount,
    }
}

/// The ledger's accounts as this seizure sees them after the ledger's answer.
pub open spec fn accounts_after(ctx: SeizeTokens, seizure: Seizure, reply: LedgerReply)
    -> SeizeTokens {
    match seizure.stage {
        SeizureStage::AwaitingFreeze => SeizeTokens {
            from: ctx.from.spec_after_freeze(reply),
            ..ctx
        },
        SeizureStage::AwaitingTransfer => SeizeTokens {
            from: ctx.from.spec_after_debit(seizure.amount, reply),
            treasury: ctx.treasury.spec_after_credit(seizure.amount, reply),
            ..ctx
        },
        _ => ctx,
    }
}

/// The stage that follows the ledger's answer.
pub open spec fn stage_after(stage: SeizureStage, reply: LedgerReply) -> SeizureStage {
    match (stage, reply) {
        (SeizureStage::AwaitingFreeze, LedgerReply::Accepted) => SeizureStage::AwaitingTransfer,
        (SeizureStage::AwaitingFreeze, LedgerReply::Refused) => SeizureStage::Aborted,
        (SeizureStage::AwaitingTransfer, LedgerReply::Accepted) => SeizureStage::Seized,
        (SeizureStage::AwaitingTransfer, LedgerReply::Refused) => SeizureStage::FrozenUnseized,
        (s, _) => s,
    }
}

/// The request that is due after the ledger's answer, if any: the transfer,
/// once the freeze is in place, and nothing else.
pub open spec fn request_after(ctx: SeizeTokens, seizure: Seizure, reply: LedgerReply) -> Option<
    LedgerCall,
> {
    if seizure.stage == SeizureStage::AwaitingFreeze && reply == LedgerReply::Accepted {
        Some(transfer_request(ctx, seizure.amount))
    } else {
        None
    }
}

/// The accounts can show the transfer of `amount`: the source holds it and the
/// treasury has room for it. The ledger accepts no transfer of which this fails.
pub open spec fn transfer_fits(ctx: SeizeTokens, amount: u64) -> bool {
    amount <= ctx.from.amount && ctx.treasury.amount + amount <= u64::MAX
}

/// Opens a seizure of `amount` from `ctx.from`. The amount must not be zero and
/// the caller must hold the freeze authority. Nothing is changed yet: the
/// result is the seizure, awaiting the freeze, and the freeze request for the
/// ledger. Whether the balance suffices is the ledger's to say.
pub fn seize_tokens(ctx: &SeizeTokens, amount: u64) -> (r: Result<
    (Seizure, LedgerCall),
    StablecoinError,
>)
    ensures
        match seize_refusal(*ctx, amount) {
            Some(e) => r == Err::<(Seizure, LedgerCall), StablecoinError>(e),
            None => r == Ok::<(Seizure, LedgerCall), StablecoinError>(
                (Seizure { stage: SeizureStage::AwaitingFreeze, amount }, freeze_request(*ctx)),
            ),
        },
{
    if amount == 0 {
        return Err(StablecoinError::InvalidFreezeAmount);
    }
    if !ctx.stablecoin_config.may_freeze(&ctx.authority) {
        return Err(StablecoinError::InvalidFreezeAuthority);
    }
    let call = LedgerCall::FreezeAccount {
        mint: ctx.mint,
        account: ctx.from.address,
        authority: ctx.authority,
        bump: ctx.stablecoin_config.bump,
    };
    Ok((Seizure { stage: SeizureStage::AwaitingFreeze, amount }, call))
}

/// What `seize_retry` answers: a seizure left frozen and unseized goes back to
/// awaiting the transfer, with the transfer request for the same amount; any
/// other seizure gives nothing.
pub open spec fn retry_of(ctx: SeizeTokens, seizure: Seizure) -> Option<(Seizure, LedgerCall)> {
    if seizure.stage == SeizureStage::FrozenUnseized {
        Some(
            (
                Seizure { stage: SeizureStage::AwaitingTransfer, amount: seizure.amount },
                transfer_request(ctx, seizure.amount),
            ),
        )
    } else {
        None
    }
}

/// Tries the transfer of a seizure again after the ledger refused it. The
/// source is already frozen, so only the transfer is asked for. Nothing is
/// changed until the ledger answers.
pub fn seize_retry(ctx: &SeizeTokens, seizure: Seizure) -> (r: Option<(Seizure, LedgerCall)>)
    ensures
        r == retry_of(*ctx, seizure),
{
    match seizure.stage {
        SeizureStage::FrozenUnseized => {
            let call = LedgerCall::Transfer {
                from: ctx.from.address,
                to: ctx.treasury.address,
                authority: ctx.from_authority,
                amount: seizure.amount,
            };
            Some((Seizure { stage: SeizureStage::AwaitingTransfer, amount: seizure.amount }, call))
        },
        _ => None,
    }
}

/// Takes the ledger's answer to the request that the seizure last gave out,
/// brings the accounts up to date and says what comes next.
///
/// An accepted freeze leaves the source frozen and asks for the transfer; a
/// refused freeze ends the seizure with nothing changed. An accepted transfer
/// moves the amount from the source to the treasury; a refused transfer moves
/// nothing, and the source stays frozen. A seizure that has ended stays as it
/// is. Nothing is ever undone.
pub fn seize_advance(ctx: &mut SeizeTokens, seizure: Seizure, reply: LedgerReply) -> (r: (
    Seizure,
    Option<LedgerCall>,
))
    requires
        seizure.stage == SeizureStage::AwaitingTransfer && reply == LedgerReply::Accepted
            ==> transfer_fits(*old(ctx), seizure.amount),
    ensures
        *final(ctx) == accounts_after(*old(ctx), seizure, reply),
        r.0 == (Seizure { stage: stage_after(seizure.stage, reply), amount: seizure.amount }),
        r.1 == request_after(*old(ctx), seizure, reply),
{
    match seizure.stage {
        SeizureStage::AwaitingFreeze => {
            ctx.from.record_freeze(reply);
            match reply {
                LedgerReply::Accepted => {
                    let call = LedgerCall::Transfer {
                        from: ctx.from.address,
                        to: ctx.treasury.address,
                        authority: ctx.from_authority,
                        amount: seizure.amount,
                    };
                    (Seizure { stage: SeizureStage::AwaitingTransfer, amount: seizure.amount }, Some(call))
                },
                LedgerReply::Refused => (
                    Seizure { stage: SeizureStage::Aborted, amount: seizure.amount },
                    None,
                ),
            }
        },
        SeizureStage::AwaitingTransfer => {
            ctx.from.record_debit(seizure.amount, reply);
            ctx.treasury.record_credit(seizure.amount, reply);
            match reply {
                LedgerReply::Accepted => (
                    Seizure { stage: SeizureStage::Seized, amount: seizure.amount },
                    None,
                ),
                LedgerReply::Refused => (
                    Seizure { stage: SeizureStage::FrozenUnseized, amount: seizure.amount },
                    None,
                ),
            }
        },
        _ => (seizure, None),
    }
}

} // verus!
