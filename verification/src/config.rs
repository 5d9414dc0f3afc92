use vstd::prelude::*;
use crate::address::Address;
use crate::error::StablecoinError;

verus! {

/// Longest name a token may carry, in characters.
pub const MAX_NAME_LEN: usize = 32;

/// Longest symbol a token may carry, in characters.
pub const MAX_SYMBOL_LEN: usize = 16;

/// Longest metadata address a token may carry, in characters.
pub const MAX_URI_LEN: usize = 256;

/// The record of one token instance: its display data and the two identities
/// that hold power over it. The mint authority and the freeze authority are
/// separate fields; each is rotated only by its own current holder.
#[derive(Clone, Debug, PartialEq, Eq)]
pub struct StablecoinConfig {
    pub name: String,
    pub symbol: String,
    pub uri: String,
    pub decimals: u8,
    pub mint_authority: Address,
    pub freeze_authority: Address,
    pub bump: u8,
}

impl StablecoinConfig {
    /// The display data are within their bounds.
    pub open spec fn wf(&self) -> bool {
        &&& self.name@.len() <= MAX_NAME_LEN
        &&& self.symbol@.len() <= MAX_SYMBOL_LEN
        &&& self.uri@.len() <= MAX_URI_LEN
    }

    /// `who` is the current mint authority.
    pub open spec fn spec_may_mint(&self, who: Address) -> bool {
        who@ == self.mint_authority@
    }

    /// `who` is the current freeze authority.
    pub open spec fn spec_may_freeze(&self, who: Address) -> bool {
        who@ == self.freeze_authority@
    }

    /// This record with the mint authority handed to `new_authority`.
    pub open spec fn with_minter(self, new_authority: Address) -> StablecoinConfig {
        StablecoinConfig { mint_authority: new_authority, ..self }
    }

    /// This record with the freeze authority handed to `new_authority`.
    pub open spec fn with_freezer(self, new_authority: Address) -> StablecoinConfig {
        StablecoinConfig { freeze_authority: new_authority, ..self }
    }

    /// The tag that opens the seeds of every token instance: the ten letters
    /// of "stablecoin".
    pub open spec fn instance_tag() -> Seq<u8> {
        seq![115u8, 116u8, 97u8, 98u8, 108u8, 101u8, 99u8, 111u8, 105u8, 110u8]
    }

    /// The seeds under which the instance of `mint` signs its requests to the
    /// ledger: the tag, the mint, and the salt of this record.
    pub fn signer_seeds(&self, mint: &Address) -> (seeds: Vec<Vec<u8>>)
        ensures
            seeds@.len() == 3,
            seeds@[0]@ == Self::instance_tag(),
            seeds@[1]@ == mint@,
            seeds@[2]@ == seq![self.bump],
    {
        let tag: Vec<u8> = vec![115u8, 116u8, 97u8, 98u8, 108u8, 101u8, 99u8, 111u8, 105u8, 110u8];
        let salt: Vec<u8> = vec![self.bump];
        let mut seeds: Vec<Vec<u8>> = Vec::new();
        seeds.push(tag);
        seeds.push(mint.to_vec());
        seeds.push(salt);
        seeds
    }

    /// Capability check: does `who` hold the mint authority right now?
    pub fn may_mint(&self, who: &Address) -> (r: bool)
        ensures
            r == self.spec_may_mint(*who),
    {
        *who == self.mint_authority
    }

    /// Capability check: does `who` hold the freeze authority right now?
    pub fn may_freeze(&self, who: &Address) -> (r: bool)
        ensures
            r == self.spec_may_freeze(*who),
    {
        *who == self.freeze_authority
    }
}

/// What `initialize` is handed: the storage slot of the instance, empty until
/// the instance exists, the caller, and the salt its record is stored under.
#[derive(Clone, Debug, PartialEq, Eq)]
pub struct Initialize {
    pub stablecoin_config: Option<StablecoinConfig>,
    pub authority: Address,
    pub bump: u8,
}

/// What an authority rotation is handed: the record and the caller.
#[derive(Clone, Debug, PartialEq, Eq)]
pub struct UpdateAuthority {
    pub stablecoin_config: StablecoinConfig,
    pub authority: Address,
}

/// The refusal that `initialize` gives, if any. An occupied slot is refused
/// before the lengths are looked at; the lengths are tried name first.
pub open spec fn initialize_refusal(
    ctx: Initialize,
    name: Seq<char>,
    symbol: Seq<char>,
    uri: Seq<char>,
) -> Option<StablecoinError> {
    if ctx.stablecoin_config is Some {
        Some(StablecoinError::AlreadyInitialized)
    } else if name.len() > MAX_NAME_LEN {
        Some(StablecoinError::NameTooLong)
    } else if symbol.len() > MAX_SYMBOL_LEN {
        Some(StablecoinError::SymbolTooLong)
    } else if uri.len() > MAX_URI_LEN {
        Some(StablecoinError::UriTooLong)
    } else {
        None
    }
}

/// The context after a first, accepted `initialize`: the slot holds the new
/// record, in which the caller is both authorities.
pub open spec fn initialized(
    ctx: Initialize,
    name: String,
    symbol: String,
    uri: String,
    decimals: u8,
) -> Initialize {
    Initialize {
        stablecoin_config: Some(
            StablecoinConfig {
                name,
                symbol,
                uri,
                decimals,
                mint_authority: ctx.authority,
                freeze_authority: ctx.authority,
                bump: ctx.bump,
            },
        ),
        ..ctx
    }
}

/// Creates the record of a token instance. The caller becomes both the mint
/// authority and the freeze authority. A slot that already holds a record is
/// never written again.
pub fn initialize(
    ctx: &mut Initialize,
    name: String,
    symbol: String,
    uri: String,
    decimals: u8,
) -> (r: Result<(), StablecoinError>)
    ensures
        match initialize_refusal(*old(ctx), name@, symbol@, uri@) {
            Some(e) => r == Err::<(), StablecoinError>(e) && *final(ctx) == *old(ctx),
            None => r is Ok && *final(ctx) == initialized(*old(ctx), name, symbol, uri, decimals),
        },
        r is Ok ==> final(ctx).stablecoin_config->0.wf(),
{
    if ctx.stablecoin_config.is_some() {
        return Err(StablecoinError::AlreadyInitialized);
    }
    if name.as_str().unicode_len() > MAX_NAME_LEN {
        return Err(StablecoinError::NameTooLong);
    }
    if symbol.as_str().unicode_len() > MAX_SYMBOL_LEN {
        return Err(StablecoinError::SymbolTooLong);
    }
    if uri.as_str().unicode_len() > MAX_URI_LEN {
        return Err(StablecoinError::UriTooLong);
    }
    ctx.stablecoin_config = Some(
        StablecoinConfig {
            name,
            symbol,
            uri,
            decimals,
            mint_authority: ctx.authority,
            freeze_authority: ctx.authority,
            bump: ctx.bump,
        },
    );
    Ok(())
}

/// Hands the mint authority to `new_mint_authority`. Only the current mint
/// authority may do so; anyone else is refused and the record stays as it was.
pub fn update_minter(ctx: &mut UpdateAuthority, new_mint_authority: Address) -> (r: Result<
    (),
    StablecoinError,
>)
    ensures
        old(ctx).stablecoin_config.spec_may_mint(old(ctx).authority) ==> r is Ok && *final(ctx)
            == (UpdateAuthority {
            stablecoin_config: old(ctx).stablecoin_config.with_minter(new_mint_authority),
            authority: old(ctx).authority,
        }),
        !old(ctx).stablecoin_config.spec_may_mint(old(ctx).authority) ==> r == Err::<
            (),
            StablecoinError,
        >(StablecoinError::UnauthorizedAccess) && *final(ctx) == *old(ctx),
{
    if !ctx.stablecoin_config.may_mint(&ctx.authority) {
        return Err(StablecoinError::UnauthorizedAccess);
    }
    ctx.stablecoin_config.mint_authority = new_mint_authority;
    Ok(())
}

/// Hands the freeze authority to `new_freeze_authority`. Only the current
/// freeze authority may do so; anyone else is refused and the record stays as
/// it was.
pub fn update_freezer(ctx: &mut UpdateAuthority, new_freeze_authority: Address) -> (r: Result<
    (),
    StablecoinError,
>)
    ensures
        old(ctx).stablecoin_config.spec_may_freeze(old(ctx).authority) ==> r is Ok && *final(ctx)
            == (UpdateAuthority {
            stablecoin_config: old(ctx).stablecoin_config.with_freezer(new_freeze_authority),
            authority: old(ctx).authority,
        }),
        !old(ctx).stablecoin_config.spec_may_freeze(old(ctx).authority) ==> r == Err::<
            (),
            StablecoinError,
        >(StablecoinError::UnauthorizedAccess) && *final(ctx) == *old(ctx),
{
    if !ctx.stablecoin_config.may_freeze(&ctx.authority) {
        return Err(StablecoinError::UnauthorizedAccess);
    }
    ctx.stablecoin_config.freeze_authority = new_freeze_authority;
    Ok(())
}

} // verus!
