use vstd::prelude::*;
use anchor_lang::prelude::{Clock, ProgramError, SolanaSysvar};

verus! {

/// The error type of the host program runtime, `ProgramError` of
/// `solana_program` as `anchor_lang` hands it on. The library carries such a
/// value from the host to the caller and never looks inside.
#[verifier::external_type_specification]
#[verifier::external_body]
pub struct ExProgramError(anchor_lang::prelude::ProgramError);

/// Reads the host's clock through `Clock::get` and hands back the field
/// `unix_timestamp` of what it returns, or the host's error where the host
/// offers no clock. Nothing is claimed of the time that comes back: it is
/// whatever the host says at that moment.
#[verifier::external_body]
pub(crate) fn unix_timestamp() -> (r: Result<i64, ProgramError>) {
    Clock::get().map(|clock| clock.unix_timestamp)
}

} // verus!
