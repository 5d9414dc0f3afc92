use vstd::prelude::*;
use anchor_lang::prelude::ProgramError;

verus! {

/// Why an operation was refused. Every refusal is final for that call: nothing
/// is retried, and the state the call was given is left as it was.
#[derive(Clone, Copy, Debug, PartialEq, Eq, Structural)]
pub enum StablecoinError {
    UnauthorizedAccess,
    InvalidMintAuthority,
    InvalidFreezeAuthority,
    InvalidTokenAccount,
    AddressBlacklisted,
    InvalidMintAmount,
    InvalidFreezeAmount,
    AlreadyInitialized,
    NotInitialized,
    NameTooLong,
    SymbolTooLong,
    UriTooLong,
    TransferHookError,
}

/// Why an operation that has to ask the host did not go through: the library
/// refused it, or the host failed and its error is handed on as it came.
#[derive(Debug, PartialEq, Eq)]
pub enum OperationError {
    Refused(StablecoinError),
    Host(ProgramError),
}

impl StablecoinError {
    /// The text shown to a caller for each kind of refusal.
    pub open spec fn spec_message(self) -> Seq<char> {
        match self {
            StablecoinError::UnauthorizedAccess => "Unauthorized access"@,
            StablecoinError::InvalidMintAuthority => "Invalid Mint Authority"@,
            StablecoinError::InvalidFreezeAuthority => "Invalid Freeze Authority"@,
            StablecoinError::InvalidTokenAccount => "Invalid Token Account"@,
            StablecoinError::AddressBlacklisted => "Address is blacklisted"@,
            StablecoinError::InvalidMintAmount => "Invalid mint amount"@,
            StablecoinError::InvalidFreezeAmount => "Invalid freeze amount"@,
            StablecoinError::AlreadyInitialized => "Already initialized"@,
            StablecoinError::NotInitialized => "Not initialized"@,
            StablecoinError::NameTooLong => "Name too long"@,
            StablecoinError::SymbolTooLong => "Symbol too long"@,
            StablecoinError::UriTooLong => "URI too long"@,
            StablecoinError::TransferHookError => "Transfer hook error"@,
        }
    }

    /// The text shown to a caller for this refusal.
    pub fn message(&self) -> (text: &'static str)
        ensures
            text@ == self.spec_message(),
    {
        match self {
            StablecoinError::UnauthorizedAccess => "Unauthorized access",
            StablecoinError::InvalidMintAuthority => "Invalid Mint Authority",
            StablecoinError::InvalidFreezeAuthority => "Invalid Freeze Authority",
            StablecoinError::InvalidTokenAccount => "Invalid Token Account",
            StablecoinError::AddressBlacklisted => "Address is blacklisted",
            StablecoinError::InvalidMintAmount => "Invalid mint amount",
            StablecoinError::InvalidFreezeAmount => "Invalid freeze amount",
            StablecoinError::AlreadyInitialized => "Already initialized",
            StablecoinError::NotInitialized => "Not initialized",
            StablecoinError::NameTooLong => "Name too long",
            StablecoinError::SymbolTooLong => "Symbol too long",
            StablecoinError::UriTooLong => "URI too long",
            StablecoinError::TransferHookError => "Transfer hook error",
        }
    }
}

} // verus!
