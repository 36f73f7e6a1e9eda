use vstd::prelude::*;

verus! {

/// The errors that the marketplace itself raises.
#[derive(Clone, Copy, Debug, PartialEq, Eq, Structural)]
pub enum ErrorCode {
    InvalidName,
    InvalidFee,
    AmountTooMuch,
    AlreadySold,
    OfferNotAccepted,
}

/// Program error numbers start here; lower numbers belong to the framework.
pub const ERROR_CODE_OFFSET: u32 = 6000;

impl ErrorCode {
    /// The position of the variant in the declaration.
    pub open spec fn index(self) -> u32 {
        match self {
            ErrorCode::InvalidName => 0,
            ErrorCode::InvalidFee => 1,
            ErrorCode::AmountTooMuch => 2,
            ErrorCode::AlreadySold => 3,
            ErrorCode::OfferNotAccepted => 4,
        }
    }

    /// The error number reported to clients: the offset plus the position.
    pub fn code(&self) -> (n: u32)
        ensures
            n == ERROR_CODE_OFFSET + self.index(),
    {
        match self {
            ErrorCode::InvalidName => 6000,
            ErrorCode::InvalidFee => 6001,
            ErrorCode::AmountTooMuch => 6002,
            ErrorCode::AlreadySold => 6003,
            ErrorCode::OfferNotAccepted => 6004,
        }
    }

    /// The variant's name.
    pub fn name(&self) -> (s: String)
        ensures
            s@ == match self {
                ErrorCode::InvalidName => "InvalidName"@,
                ErrorCode::InvalidFee => "InvalidFee"@,
                ErrorCode::AmountTooMuch => "AmountTooMuch"@,
                ErrorCode::AlreadySold => "AlreadySold"@,
                ErrorCode::OfferNotAccepted => "OfferNotAccepted"@,
            },
    {
        match self {
            ErrorCode::InvalidName => String::from_str("InvalidName"),
            ErrorCode::InvalidFee => String::from_str("InvalidFee"),
            ErrorCode::AmountTooMuch => String::from_str("AmountTooMuch"),
            ErrorCode::AlreadySold => String::from_str("AlreadySold"),
            ErrorCode::OfferNotAccepted => String::from_str("OfferNotAccepted"),
        }
    }

    /// The message shown to clients.
    pub fn msg(&self) -> (s: String)
        ensures
            s@ == match self {
                ErrorCode::InvalidName => "Name it too long"@,
                ErrorCode::InvalidFee => "Fees is too much"@,
                ErrorCode::AmountTooMuch => "Amount is greter then treasury fund"@,
                ErrorCode::AlreadySold => "Nft already solded"@,
                ErrorCode::OfferNotAccepted => "Offer not accepted"@,
            },
    {
        match self {
            ErrorCode::InvalidName => String::from_str("Name it too long"),
            ErrorCode::InvalidFee => String::from_str("Fees is too much"),
            ErrorCode::AmountTooMuch => String::from_str("Amount is greter then treasury fund"),
            ErrorCode::AlreadySold => String::from_str("Nft already solded"),
            ErrorCode::OfferNotAccepted => String::from_str("Offer not accepted"),
        }
    }
}

/// Why an instruction was refused: one of the program's own errors, or an
/// account that does not meet a constraint declared on the instruction.
#[derive(Clone, Copy, Debug, PartialEq, Eq, Structural)]
pub enum Error {
    Program(ErrorCode),
    /// A stored address does not match the account passed for it (2001).
    ConstraintHasOne,
    /// An account is not the address derived from its seeds (2006).
    ConstraintSeeds,
    /// An account would be closed into itself (2011).
    ConstraintClose,
    /// An account is not the fixed address required for it (2012).
    ConstraintAddress,
    /// A token account holds another mint than required (2014).
    ConstraintTokenMint,
    /// A token account belongs to another owner than required (2015).
    ConstraintTokenOwner,
    /// A mint's authority is not the required account (2016).
    ConstraintMintMintAuthority,
    /// A mint has other decimals than required (2018).
    ConstraintMintDecimals,
    /// An associated token account is kept by another token program (2023).
    ConstraintAssociatedTokenTokenProgram,
    /// A token account is not the associated token account required (3014).
    AccountNotAssociatedTokenAccount,
}

impl Error {
    /// The error number reported to clients.
    pub open spec fn number(self) -> u32 {
        match self {
            Error::Program(e) => (ERROR_CODE_OFFSET + e.index()) as u32,
            Error::ConstraintHasOne => 2001,
            Error::ConstraintSeeds => 2006,
            Error::ConstraintClose => 2011,
            Error::ConstraintAddress => 2012,
            Error::ConstraintTokenMint => 2014,
            Error::ConstraintTokenOwner => 2015,
            Error::ConstraintMintMintAuthority => 2016,
            Error::ConstraintMintDecimals => 2018,
            Error::ConstraintAssociatedTokenTokenProgram => 2023,
            Error::AccountNotAssociatedTokenAccount => 3014,
        }
    }

    /// The error number reported to clients.
    pub fn code(&self) -> (n: u32)
        ensures
            n == self.number(),
    {
        match self {
            Error::Program(e) => e.code(),
            Error::ConstraintHasOne => 2001,
            Error::ConstraintSeeds => 2006,
            Error::ConstraintClose => 2011,
            Error::ConstraintAddress => 2012,
            Error::ConstraintTokenMint => 2014,
            Error::ConstraintTokenOwner => 2015,
            Error::ConstraintMintMintAuthority => 2016,
            Error::ConstraintMintDecimals => 2018,
            Error::ConstraintAssociatedTokenTokenProgram => 2023,
            Error::AccountNotAssociatedTokenAccount => 3014,
        }
    }
}

} // verus!
