use vstd::prelude::*;

verus! {

/// The error taxonomy of the market core. Each variant carries a stable
/// numeric code, given by `to_code`; clients must rely on that mapping and
/// never on the declaration order.
#[derive(Clone, Copy, Debug, PartialEq, Eq, Structural)]
pub enum AmmError {
    /// The two asset mints of a market are the same identifier.
    IdenticalMinter,
    /// A holding account or the vault already exists for this market.
    AlreadyInUse,
    /// A supplied amount is zero.
    AmountZero,
    /// A checked addition overflowed.
    Overflow,
    /// A checked subtraction underflowed.
    Underflow,
    /// The asset selected for a swap is neither mint of the market.
    IncorrectSwapPk,
    /// The swap calculation produced no exchangeable amount.
    CalculatedZeroSwap,
    /// The vault record is missing or does not decode.
    InvalidVault,
}

impl AmmError {
    /// The stable numeric code of each variant.
    pub open spec fn code_spec(&self) -> u32 {
        match self {
            AmmError::IdenticalMinter => 0,
            AmmError::AlreadyInUse => 1,
            AmmError::AmountZero => 2,
            AmmError::Overflow => 3,
            AmmError::Underflow => 4,
            AmmError::IncorrectSwapPk => 5,
            AmmError::CalculatedZeroSwap => 6,
            AmmError::InvalidVault => 7,
        }
    }

    /// Stable numeric code of the error, for the custom-error surface.
    pub fn to_code(&self) -> (r: u32)
        ensures
            r == self.code_spec(),
    {
        match self {
            AmmError::IdenticalMinter => 0,
            AmmError::AlreadyInUse => 1,
            AmmError::AmountZero => 2,
            AmmError::Overflow => 3,
            AmmError::Underflow => 4,
            AmmError::IncorrectSwapPk => 5,
            AmmError::CalculatedZeroSwap => 6,
            AmmError::InvalidVault => 7,
        }
    }

    /// The human-readable description of each variant.
    pub open spec fn message_spec(&self) -> Seq<char> {
        match self {
            AmmError::IdenticalMinter => "Token X, Y has identical minter"@,
            AmmError::AlreadyInUse => "Amm cannot be initialized because it is already being used."@,
            AmmError::AmountZero => "Amount must be not zero"@,
            AmmError::Overflow => "Calculation overflowed the destination number"@,
            AmmError::Underflow => "Calculation underflow the destination number"@,
            AmmError::IncorrectSwapPk => "Incorrect public key for tokens swap"@,
            AmmError::CalculatedZeroSwap => "Calculated zero swap amount"@,
            AmmError::InvalidVault => "Invalid vault"@,
        }
    }

    /// Human-readable description of the error.
    pub fn message(&self) -> (r: String)
        ensures
            r@ == self.message_spec(),
    {
        match self {
            AmmError::IdenticalMinter => String::from_str("Token X, Y has identical minter"),
            AmmError::AlreadyInUse => String::from_str("Amm cannot be initialized because it is already being used."),
            AmmError::AmountZero => String::from_str("Amount must be not zero"),
            AmmError::Overflow => String::from_str("Calculation overflowed the destination number"),
            AmmError::Underflow => String::from_str("Calculation underflow the destination number"),
            AmmError::IncorrectSwapPk => String::from_str("Incorrect public key for tokens swap"),
            AmmError::CalculatedZeroSwap => String::from_str("Calculated zero swap amount"),
            AmmError::InvalidVault => String::from_str("Invalid vault"),
        }
    }
}

/// Everything an invocation of the processor can fail with: the market
/// taxonomy plus the account-validation failures that the host environment
/// normally surfaces itself.
#[derive(Clone, Copy, Debug, PartialEq, Eq, Structural)]
pub enum ProcessError {
    /// A failure from the market taxonomy.
    Amm(AmmError),
    /// A required authorization is not signing.
    MissingSignature,
    /// A supplied derived address does not match its recomputation, or the
    /// derivation itself found no usable address.
    InvalidSeeds,
    /// The positional account list is shorter than the operation requires.
    NotEnoughAccounts,
    /// The operation bytes do not decode to a known operation.
    InvalidInstruction,
}

} // verus!
