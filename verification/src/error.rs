//! The reasons for which a tip is refused.

use vstd::prelude::*;

verus! {

/// Why the library refused a tip.
#[derive(Clone, Copy, Debug, PartialEq, Eq, Structural)]
pub enum TipError {
    /// The tip is zero, or nothing of it would reach the creator.
    InvalidAmount,
    /// The fee cannot be computed within 64 bits.
    MathOverflow,
    /// The treasury account handed in is not the platform's.
    InvalidPlatformWallet,
    /// The memo is longer than `MAX_MEMO_LEN` bytes.
    MemoTooLong,
}

impl TipError {
    /// The identifier under which the error goes over the wire.
    pub open spec fn name_of(self) -> Seq<char> {
        match self {
            TipError::InvalidAmount => "InvalidAmount"@,
            TipError::MathOverflow => "MathOverflow"@,
            TipError::InvalidPlatformWallet => "InvalidPlatformWallet"@,
            TipError::MemoTooLong => "MemoTooLong"@,
        }
    }

    /// What the error tells a reader.
    pub open spec fn message_of(self) -> Seq<char> {
        match self {
            TipError::InvalidAmount => "Tip amount must be greater than 0"@,
            TipError::MathOverflow => "Math operation overflow"@,
            TipError::InvalidPlatformWallet => "Invalid platform wallet"@,
            TipError::MemoTooLong => "Memo is too long (max 200 characters)"@,
        }
    }

    /// The identifier under which the error goes over the wire. It does not
    /// change between versions.
    pub fn name(&self) -> (r: &'static str)
        ensures
            r@ == self.name_of(),
    {
        match self {
            TipError::InvalidAmount => "InvalidAmount",
            TipError::MathOverflow => "MathOverflow",
            TipError::InvalidPlatformWallet => "InvalidPlatformWallet",
            TipError::MemoTooLong => "MemoTooLong",
        }
    }

    /// What the error tells a reader.
    pub fn message(&self) -> (r: &'static str)
        ensures
            r@ == self.message_of(),
    {
        match self {
            TipError::InvalidAmount => "Tip amount must be greater than 0",
            TipError::MathOverflow => "Math operation overflow",
            TipError::InvalidPlatformWallet => "Invalid platform wallet",
            TipError::MemoTooLong => "Memo is too long (max 200 characters)",
        }
    }
}

/// Why a call failed: the library refused the tip, or the host's transfer
/// primitive failed with an error of its own, which is handed on as it came.
#[derive(Debug, PartialEq, Eq)]
pub enum Failure<E> {
    /// The library refused the tip before anything moved.
    Rejected(TipError),
    /// A transfer leg failed; the host undoes the whole call.
    Transfer(E),
}

} // verus!
