use vstd::prelude::*;

verus! {

/// Typed error codes for the ledger's operations.
///
/// Every mutating operation fails fast on the first violated
/// precondition and performs no partial mutation; the error says which
/// precondition was violated.
#[derive(Debug, Copy, Clone, Eq, PartialEq, Structural)]
pub enum Error {
    /// The acting party of an approval, mint, or burn is the zero address.
    InvalidApprover,
    /// The receiver of a transfer or mint is the zero address.
    InvalidReceiver,
    /// The balance source of a transfer or burn is the zero address.
    InvalidSender,
    /// The spender or operator being granted rights, or the party
    /// spending an allowance, is the zero address.
    InvalidSpender,
    /// The balance source holds less than the requested amount.
    InsufficientBalance,
    /// The spender's allowance is less than the requested amount.
    InsufficientAllowance,
    /// An addition or subtraction would overflow or underflow the
    /// 256-bit amount type.
    ArithmeticOverflow,
}

} // verus!
