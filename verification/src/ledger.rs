use std::collections::HashMap;

use vstd::prelude::*;

use crate::errors::MarketplaceError;

verus! {

/// What one payment-token transfer does to the ledger: the pair of the
/// balances after the call and its result.
///
/// The transfer fails, leaving every balance as it was, when either account
/// is missing, when the paying account holds less than `amount`, or when the
/// receiving balance would leave the 64-bit range. A transfer from an account
/// to itself only checks the balance and moves nothing.
pub open spec fn transfer_outcome(
    balances: Map<u64, u64>,
    from: u64,
    to: u64,
    amount: int,
) -> (Map<u64, u64>, Result<(), MarketplaceError>) {
    if !balances.contains_key(from) {
        (balances, Err(MarketplaceError::MissingTokenAccount))
    } else if !balances.contains_key(to) {
        (balances, Err(MarketplaceError::MissingTokenAccount))
    } else if balances[from] < amount {
        (balances, Err(MarketplaceError::InsufficientFunds))
    } else if from == to {
        (balances, Ok(()))
    } else if balances[to] + amount > u64::MAX {
        (balances, Err(MarketplaceError::ArithmeticOverflow))
    } else {
        (
            balances.insert(from, (balances[from] - amount) as u64).insert(
                to,
                (balances[to] + amount) as u64,
            ),
            Ok(()),
        )
    }
}

/// Moves `amount` payment-token units from `from` to `to`, exactly as
/// [`transfer_outcome`] says; on failure the balances are untouched.
pub(crate) fn transfer(balances: &mut HashMap<u64, u64>, from: u64, to: u64, amount: u64) -> (r:
    Result<(), MarketplaceError>)
    ensures
        final(balances)@ == transfer_outcome(old(balances)@, from, to, amount as int).0,
        r == transfer_outcome(old(balances)@, from, to, amount as int).1,
{
    let from_balance: u64 = match balances.get(&from) {
        Some(b) => *b,
        None => {
            return Err(MarketplaceError::MissingTokenAccount);
        },
    };
    let to_balance: u64 = match balances.get(&to) {
        Some(b) => *b,
        None => {
            return Err(MarketplaceError::MissingTokenAccount);
        },
    };
    if from_balance < amount {
        return Err(MarketplaceError::InsufficientFunds);
    }
    if from == to {
        return Ok(());
    }
    if to_balance > u64::MAX - amount {
        return Err(MarketplaceError::ArithmeticOverflow);
    }
    balances.insert(from, from_balance - amount);
    balances.insert(to, to_balance + amount);
    Ok(())
}

} // verus!
