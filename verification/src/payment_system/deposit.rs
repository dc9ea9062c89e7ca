//! A deposit of funds into a client's account.
use crate::payment_system::types::Amount;
use crate::payment_system::types::ClientId;
use crate::payment_system::types::TransactionId;
use vstd::prelude::*;

verus! {

/// A deposit: which client, under which transaction id, and how much.
pub struct Deposit {
    client_id: ClientId,
    transaction_id: TransactionId,
    amount: Amount,
}

} // verus!
