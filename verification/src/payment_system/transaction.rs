//! Transactions as they arrive, and as they are recorded once applied.
use crate::payment_system::types::Amount;
use crate::payment_system::types::ClientId;
use crate::payment_system::types::TransactionId;
use vstd::prelude::*;

verus! {

/// The kind of a transaction. A recorded transaction's kind also tells where it
/// stands in the dispute lifecycle: a deposit may be disputed, a dispute is
/// resolved or charged back, and a resolved deposit may be disputed again.
#[derive(Clone, Copy, Debug, PartialEq, Eq, Structural)]
pub enum TransactionType {
    Deposit,
    Withdrawal,
    Dispute,
    Resolve,
    Chargeback,
}

/// A transaction of a client. Deposits and withdrawals carry an amount;
/// disputes, resolves and chargebacks name, by `id`, the deposit they are about.
#[derive(Clone, Copy, Debug)]
pub struct Transaction {
    pub id: TransactionId,
    pub transaction_type: TransactionType,
    pub client_id: ClientId,
    pub amount: Option<Amount>,
}

impl Transaction {
    /// A transaction with the given fields.
    pub fn new(
        id: TransactionId,
        transaction_type: TransactionType,
        client_id: ClientId,
        amount: Option<Amount>,
    ) -> (r: Transaction)
        ensures
            r == (Transaction { id, transaction_type, client_id, amount }),
    {
        Transaction { id, transaction_type, client_id, amount }
    }

    pub fn id(&self) -> (r: &TransactionId)
        ensures
            *r == self.id,
    {
        &self.id
    }

    pub fn transaction_type(&self) -> (r: &TransactionType)
        ensures
            *r == self.transaction_type,
    {
        &self.transaction_type
    }

    pub fn transaction_type_mut(&mut self) -> (r: &mut TransactionType)
        ensures
            *r == old(self).transaction_type,
            *final(self) == (Transaction { transaction_type: *final(r), ..*old(self) }),
    {
        &mut self.transaction_type
    }

    pub fn client_id(&self) -> (r: &ClientId)
        ensures
            *r == self.client_id,
    {
        &self.client_id
    }

    pub fn amount(&self) -> (r: Option<&Amount>)
        ensures
            r is Some <==> self.amount is Some,
            r matches Some(a) ==> self.amount == Some(*a),
    {
        self.amount.as_ref()
    }

    pub fn amount_mut(&mut self) -> (r: &mut Option<Amount>)
        ensures
            *r == old(self).amount,
            *final(self) == (Transaction { amount: *final(r), ..*old(self) }),
    {
        &mut self.amount
    }
}

} // verus!
