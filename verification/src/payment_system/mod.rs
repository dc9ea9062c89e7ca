//! The payment system engine: applies each transaction to its client's account
//! and keeps the account and transaction databases.
pub mod account;
pub mod balances;
pub mod database;
pub mod deposit;
pub mod format;
pub mod laws;
pub mod sums;
pub mod transaction;
pub mod types;

use crate::payment_system::account::Account;
use crate::payment_system::account::account_text;
use crate::payment_system::account::Accounts;
use crate::payment_system::account::ACCOUNT_HEADERS;
use crate::payment_system::balances::balance_inv;
use crate::payment_system::balances::held_inv;
use crate::payment_system::balances::law_held_funds_are_open_disputes;
use crate::payment_system::balances::law_total_funds_are_recorded_balance;
use crate::payment_system::balances::lemma_run_exact_held;
use crate::payment_system::balances::lemma_step_fits_exact;
use crate::payment_system::balances::run_exact;
use crate::payment_system::balances::run_fits;
use crate::payment_system::database::Database;
use crate::payment_system::transaction::Transaction;
use crate::payment_system::transaction::TransactionType;
use crate::payment_system::types::amount_add;
use crate::payment_system::types::amount_sub;
use crate::payment_system::types::difference_fits;
use crate::payment_system::types::exact_add;
use crate::payment_system::types::exact_sub;
use crate::payment_system::types::sum_fits;
use crate::payment_system::types::Amount;
use crate::payment_system::types::ClientId;
use crate::payment_system::types::TransactionId;
use std::collections::BTreeMap;
use vstd::prelude::*;
use vstd::std_specs::cmp::OrdSpec;
use vstd::std_specs::iter::IteratorSpec;

verus! {

/// The transaction database: each applied transaction, by transaction id, in
/// its latest lifecycle state.
pub type Transactions = BTreeMap<TransactionId, Transaction>;

/// The transaction pointed to, copied out.
pub open spec fn copied(t: Option<&Transaction>) -> Option<Transaction> {
    match t {
        Some(x) => Some(*x),
        None => None,
    }
}

/// Whether `tx` may be applied, given the recorded transaction with its id.
/// A deposit or withdrawal needs a fresh id and an amount; a dispute, resolve
/// or chargeback needs a recorded transaction of the same client with an amount.
pub open spec fn is_valid_spec(tx: Transaction, existing: Option<Transaction>) -> bool {
    match tx.transaction_type {
        TransactionType::Deposit | TransactionType::Withdrawal => existing is None
            && tx.amount is Some,
        _ => existing matches Some(e) && e.client_id == tx.client_id && e.amount is Some,
    }
}

/// The account after depositing `amount`; `None` where the sum overflows.
pub open spec fn deposit_spec(account: Account, amount: Amount) -> Option<Account> {
    match amount_add(account.available, amount) {
        Some(v) => Some(Account { available: v, ..account }),
        None => None,
    }
}

/// The account after withdrawing `amount`; `None` where the available funds
/// would go below zero or the difference overflows.
pub open spec fn withdraw_spec(account: Account, amount: Amount) -> Option<Account> {
    match amount_sub(account.available, amount) {
        Some(v) => if v@ < 0 {
            None
        } else {
            Some(Account { available: v, ..account })
        },
        None => None,
    }
}

/// The account and the recorded transaction after disputing a transaction of
/// kind `disputed` and amount `amount`: the amount moves from available to held.
/// Only a deposit, or a deposit whose dispute was resolved, can be disputed.
pub open spec fn dispute_spec(
    account: Account,
    tx: Transaction,
    disputed: TransactionType,
    amount: Amount,
) -> Option<(Account, Transaction)> {
    if disputed != TransactionType::Deposit && disputed != TransactionType::Resolve {
        None
    } else {
        match (amount_sub(account.available, amount), amount_add(account.held, amount)) {
            (Some(a), Some(h)) => Some(
                (
                    Account { available: a, held: h, ..account },
                    Transaction {
                        transaction_type: TransactionType::Dispute,
                        amount: Some(amount),
                        ..tx
                    },
                ),
            ),
            _ => None,
        }
    }
}

/// The account and the recorded transaction after resolving a dispute: the
/// amount moves back from held to available. Only a dispute can be resolved.
pub open spec fn resolve_spec(
    account: Account,
    tx: Transaction,
    disputed: TransactionType,
    amount: Amount,
) -> Option<(Account, Transaction)> {
    if disputed != TransactionType::Dispute {
        None
    } else {
        match (amount_add(account.available, amount), amount_sub(account.held, amount)) {
            (Some(a), Some(h)) => Some(
                (
                    Account { available: a, held: h, ..account },
                    Transaction {
                        transaction_type: TransactionType::Resolve,
                        amount: Some(amount),
                        ..tx
                    },
                ),
            ),
            _ => None,
        }
    }
}

/// The account and the recorded transaction after a chargeback: the held amount
/// is withdrawn and the account is locked. Only a dispute can be charged back.
pub open spec fn chargeback_spec(
    account: Account,
    tx: Transaction,
    disputed: TransactionType,
    amount: Amount,
) -> Option<(Account, Transaction)> {
    if disputed != TransactionType::Dispute {
        None
    } else {
        match amount_sub(account.held, amount) {
            Some(h) => Some(
                (
                    Account { held: h, locked: true, ..account },
                    Transaction {
                        transaction_type: TransactionType::Chargeback,
                        amount: Some(amount),
                        ..tx
                    },
                ),
            ),
            None => None,
        }
    }
}

/// The account and the transaction to record after applying `tx` to `account`,
/// given the recorded transaction with the same id; `None` where the
/// transaction is refused. A locked account refuses every transaction.
pub open spec fn apply_spec(account: Account, tx: Transaction, existing: Option<Transaction>) -> Option<
    (Account, Transaction),
> {
    if account.locked || !is_valid_spec(tx, existing) {
        None
    } else {
        match tx.transaction_type {
            TransactionType::Deposit => match deposit_spec(account, tx.amount.unwrap()) {
                Some(a) => Some((a, tx)),
                None => None,
            },
            TransactionType::Withdrawal => match withdraw_spec(account, tx.amount.unwrap()) {
                Some(a) => Some((a, tx)),
                None => None,
            },
            TransactionType::Dispute => dispute_spec(
                account,
                tx,
                existing.unwrap().transaction_type,
                existing.unwrap().amount.unwrap(),
            ),
            TransactionType::Resolve => resolve_spec(
                account,
                tx,
                existing.unwrap().transaction_type,
                existing.unwrap().amount.unwrap(),
            ),
            TransactionType::Chargeback => chargeback_spec(
                account,
                tx,
                existing.unwrap().transaction_type,
                existing.unwrap().amount.unwrap(),
            ),
        }
    }
}

/// Checks whether `transaction` may be applied, given the recorded transaction
/// with its id.
pub fn is_valid_transaction(
    transaction: &Transaction,
    existing_transaction: &Option<&Transaction>,
) -> (r: bool)
    ensures
        r == is_valid_spec(*transaction, copied(*existing_transaction)),
{
    match transaction.transaction_type() {
        TransactionType::Deposit | TransactionType::Withdrawal => {
            if existing_transaction.is_some() {
                return false;
            }
            if transaction.amount().is_none() {
                return false;
            }
        },
        TransactionType::Dispute | TransactionType::Resolve | TransactionType::Chargeback => {
            let existing = match existing_transaction {
                Some(e) => *e,
                None => return false,
            };
            if *existing.client_id() != *transaction.client_id() {
                return false;
            }
            if existing.amount().is_none() {
                return false;
            }
        },
    }
    true
}

/// Whether applying `tx` to `account` reaches a decimal overflow, where the
/// arithmetic of `Decimal` panics: a valid transaction on an unlocked account
/// whose sum or difference overflows (for a dispute, resolve or chargeback,
/// once the kind of the disputed transaction has been accepted).
pub open spec fn apply_overflows(account: Account, tx: Transaction, existing: Option<Transaction>) -> bool {
    !account.locked && is_valid_spec(tx, existing) && match tx.transaction_type {
        TransactionType::Deposit => amount_add(account.available, tx.amount.unwrap()) is None,
        TransactionType::Withdrawal => amount_sub(account.available, tx.amount.unwrap()) is None,
        TransactionType::Dispute => {
            let e = existing.unwrap();
            let x = e.amount.unwrap();
            (e.transaction_type == TransactionType::Deposit || e.transaction_type
                == TransactionType::Resolve) && (amount_sub(account.available, x) is None
                || amount_add(account.held, x) is None)
        },
        TransactionType::Resolve => {
            let e = existing.unwrap();
            let x = e.amount.unwrap();
            e.transaction_type == TransactionType::Dispute && (amount_add(account.available, x) is None
                || amount_sub(account.held, x) is None)
        },
        TransactionType::Chargeback => {
            let e = existing.unwrap();
            let x = e.amount.unwrap();
            e.transaction_type == TransactionType::Dispute && amount_sub(account.held, x) is None
        },
    }
}

/// For each sum or difference that applying `tx` to `account` computes: where
/// the exact result fits at the larger scale of its operands, it is computed
/// without rounding.
pub open spec fn fits_implies_exact(account: Account, tx: Transaction, existing: Option<Transaction>) -> bool {
    let av = account.available;
    let held = account.held;
    match tx.transaction_type {
        TransactionType::Deposit => sum_fits(av, tx.amount.unwrap()) ==> exact_add(
            av,
            tx.amount.unwrap(),
        ),
        TransactionType::Withdrawal => difference_fits(av, tx.amount.unwrap()) ==> exact_sub(
            av,
            tx.amount.unwrap(),
        ),
        TransactionType::Dispute => {
            let x = existing.unwrap().amount.unwrap();
            &&& difference_fits(av, x) ==> exact_sub(av, x)
            &&& sum_fits(held, x) ==> exact_add(held, x)
        },
        TransactionType::Resolve => {
            let x = existing.unwrap().amount.unwrap();
            &&& sum_fits(av, x) ==> exact_add(av, x)
            &&& difference_fits(held, x) ==> exact_sub(held, x)
        },
        TransactionType::Chargeback => {
            let x = existing.unwrap().amount.unwrap();
            difference_fits(held, x) ==> exact_sub(held, x)
        },
    }
}

/// Adds `amount` to the available funds. The sum must not overflow.
pub fn deposit(account: &mut Account, amount: &Amount) -> (r: bool)
    requires
        amount_add(old(account).available, *amount) is Some,
    ensures
        r,
        deposit_spec(*old(account), *amount) == Some(*final(account)),
        sum_fits(old(account).available, *amount) ==> final(account).available@ == old(
            account,
        ).available@ + amount@,
        sum_fits(old(account).available, *amount) ==> exact_add(old(account).available, *amount),
{
    let v = account.available_funds().checked_add(*amount).unwrap();
    *account.available_funds_mut() = v;
    true
}

/// Takes `amount` from the available funds, unless that would leave them below
/// zero; then the account is unchanged. The difference must not overflow.
pub fn withdraw(account: &mut Account, amount: &Amount) -> (r: bool)
    requires
        amount_sub(old(account).available, *amount) is Some,
    ensures
        match withdraw_spec(*old(account), *amount) {
            Some(a) => r && *final(account) == a,
            None => !r && *final(account) == *old(account),
        },
        r ==> final(account).available@ >= 0,
        difference_fits(old(account).available, *amount) ==> {
            &&& r == (old(account).available@ - amount@ >= 0)
            &&& r ==> final(account).available@ == old(account).available@ - amount@
        },
        difference_fits(old(account).available, *amount) ==> exact_sub(
            old(account).available,
            *amount,
        ),
{
    let tentative_amount = account.available_funds().checked_sub(*amount).unwrap();
    if tentative_amount.is_negative() {
        return false;
    }
    *account.available_funds_mut() = tentative_amount;
    true
}

/// Disputes a transaction of kind `disputed_transaction_type` and amount
/// `disputed_amount`: the amount moves from available to held, and
/// `transaction` becomes the dispute record carrying that amount. Where the
/// kind can be disputed, the arithmetic must not overflow.
pub fn dispute(
    account: &mut Account,
    transaction: &mut Transaction,
    disputed_transaction_type: TransactionType,
    disputed_amount: &Amount,
) -> (r: bool)
    requires
        disputed_transaction_type == TransactionType::Deposit || disputed_transaction_type
            == TransactionType::Resolve ==> amount_sub(old(account).available, *disputed_amount) is Some
            && amount_add(old(account).held, *disputed_amount) is Some,
    ensures
        match dispute_spec(*old(account), *old(transaction), disputed_transaction_type, *disputed_amount) {
            Some((a, t)) => r && *final(account) == a && *final(transaction) == t,
            None => !r && *final(account) == *old(account) && *final(transaction) == *old(transaction),
        },
        r == (disputed_transaction_type == TransactionType::Deposit || disputed_transaction_type
            == TransactionType::Resolve),
        r && difference_fits(old(account).available, *disputed_amount) && sum_fits(
            old(account).held,
            *disputed_amount,
        ) ==> {
            &&& final(account).available@ == old(account).available@ - disputed_amount@
            &&& final(account).held@ == old(account).held@ + disputed_amount@
        },
        r && difference_fits(old(account).available, *disputed_amount) ==> exact_sub(
            old(account).available,
            *disputed_amount,
        ),
        r && sum_fits(old(account).held, *disputed_amount) ==> exact_add(
            old(account).held,
            *disputed_amount,
        ),
{
    if disputed_transaction_type != TransactionType::Deposit && disputed_transaction_type
        != TransactionType::Resolve {
        return false;
    }
    let available = account.available_funds().checked_sub(*disputed_amount).unwrap();
    let held = account.held_funds().checked_add(*disputed_amount).unwrap();
    *account.available_funds_mut() = available;
    *account.held_funds_mut() = held;
    *transaction.transaction_type_mut() = TransactionType::Dispute;
    *transaction.amount_mut() = Some(*disputed_amount);
    true
}

/// Resolves a dispute of amount `disputed_amount`: the amount moves back from
/// held to available, and `transaction` becomes the resolve record. Where the
/// disputed transaction is a dispute, the arithmetic must not overflow.
pub fn resolve(
    account: &mut Account,
    transaction: &mut Transaction,
    disputed_transaction_type: TransactionType,
    disputed_amount: &Amount,
) -> (r: bool)
    requires
        disputed_transaction_type == TransactionType::Dispute ==> amount_add(
            old(account).available,
            *disputed_amount,
        ) is Some && amount_sub(old(account).held, *disputed_amount) is Some,
    ensures
        match resolve_spec(*old(account), *old(transaction), disputed_transaction_type, *disputed_amount) {
            Some((a, t)) => r && *final(account) == a && *final(transaction) == t,
            None => !r && *final(account) == *old(account) && *final(transaction) == *old(transaction),
        },
        r == (disputed_transaction_type == TransactionType::Dispute),
        r && sum_fits(old(account).available, *disputed_amount) && difference_fits(
            old(account).held,
            *disputed_amount,
        ) ==> {
            &&& final(account).available@ == old(account).available@ + disputed_amount@
            &&& final(account).held@ == old(account).held@ - disputed_amount@
        },
        r && sum_fits(old(account).available, *disputed_amount) ==> exact_add(
            old(account).available,
            *disputed_amount,
        ),
        r && difference_fits(old(account).held, *disputed_amount) ==> exact_sub(
            old(account).held,
            *disputed_amount,
        ),
{
    if disputed_transaction_type != TransactionType::Dispute {
        return false;
    }
    let available = account.available_funds().checked_add(*disputed_amount).unwrap();
    let held = account.held_funds().checked_sub(*disputed_amount).unwrap();
    *account.available_funds_mut() = available;
    *account.held_funds_mut() = held;
    *transaction.transaction_type_mut() = TransactionType::Resolve;
    *transaction.amount_mut() = Some(*disputed_amount);
    true
}

/// Charges back a dispute of amount `disputed_amount`: the held amount is
/// withdrawn, the account is locked, and `transaction` becomes the chargeback
/// record. Where the disputed transaction is a dispute, the difference must
/// not overflow.
pub fn chargeback(
    account: &mut Account,
    transaction: &mut Transaction,
    disputed_transaction_type: TransactionType,
    disputed_amount: &Amount,
) -> (r: bool)
    requires
        disputed_transaction_type == TransactionType::Dispute ==> amount_sub(
            old(account).held,
            *disputed_amount,
        ) is Some,
    ensures
        match chargeback_spec(*old(account), *old(transaction), disputed_transaction_type, *disputed_amount) {
            Some((a, t)) => r && *final(account) == a && *final(transaction) == t,
            None => !r && *final(account) == *old(account) && *final(transaction) == *old(transaction),
        },
        r == (disputed_transaction_type == TransactionType::Dispute),
        r ==> final(account).locked && final(account).available == old(account).available,
        r && difference_fits(old(account).held, *disputed_amount) ==> final(account).held@ == old(
            account,
        ).held@ - disputed_amount@,
        r && difference_fits(old(account).held, *disputed_amount) ==> exact_sub(
            old(account).held,
            *disputed_amount,
        ),
{
    if disputed_transaction_type != TransactionType::Dispute {
        return false;
    }
    let held = account.held_funds().checked_sub(*disputed_amount).unwrap();
    *account.held_funds_mut() = held;
    account.lock();
    *transaction.transaction_type_mut() = TransactionType::Chargeback;
    *transaction.amount_mut() = Some(*disputed_amount);
    true
}

/// Applies `transaction` to `account`, given the recorded transaction with the
/// same id, without committing anything to a database. Returns whether the
/// transaction was applied; where it was not, neither argument changed. The
/// transaction must not reach a decimal overflow.
pub fn apply_transaction(
    account: &mut Account,
    transaction: &mut Transaction,
    existing_transaction: Option<&Transaction>,
) -> (r: bool)
    requires
        !apply_overflows(*old(account), *old(transaction), copied(existing_transaction)),
    ensures
        match apply_spec(*old(account), *old(transaction), copied(existing_transaction)) {
            Some((a, t)) => r && *final(account) == a && *final(transaction) == t,
            None => !r && *final(account) == *old(account) && *final(transaction) == *old(transaction),
        },
        r ==> fits_implies_exact(*old(account), *old(transaction), copied(existing_transaction)),
{
    if account.locked() {
        return false;
    }
    if !is_valid_transaction(transaction, &existing_transaction) {
        return false;
    }
    let transaction_type = *transaction.transaction_type();
    if transaction_type == TransactionType::Deposit {
        let amount = *transaction.amount().unwrap();
        return deposit(account, &amount);
    }
    if transaction_type == TransactionType::Withdrawal {
        let amount = *transaction.amount().unwrap();
        return withdraw(account, &amount);
    }
    let disputed_transaction = existing_transaction.unwrap();
    let disputed_transaction_type = *disputed_transaction.transaction_type();
    let disputed_amount = *disputed_transaction.amount().unwrap();
    match transaction_type {
        TransactionType::Dispute => dispute(
            account,
            transaction,
            disputed_transaction_type,
            &disputed_amount,
        ),
        TransactionType::Resolve => resolve(
            account,
            transaction,
            disputed_transaction_type,
            &disputed_amount,
        ),
        _ => chargeback(account, transaction, disputed_transaction_type, &disputed_amount),
    }
}

/// Whether applying `transaction` to `account` would reach a decimal overflow.
pub fn apply_would_overflow(
    account: &Account,
    transaction: &Transaction,
    existing_transaction: Option<&Transaction>,
) -> (r: bool)
    ensures
        r == apply_overflows(*account, *transaction, copied(existing_transaction)),
{
    if account.locked() || !is_valid_transaction(transaction, &existing_transaction) {
        return false;
    }
    let available = *account.available_funds();
    let held = *account.held_funds();
    match *transaction.transaction_type() {
        TransactionType::Deposit => available.checked_add(*transaction.amount().unwrap()).is_none(),
        TransactionType::Withdrawal => available.checked_sub(*transaction.amount().unwrap()).is_none(),
        TransactionType::Dispute => {
            let e = existing_transaction.unwrap();
            let x = *e.amount().unwrap();
            let kind = *e.transaction_type();
            (kind == TransactionType::Deposit || kind == TransactionType::Resolve) && (
            available.checked_sub(x).is_none() || held.checked_add(x).is_none())
        },
        TransactionType::Resolve => {
            let e = existing_transaction.unwrap();
            let x = *e.amount().unwrap();
            *e.transaction_type() == TransactionType::Dispute && (available.checked_add(x).is_none()
                || held.checked_sub(x).is_none())
        },
        TransactionType::Chargeback => {
            let e = existing_transaction.unwrap();
            let x = *e.amount().unwrap();
            *e.transaction_type() == TransactionType::Dispute && held.checked_sub(x).is_none()
        },
    }
}

/// The account a transaction of client `client_id` is applied to: the recorded
/// one, or a new empty account.
pub open spec fn account_for(accounts: Map<ClientId, Account>, client_id: ClientId) -> Account {
    if accounts.contains_key(client_id) {
        accounts[client_id]
    } else {
        Account::spec_new(client_id)
    }
}

/// The recorded transaction with id `id`, if any.
pub open spec fn recorded(transactions: Map<TransactionId, Transaction>, id: TransactionId) -> Option<
    Transaction,
> {
    if transactions.contains_key(id) {
        Some(transactions[id])
    } else {
        None
    }
}

/// Whether `tx` may open an account or reach an existing one: a client without
/// an account can only open one with a deposit.
pub open spec fn reaches_account(accounts: Map<ClientId, Account>, tx: Transaction) -> bool {
    accounts.contains_key(tx.client_id) || tx.transaction_type == TransactionType::Deposit
}

/// The state of both databases after one transaction arrives, and whether it
/// was applied. A client without an account is only recorded by a deposit; an
/// applied transaction records the client's account and the transaction; a
/// refused one changes nothing.
pub open spec fn process_spec(
    accounts: Map<ClientId, Account>,
    transactions: Map<TransactionId, Transaction>,
    tx: Transaction,
) -> (bool, Map<ClientId, Account>, Map<TransactionId, Transaction>) {
    if !reaches_account(accounts, tx) {
        (false, accounts, transactions)
    } else {
        match apply_spec(account_for(accounts, tx.client_id), tx, recorded(transactions, tx.id)) {
            Some((a, t)) => (true, accounts.insert(a.client_id, a), transactions.insert(t.id, t)),
            None => (false, accounts, transactions),
        }
    }
}

/// The state of both databases after the transactions `txs` arrived in order,
/// starting from empty databases.
pub open spec fn run_spec(txs: Seq<Transaction>) -> (Map<ClientId, Account>, Map<TransactionId, Transaction>)
    decreases txs.len(),
{
    if txs.len() == 0 {
        (Map::empty(), Map::empty())
    } else {
        let prev = run_spec(txs.drop_last());
        let next = process_spec(prev.0, prev.1, txs.last());
        (next.1, next.2)
    }
}

/// Whether the transaction `tx` reaches a decimal overflow when it arrives.
pub open spec fn process_overflows(
    accounts: Map<ClientId, Account>,
    transactions: Map<TransactionId, Transaction>,
    tx: Transaction,
) -> bool {
    reaches_account(accounts, tx) && apply_overflows(
        account_for(accounts, tx.client_id),
        tx,
        recorded(transactions, tx.id),
    )
}

/// Whether some transaction of `txs` reaches a decimal overflow when it arrives
/// (where `Decimal`'s arithmetic panics).
pub open spec fn run_overflows(txs: Seq<Transaction>) -> bool
    decreases txs.len(),
{
    txs.len() > 0 && (run_overflows(txs.drop_last()) || {
        let prev = run_spec(txs.drop_last());
        process_overflows(prev.0, prev.1, txs.last())
    })
}

/// Processes one arriving transaction: applies it to the client's account (a
/// new one if the client has none) and, where it was applied, records both the
/// account and the transaction. Returns whether it was applied. The
/// transaction must not reach a decimal overflow.
pub fn process_transaction(
    accounts: &mut Accounts,
    transactions: &mut Transactions,
    transaction: Transaction,
) -> (r: bool)
    requires
        !process_overflows(old(accounts)@, old(transactions)@, transaction),
    ensures
        process_spec(old(accounts)@, old(transactions)@, transaction) == (
            r,
            final(accounts)@,
            final(transactions)@,
        ),
        r ==> fits_implies_exact(
            account_for(old(accounts)@, transaction.client_id),
            transaction,
            recorded(old(transactions)@, transaction.id),
        ),
{
    let mut transaction = transaction;
    let mut account = match Database::retrieve(&*accounts, &transaction.client_id) {
        Ok(Some(a)) => a,
        _ => {
            if *transaction.transaction_type() != TransactionType::Deposit {
                return false;
            }
            Account::new(transaction.client_id)
        },
    };
    let existing_transaction = match Database::retrieve(&*transactions, &transaction.id) {
        Ok(found) => found,
        Err(_) => None,
    };
    let applied = apply_transaction(&mut account, &mut transaction, existing_transaction.as_ref());
    if applied {
        let _ = Database::insert(accounts, account.client_id(), account);
        let _ = Database::insert(transactions, *transaction.id(), transaction);
    }
    applied
}

/// Processes one arriving transaction, first checking that it does not reach a
/// decimal overflow: `None` (and nothing changed) where it would, else whether
/// it was applied.
pub fn checked_process_transaction(
    accounts: &mut Accounts,
    transactions: &mut Transactions,
    transaction: Transaction,
) -> (r: Option<bool>)
    ensures
        r is None <==> process_overflows(old(accounts)@, old(transactions)@, transaction),
        r is None ==> final(accounts)@ == old(accounts)@ && final(transactions)@ == old(
            transactions,
        )@,
        r matches Some(applied) ==> process_spec(old(accounts)@, old(transactions)@, transaction)
            == (applied, final(accounts)@, final(transactions)@),
        r == Some(true) ==> fits_implies_exact(
            account_for(old(accounts)@, transaction.client_id),
            transaction,
            recorded(old(transactions)@, transaction.id),
        ),
{
    let account = match Database::retrieve(&*accounts, &transaction.client_id) {
        Ok(Some(a)) => a,
        _ => {
            if *transaction.transaction_type() != TransactionType::Deposit {
                return Some(false);
            }
            Account::new(transaction.client_id)
        },
    };
    let existing_transaction = match Database::retrieve(&*transactions, &transaction.id) {
        Ok(found) => found,
        Err(_) => None,
    };
    if apply_would_overflow(&account, &transaction, existing_transaction.as_ref()) {
        return None;
    }
    Some(process_transaction(accounts, transactions, transaction))
}

/// Runs the payment system over the transactions in order, starting from empty
/// databases, and returns the account database; `None` where a transaction
/// reaches a decimal overflow.
pub fn simulate(transactions: Vec<Transaction>) -> (r: Option<Accounts>)
    ensures
        r is None <==> run_overflows(transactions@),
        r matches Some(accounts) ==> accounts@ == run_spec(transactions@).0,
        r is Some && run_fits(transactions@) ==> run_exact(transactions@),
        r is Some && run_fits(transactions@) ==> balance_inv(
            run_spec(transactions@).0,
            run_spec(transactions@).1,
        ) && held_inv(run_spec(transactions@).0, run_spec(transactions@).1),
{
    let mut accounts = Accounts::new();
    let mut recorded_transactions = Transactions::new();
    let mut i: usize = 0;
    while i < transactions.len()
        invariant
            i <= transactions@.len(),
            (accounts@, recorded_transactions@) == run_spec(transactions@.take(i as int)),
            !run_overflows(transactions@.take(i as int)),
            run_fits(transactions@.take(i as int)) ==> run_exact(transactions@.take(i as int)),
        decreases transactions@.len() - i,
    {
        proof {
            assert(transactions@.take(i + 1).drop_last() =~= transactions@.take(i as int));
        }
        let ghost before_accounts = accounts@;
        let ghost before_transactions = recorded_transactions@;
        match checked_process_transaction(&mut accounts, &mut recorded_transactions, transactions[i]) {
            Some(_) => {
                proof {
                    if crate::payment_system::balances::step_fits(
                        before_accounts,
                        before_transactions,
                        transactions@[i as int],
                    ) {
                        lemma_step_fits_exact(
                            before_accounts,
                            before_transactions,
                            transactions@[i as int],
                        );
                    }
                }
            },
            None => {
                proof {
                    lemma_run_overflows_extends(transactions@, i as int + 1);
                }
                return None;
            },
        }
        i = i + 1;
    }
    proof {
        assert(transactions@.take(i as int) =~= transactions@);
        if run_fits(transactions@) {
            law_total_funds_are_recorded_balance(transactions@);
            lemma_run_exact_held(transactions@);
            law_held_funds_are_open_disputes(transactions@);
        }
    }
    Some(accounts)
}

/// An overflow in a prefix of a run is an overflow of the run.
proof fn lemma_run_overflows_extends(txs: Seq<Transaction>, i: int)
    requires
        0 <= i <= txs.len(),
        run_overflows(txs.take(i)),
    ensures
        run_overflows(txs),
    decreases txs.len(),
{
    if i == txs.len() {
        assert(txs.take(i) =~= txs);
    } else {
        assert(txs.drop_last().take(i) =~= txs.take(i));
        lemma_run_overflows_extends(txs.drop_last(), i);
    }
}

/// `keys` lists the client ids of `accounts` once each, in increasing order.
pub open spec fn sorted_keys(keys: Seq<ClientId>, accounts: Map<ClientId, Account>) -> bool {
    &&& keys.to_set() == accounts.dom()
    &&& forall|i: int, j: int| 0 <= i < j < keys.len() ==> keys[i] < keys[j]
}

/// The summary of the account database: the header line, then the summary line
/// of every account in increasing client order. `None` where the total of some
/// account overflows.
pub fn accounts_summary(accounts: &Accounts) -> (r: Option<Vec<String>>)
    ensures
        match r {
            Some(lines) => {
                &&& lines@.len() == accounts@.len() + 1
                &&& lines@[0]@ == ACCOUNT_HEADERS@
                &&& exists|keys: Seq<ClientId>|
                    {
                        &&& sorted_keys(keys, accounts@)
                        &&& keys.len() + 1 == lines@.len()
                        &&& forall|i: int|
                            0 <= i < keys.len() ==> account_text(accounts@[keys[i]]) == Some(
                                #[trigger] lines@[i + 1]@,
                            )
                    }
            },
            None => exists|c: ClientId|
                accounts@.contains_key(c) && #[trigger] account_text(accounts@[c]) is None,
        },
{
    let mut lines: Vec<String> = Vec::new();
    lines.push(String::from_str(ACCOUNT_HEADERS));
    let values = accounts.values();
    let ghost keys: Seq<ClientId> = choose|ks: Seq<ClientId>|
        {
            &&& vstd::std_specs::btree::increasing_seq(ks)
            &&& ks.to_set() == accounts@.dom()
            &&& ks.no_duplicates()
            &&& values.remaining() == ks.map(|i: int, k: ClientId| &accounts@[k])
        };
    for account in it: values
        invariant
            lines@.len() == it.index() + 1,
            lines@[0]@ == ACCOUNT_HEADERS@,
            it.seq() == keys.map(|i: int, k: ClientId| &accounts@[k]),
            keys.to_set() == accounts@.dom(),
            forall|i: int|
                0 <= i < it.index() ==> account_text(accounts@[keys[i]]) == Some(
                    #[trigger] lines@[i + 1]@,
                ),
    {
        assert(*account == accounts@[keys[it.index()]]);
        if account.available_funds().checked_add(*account.held_funds()).is_none() {
            proof {
                let c = keys[it.index()];
                assert(keys.to_set().contains(c));
                assert(accounts@.contains_key(c) && account_text(accounts@[c]) is None);
            }
            return None;
        }
        lines.push(account.to_string());
    }
    proof {
        assert(lines@.len() == keys.len() + 1);
        assert forall|i: int, j: int| 0 <= i < j < keys.len() implies keys[i] < keys[j] by {
            assert(keys[i].cmp_spec(&keys[j]) is Less);
        }
        keys.unique_seq_to_set();
        assert(sorted_keys(keys, accounts@));
        assert(forall|i: int|
            0 <= i < keys.len() ==> account_text(accounts@[keys[i]]) == Some(
                #[trigger] lines@[i + 1]@,
            ));
    }
    Some(lines)
}

} // verus!
