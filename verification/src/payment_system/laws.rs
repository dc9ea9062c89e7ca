//! What holds of the payment system across transactions: how disputes move
//! funds, how recorded transactions move through their lifecycle, and what a
//! locked account or a refused transaction leaves unchanged.
use crate::payment_system::account::Account;
use crate::payment_system::apply_spec;
use crate::payment_system::chargeback_spec;
use crate::payment_system::dispute_spec;
use crate::payment_system::process_overflows;
use crate::payment_system::process_spec;
use crate::payment_system::run_overflows;
use crate::payment_system::resolve_spec;
use crate::payment_system::run_spec;
use crate::payment_system::transaction::Transaction;
use crate::payment_system::transaction::TransactionType;
use crate::payment_system::is_valid_spec;
use crate::payment_system::types::amount_add;
use crate::payment_system::types::amount_sub;
use crate::payment_system::types::exact_add;
use crate::payment_system::types::exact_sub;
use crate::payment_system::types::Amount;
use crate::payment_system::types::ClientId;
use crate::payment_system::types::TransactionId;
use crate::payment_system::withdraw_spec;
use vstd::prelude::*;

verus! {

/// A dispute moves the disputed amount from the available to the held funds,
/// leaving the total unchanged (where the decimal arithmetic is exact).
pub proof fn law_dispute_moves_funds_to_held(
    account: Account,
    tx: Transaction,
    disputed: TransactionType,
    amount: Amount,
)
    requires
        disputed == TransactionType::Deposit || disputed == TransactionType::Resolve,
        exact_sub(account.available, amount),
        exact_add(account.held, amount),
    ensures
        dispute_spec(account, tx, disputed, amount) matches Some((a, t)) && {
            &&& a.available@ == account.available@ - amount@
            &&& a.held@ == account.held@ + amount@
            &&& a.available@ + a.held@ == account.available@ + account.held@
            &&& a.client_id == account.client_id
            &&& a.locked == account.locked
            &&& t.transaction_type == TransactionType::Dispute
            &&& t.amount == Some(amount)
        },
{
}

/// Resolving a dispute gives back exactly what the dispute held: the available
/// and held funds return to their values before the dispute (where the decimal
/// arithmetic is exact).
pub proof fn law_resolve_undoes_dispute(
    account: Account,
    dispute_tx: Transaction,
    resolve_tx: Transaction,
    disputed: TransactionType,
    amount: Amount,
)
    requires
        disputed == TransactionType::Deposit || disputed == TransactionType::Resolve,
        exact_sub(account.available, amount),
        exact_add(account.held, amount),
        ({
            let a1 = dispute_spec(account, dispute_tx, disputed, amount).unwrap().0;
            exact_add(a1.available, amount) && exact_sub(a1.held, amount)
        }),
    ensures
        ({
            let (a1, t1) = dispute_spec(account, dispute_tx, disputed, amount).unwrap();
            resolve_spec(a1, resolve_tx, t1.transaction_type, t1.amount.unwrap()) matches Some(
                (a2, t2),
            ) && {
                &&& a2.available@ == account.available@
                &&& a2.held@ == account.held@
                &&& a2.client_id == account.client_id
                &&& a2.locked == account.locked
                &&& t2.transaction_type == TransactionType::Resolve
            }
        }),
{
    law_dispute_moves_funds_to_held(account, dispute_tx, disputed, amount);
}

/// A chargeback after a dispute takes the disputed amount out of the account
/// for good: the held funds return to their value before the dispute, the
/// available funds stay reduced by the amount, the total drops by the amount,
/// and the account is locked (where the decimal arithmetic is exact).
pub proof fn law_chargeback_withdraws_disputed_funds(
    account: Account,
    dispute_tx: Transaction,
    chargeback_tx: Transaction,
    disputed: TransactionType,
    amount: Amount,
)
    requires
        disputed == TransactionType::Deposit || disputed == TransactionType::Resolve,
        exact_sub(account.available, amount),
        exact_add(account.held, amount),
        exact_sub(dispute_spec(account, dispute_tx, disputed, amount).unwrap().0.held, amount),
    ensures
        ({
            let (a1, t1) = dispute_spec(account, dispute_tx, disputed, amount).unwrap();
            chargeback_spec(a1, chargeback_tx, t1.transaction_type, t1.amount.unwrap()) matches Some(
                (a2, t2),
            ) && {
                &&& a2.held@ == account.held@
                &&& a2.available@ == account.available@ - amount@
                &&& a2.available@ + a2.held@ == account.available@ + account.held@ - amount@
                &&& a2.locked
                &&& t2.transaction_type == TransactionType::Chargeback
            }
        }),
{
    law_dispute_moves_funds_to_held(account, dispute_tx, disputed, amount);
}

/// A locked account refuses every transaction.
pub proof fn law_locked_account_refuses(
    account: Account,
    tx: Transaction,
    existing: Option<Transaction>,
)
    requires
        account.locked,
    ensures
        apply_spec(account, tx, existing) is None,
{
}

/// An applied transaction keeps the account's client and the transaction's id
/// and client; the recorded transaction carries an amount; the account ends up
/// locked exactly when the transaction is a chargeback.
pub proof fn law_apply_keeps_identity(
    account: Account,
    tx: Transaction,
    existing: Option<Transaction>,
)
    ensures
        apply_spec(account, tx, existing) matches Some((a, t)) ==> {
            &&& a.client_id == account.client_id
            &&& t.id == tx.id
            &&& t.client_id == tx.client_id
            &&& t.transaction_type == tx.transaction_type
            &&& t.amount is Some
            &&& !account.locked
            &&& a.locked == (tx.transaction_type == TransactionType::Chargeback)
        },
{
}

/// A successful withdrawal never leaves the available funds below zero.
pub proof fn law_withdrawal_never_overdraws(account: Account, amount: Amount)
    ensures
        withdraw_spec(account, amount) matches Some(a) ==> a.available@ >= 0,
{
}

/// A client without an account can only open one with a deposit: any other
/// first transaction is refused, and neither the client nor the transaction is
/// recorded.
pub proof fn law_first_transaction_must_be_deposit(
    accounts: Map<ClientId, Account>,
    txs: Map<TransactionId, Transaction>,
    tx: Transaction,
)
    requires
        !accounts.contains_key(tx.client_id),
        tx.transaction_type != TransactionType::Deposit,
    ensures
        process_spec(accounts, txs, tx) == (false, accounts, txs),
{
}

/// A refused transaction leaves both databases unchanged.
pub proof fn law_refused_changes_nothing(
    accounts: Map<ClientId, Account>,
    txs: Map<TransactionId, Transaction>,
    tx: Transaction,
)
    ensures
        !process_spec(accounts, txs, tx).0 ==> process_spec(accounts, txs, tx) == (
            false,
            accounts,
            txs,
        ),
{
}

/// A deposit or withdrawal whose id was already recorded is refused: only the
/// first transaction with an id is applied.
pub proof fn law_duplicate_id_refused(
    accounts: Map<ClientId, Account>,
    txs: Map<TransactionId, Transaction>,
    tx: Transaction,
)
    requires
        txs.contains_key(tx.id),
        tx.transaction_type == TransactionType::Deposit || tx.transaction_type
            == TransactionType::Withdrawal,
    ensures
        process_spec(accounts, txs, tx) == (false, accounts, txs),
{
}

/// What holds of the databases between transactions: every account is stored
/// under its client's id; every recorded transaction is stored under its id,
/// carries an amount, and belongs to a client with an account; and an account
/// is locked exactly when its client has a charged-back transaction.
pub open spec fn ledger_inv(
    accounts: Map<ClientId, Account>,
    txs: Map<TransactionId, Transaction>,
) -> bool {
    &&& forall|c: ClientId| #[trigger] accounts.contains_key(c) ==> accounts[c].client_id == c
    &&& forall|id: TransactionId| #[trigger]
        txs.contains_key(id) ==> {
            let t = txs[id];
            &&& t.id == id
            &&& t.amount is Some
            &&& accounts.contains_key(t.client_id)
            &&& t.transaction_type == TransactionType::Chargeback ==> accounts[t.client_id].locked
        }
    &&& forall|c: ClientId| #[trigger]
        accounts.contains_key(c) && accounts[c].locked ==> charged_back(txs, c)
}

/// Client `c` has a charged-back transaction.
pub open spec fn charged_back(txs: Map<TransactionId, Transaction>, c: ClientId) -> bool {
    exists|id: TransactionId| #[trigger]
        txs.contains_key(id) && txs[id].client_id == c && txs[id].transaction_type
            == TransactionType::Chargeback
}

/// Once an account is locked, no transaction changes it again.
pub proof fn law_locked_account_frozen(
    accounts: Map<ClientId, Account>,
    txs: Map<TransactionId, Transaction>,
    tx: Transaction,
    client_id: ClientId,
)
    requires
        ledger_inv(accounts, txs),
        accounts.contains_key(client_id),
        accounts[client_id].locked,
    ensures
        process_spec(accounts, txs, tx).1.contains_key(client_id),
        process_spec(accounts, txs, tx).1[client_id] == accounts[client_id],
{
    let account = crate::payment_system::account_for(accounts, tx.client_id);
    law_apply_keeps_identity(account, tx, crate::payment_system::recorded(txs, tx.id));
}

/// Every transaction keeps the databases' invariant.
pub proof fn law_process_keeps_invariant(
    accounts: Map<ClientId, Account>,
    txs: Map<TransactionId, Transaction>,
    tx: Transaction,
)
    requires
        ledger_inv(accounts, txs),
    ensures
        ledger_inv(process_spec(accounts, txs, tx).1, process_spec(accounts, txs, tx).2),
{
    let account = crate::payment_system::account_for(accounts, tx.client_id);
    let existing = crate::payment_system::recorded(txs, tx.id);
    law_apply_keeps_identity(account, tx, existing);
    let (applied, accounts2, txs2) = process_spec(accounts, txs, tx);
    if applied {
        let (a, t) = apply_spec(account, tx, existing).unwrap();
        assert forall|id: TransactionId| #[trigger] txs2.contains_key(id) implies {
            let r = txs2[id];
            &&& r.id == id
            &&& r.amount is Some
            &&& accounts2.contains_key(r.client_id)
            &&& r.transaction_type == TransactionType::Chargeback ==> accounts2[r.client_id].locked
        } by {
            if id != t.id {
                let r = txs[id];
                if r.client_id == a.client_id && r.transaction_type == TransactionType::Chargeback {
                    assert(accounts[r.client_id].locked);
                    assert(account == accounts[r.client_id]);
                }
            }
        }
        assert forall|c: ClientId| #[trigger]
            accounts2.contains_key(c) && accounts2[c].locked implies charged_back(txs2, c) by {
            if c == a.client_id {
                if tx.transaction_type == TransactionType::Chargeback {
                    assert(txs2.contains_key(t.id) && txs2[t.id].client_id == c);
                } else {
                    assert(account.locked);
                    assert(account == accounts[c]);
                }
            } else {
                assert(accounts[c].locked);
            }
            if !(c == a.client_id && tx.transaction_type == TransactionType::Chargeback) {
                let id = choose|id: TransactionId| #[trigger]
                    txs.contains_key(id) && txs[id].client_id == c && txs[id].transaction_type
                        == TransactionType::Chargeback;
                if id == t.id {
                    assert(existing == Some(txs[id]));
                }
                assert(txs2.contains_key(id) && txs2[id].client_id == c);
            }
        }
    }
}

/// The databases' invariant holds after any sequence of transactions.
pub proof fn law_run_keeps_invariant(txs: Seq<Transaction>)
    ensures
        ledger_inv(run_spec(txs).0, run_spec(txs).1),
    decreases txs.len(),
{
    if txs.len() > 0 {
        law_run_keeps_invariant(txs.drop_last());
        let prev = run_spec(txs.drop_last());
        law_process_keeps_invariant(prev.0, prev.1, txs.last());
    }
}


/// After any sequence of transactions, an account is locked exactly when its
/// client has a charged-back transaction.
pub proof fn law_locked_iff_charged_back(txs: Seq<Transaction>, client_id: ClientId)
    requires
        run_spec(txs).0.contains_key(client_id),
    ensures
        run_spec(txs).0[client_id].locked <==> charged_back(run_spec(txs).1, client_id),
{
    law_run_keeps_invariant(txs);
}

/// The lifecycle of a recorded transaction: a deposit, or a resolved deposit,
/// may be disputed; a dispute may be resolved or charged back. Nothing else
/// moves a record; withdrawals and chargebacks never move.
pub open spec fn lifecycle_step(from: TransactionType, to: TransactionType) -> bool {
    ||| from == to
    ||| (from == TransactionType::Deposit || from == TransactionType::Resolve) && to
        == TransactionType::Dispute
    ||| from == TransactionType::Dispute && (to == TransactionType::Resolve || to
        == TransactionType::Chargeback)
}

/// A recorded transaction stays recorded, keeps its client and its amount, and
/// its kind only moves along the dispute lifecycle.
pub proof fn law_record_lifecycle(
    accounts: Map<ClientId, Account>,
    txs: Map<TransactionId, Transaction>,
    tx: Transaction,
    id: TransactionId,
)
    requires
        txs.contains_key(id),
    ensures
        ({
            let txs2 = process_spec(accounts, txs, tx).2;
            &&& txs2.contains_key(id)
            &&& txs2[id].client_id == txs[id].client_id
            &&& txs2[id].amount == txs[id].amount
            &&& lifecycle_step(txs[id].transaction_type, txs2[id].transaction_type)
        }),
{
    let account = crate::payment_system::account_for(accounts, tx.client_id);
    law_apply_keeps_identity(account, tx, crate::payment_system::recorded(txs, tx.id));
}

/// A recorded withdrawal, and a recorded chargeback, never change again.
pub proof fn law_withdrawals_and_chargebacks_are_final(
    accounts: Map<ClientId, Account>,
    txs: Map<TransactionId, Transaction>,
    tx: Transaction,
    id: TransactionId,
)
    requires
        txs.contains_key(id),
        txs[id].transaction_type == TransactionType::Withdrawal || txs[id].transaction_type
            == TransactionType::Chargeback,
    ensures
        process_spec(accounts, txs, tx).2[id] == txs[id],
{
    law_record_lifecycle(accounts, txs, tx, id);
}

/// Once an account is locked, it stays exactly as it is through every later
/// transaction.
pub proof fn law_locked_account_frozen_forever(txs: Seq<Transaction>, i: int, client_id: ClientId)
    requires
        0 <= i <= txs.len(),
        run_spec(txs.take(i)).0.contains_key(client_id),
        run_spec(txs.take(i)).0[client_id].locked,
    ensures
        run_spec(txs).0.contains_key(client_id),
        run_spec(txs).0[client_id] == run_spec(txs.take(i)).0[client_id],
    decreases txs.len(),
{
    if i == txs.len() {
        assert(txs.take(i) =~= txs);
    } else {
        let prefix = txs.drop_last();
        assert(prefix.take(i) =~= txs.take(i));
        law_locked_account_frozen_forever(prefix, i, client_id);
        law_run_keeps_invariant(prefix);
        let prev = run_spec(prefix);
        law_locked_account_frozen(prev.0, prev.1, txs.last(), client_id);
    }
}


/// The transactions of `txs` with id `id` that were applied, in arrival order.
pub open spec fn applied_rows(txs: Seq<Transaction>, id: TransactionId) -> Seq<Transaction>
    decreases txs.len(),
{
    if txs.len() == 0 {
        Seq::empty()
    } else {
        let prev = run_spec(txs.drop_last());
        let rows = applied_rows(txs.drop_last(), id);
        if txs.last().id == id && process_spec(prev.0, prev.1, txs.last()).0 {
            rows.push(txs.last())
        } else {
            rows
        }
    }
}

/// One step of the lifecycle of a transaction id, from its recorded kind
/// (`None` before anything was recorded) on an applied transaction of kind `k`:
/// the new recorded kind, or `None` where the step is not allowed.
pub open spec fn lifecycle_next(cur: Option<TransactionType>, k: TransactionType) -> Option<
    Option<TransactionType>,
> {
    match cur {
        None => if k == TransactionType::Deposit || k == TransactionType::Withdrawal {
            Some(Some(k))
        } else {
            None
        },
        Some(c) => if (c == TransactionType::Deposit || c == TransactionType::Resolve) && k
            == TransactionType::Dispute {
            Some(Some(k))
        } else if c == TransactionType::Dispute && (k == TransactionType::Resolve || k
            == TransactionType::Chargeback) {
            Some(Some(k))
        } else {
            None
        },
    }
}

/// Walks the lifecycle along the kinds of `rows`: the final recorded kind, or
/// `None` where some step is not allowed. The walks that succeed are exactly
/// the kind sequences `Withdrawal | Deposit (Dispute Resolve)* (Dispute Chargeback?)?`.
pub open spec fn lifecycle_walk(rows: Seq<Transaction>) -> Option<Option<TransactionType>>
    decreases rows.len(),
{
    if rows.len() == 0 {
        Some(None)
    } else {
        match lifecycle_walk(rows.drop_last()) {
            Some(cur) => lifecycle_next(cur, rows.last().transaction_type),
            None => None,
        }
    }
}

/// Over a whole run, the applied transactions with one id follow the dispute
/// lifecycle: a withdrawal alone, or a deposit followed by disputes each
/// resolved, the last one possibly open or charged back. Their walk ends in the
/// recorded kind, and they all belong to the recorded client.
pub proof fn law_run_lifecycle(txs: Seq<Transaction>, id: TransactionId)
    ensures
        ({
            let rows = applied_rows(txs, id);
            let recs = run_spec(txs).1;
            &&& rows.len() > 0 <==> recs.contains_key(id)
            &&& lifecycle_walk(rows) == if recs.contains_key(id) {
                Some(Some(recs[id].transaction_type))
            } else {
                Some(None::<TransactionType>)
            }
            &&& forall|i: int| 0 <= i < rows.len() ==> #[trigger] rows[i].client_id == recs[id].client_id
        }),
    decreases txs.len(),
{
    if txs.len() > 0 {
        let prefix = txs.drop_last();
        law_run_lifecycle(prefix, id);
        law_run_keeps_invariant(prefix);
        let prev = run_spec(prefix);
        let tx = txs.last();
        let account = crate::payment_system::account_for(prev.0, tx.client_id);
        let existing = crate::payment_system::recorded(prev.1, tx.id);
        law_apply_keeps_identity(account, tx, existing);
        let rows_prev = applied_rows(prefix, id);
        let rows = applied_rows(txs, id);
        if tx.id == id && process_spec(prev.0, prev.1, tx).0 {
            assert(rows.drop_last() =~= rows_prev);
            assert forall|i: int| 0 <= i < rows.len() implies #[trigger] rows[i].client_id
                == run_spec(txs).1[id].client_id by {
                if i < rows_prev.len() {
                    assert(rows[i] == rows_prev[i]);
                }
            }
        }
    }
}


/// A transaction that is refused (without reaching a decimal overflow) leaves
/// no trace: the run with it ends in the same databases as the run without it.
pub proof fn law_refused_row_is_invisible(txs: Seq<Transaction>, j: int, row: Transaction)
    requires
        0 <= j <= txs.len(),
        !process_spec(run_spec(txs.take(j)).0, run_spec(txs.take(j)).1, row).0,
        !process_overflows(run_spec(txs.take(j)).0, run_spec(txs.take(j)).1, row),
    ensures
        run_spec(txs.insert(j, row)) == run_spec(txs),
        run_overflows(txs.insert(j, row)) == run_overflows(txs),
    decreases txs.len(),
{
    if j == txs.len() {
        assert(txs.take(j) =~= txs);
        assert(txs.insert(j, row).drop_last() =~= txs);
    } else {
        let prefix = txs.drop_last();
        assert(prefix.take(j) =~= txs.take(j));
        law_refused_row_is_invisible(prefix, j, row);
        assert(txs.insert(j, row).drop_last() =~= prefix.insert(j, row));
        assert(txs.insert(j, row).last() == txs.last());
    }
}

/// A transaction of a client whose account is locked, arriving at any point
/// after the lock, changes nothing: the run with it ends in the same databases
/// (and the same summary) as the run without it.
pub proof fn law_locked_client_rows_ignored(
    txs: Seq<Transaction>,
    i: int,
    j: int,
    row: Transaction,
)
    requires
        0 <= i <= j <= txs.len(),
        run_spec(txs.take(i)).0.contains_key(row.client_id),
        run_spec(txs.take(i)).0[row.client_id].locked,
    ensures
        run_spec(txs.insert(j, row)) == run_spec(txs),
        run_overflows(txs.insert(j, row)) == run_overflows(txs),
{
    let s = txs.take(j);
    assert(s.take(i) =~= txs.take(i));
    law_locked_account_frozen_forever(s, i, row.client_id);
    law_run_keeps_invariant(s);
    law_refused_row_is_invisible(txs, j, row);
}


/// A deposit or withdrawal is valid exactly when its id is not recorded yet
/// and it carries an amount, whatever the amount's value or number of decimal
/// places.
pub proof fn law_deposit_withdrawal_validity(tx: Transaction, existing: Option<Transaction>)
    requires
        tx.transaction_type == TransactionType::Deposit || tx.transaction_type
            == TransactionType::Withdrawal,
    ensures
        is_valid_spec(tx, existing) <==> (existing is None && tx.amount is Some),
{
}

/// A deposit with a fresh id and an amount, on an unlocked account, is always
/// applied (where the sum does not overflow), whatever the held funds: the
/// amount is added to the available funds, nothing else changes, and the
/// deposit itself is recorded.
pub proof fn law_deposit_always_applies(account: Account, tx: Transaction, amount: Amount)
    requires
        !account.locked,
        tx.transaction_type == TransactionType::Deposit,
        tx.amount == Some(amount),
        amount_add(account.available, amount) is Some,
    ensures
        apply_spec(account, tx, None) matches Some((a, t)) && {
            &&& Some(a.available) == amount_add(account.available, amount)
            &&& a.held == account.held
            &&& a.locked == account.locked
            &&& a.client_id == account.client_id
            &&& t == tx
        },
        exact_add(account.available, amount) ==> apply_spec(account, tx, None).unwrap().0.available@
            == account.available@ + amount@,
{
}

/// A withdrawal with a fresh id and an amount, on an unlocked account, is
/// applied exactly when the available funds less the amount are not below
/// zero; held funds do not count. An applied withdrawal takes the amount from
/// the available funds only, and never leaves them below zero.
pub proof fn law_withdrawal_needs_available_funds(account: Account, tx: Transaction, amount: Amount)
    requires
        !account.locked,
        tx.transaction_type == TransactionType::Withdrawal,
        tx.amount == Some(amount),
        amount_sub(account.available, amount) is Some,
    ensures
        apply_spec(account, tx, None) is Some <==> amount_sub(account.available, amount).unwrap()@
            >= 0,
        exact_sub(account.available, amount) ==> (apply_spec(account, tx, None) is Some <==> account.available@
            - amount@ >= 0),
        apply_spec(account, tx, None) matches Some((a, t)) ==> {
            &&& Some(a.available) == amount_sub(account.available, amount)
            &&& a.available@ >= 0
            &&& a.held == account.held
            &&& a.locked == account.locked
            &&& t == tx
        },
{
}

/// Whatever applied transaction is a withdrawal leaves the available funds at
/// zero or above.
pub proof fn law_applied_withdrawal_not_negative(
    account: Account,
    tx: Transaction,
    existing: Option<Transaction>,
)
    requires
        tx.transaction_type == TransactionType::Withdrawal,
    ensures
        apply_spec(account, tx, existing) matches Some((a, t)) ==> a.available@ >= 0,
{
}

/// A dispute of a recorded deposit (or resolved deposit) of the same client, on
/// an unlocked account, is always applied (where the arithmetic does not
/// overflow), whatever the funds: the recorded amount moves from available to
/// held.
pub proof fn law_dispute_always_applies(account: Account, tx: Transaction, e: Transaction)
    requires
        !account.locked,
        tx.transaction_type == TransactionType::Dispute,
        e.client_id == tx.client_id,
        e.amount is Some,
        e.transaction_type == TransactionType::Deposit || e.transaction_type
            == TransactionType::Resolve,
        amount_sub(account.available, e.amount.unwrap()) is Some,
        amount_add(account.held, e.amount.unwrap()) is Some,
    ensures
        apply_spec(account, tx, Some(e)) matches Some((a, t)) && {
            &&& Some(a.available) == amount_sub(account.available, e.amount.unwrap())
            &&& Some(a.held) == amount_add(account.held, e.amount.unwrap())
            &&& a.locked == account.locked
            &&& t.transaction_type == TransactionType::Dispute
            &&& t.amount == e.amount
        },
{
}

/// A resolve of a recorded dispute of the same client, on an unlocked account,
/// is always applied (where the arithmetic does not overflow), whatever the
/// available funds: the disputed amount moves from held back to available.
pub proof fn law_resolve_always_applies(account: Account, tx: Transaction, e: Transaction)
    requires
        !account.locked,
        tx.transaction_type == TransactionType::Resolve,
        e.client_id == tx.client_id,
        e.amount is Some,
        e.transaction_type == TransactionType::Dispute,
        amount_add(account.available, e.amount.unwrap()) is Some,
        amount_sub(account.held, e.amount.unwrap()) is Some,
    ensures
        apply_spec(account, tx, Some(e)) matches Some((a, t)) && {
            &&& Some(a.available) == amount_add(account.available, e.amount.unwrap())
            &&& Some(a.held) == amount_sub(account.held, e.amount.unwrap())
            &&& a.locked == account.locked
            &&& t.transaction_type == TransactionType::Resolve
            &&& t.amount == e.amount
        },
        exact_add(account.available, e.amount.unwrap()) && exact_sub(account.held, e.amount.unwrap())
            ==> {
            let a = apply_spec(account, tx, Some(e)).unwrap().0;
            &&& a.available@ == account.available@ + e.amount.unwrap()@
            &&& a.held@ == account.held@ - e.amount.unwrap()@
        },
{
}

/// A chargeback of a recorded dispute of the same client, on an unlocked
/// account, is always applied (where the difference does not overflow),
/// whatever the available funds: the disputed amount leaves the held funds,
/// the available funds stay, and the account is locked.
pub proof fn law_chargeback_always_applies(account: Account, tx: Transaction, e: Transaction)
    requires
        !account.locked,
        tx.transaction_type == TransactionType::Chargeback,
        e.client_id == tx.client_id,
        e.amount is Some,
        e.transaction_type == TransactionType::Dispute,
        amount_sub(account.held, e.amount.unwrap()) is Some,
    ensures
        apply_spec(account, tx, Some(e)) matches Some((a, t)) && {
            &&& a.available == account.available
            &&& Some(a.held) == amount_sub(account.held, e.amount.unwrap())
            &&& a.locked
            &&& t.transaction_type == TransactionType::Chargeback
            &&& t.amount == e.amount
        },
        exact_sub(account.held, e.amount.unwrap()) ==> apply_spec(account, tx, Some(e)).unwrap().0.held@
            == account.held@ - e.amount.unwrap()@,
{
}


/// A deposit with a fresh id always reaches the databases (where the sum does
/// not overflow), for a new client as for an unlocked existing one: the
/// client's account holds the sum as its available funds and the deposit is
/// recorded under its id.
pub proof fn law_process_deposit_recorded(
    accounts: Map<ClientId, Account>,
    txs: Map<TransactionId, Transaction>,
    tx: Transaction,
    amount: Amount,
)
    requires
        ledger_inv(accounts, txs),
        tx.transaction_type == TransactionType::Deposit,
        tx.amount == Some(amount),
        !txs.contains_key(tx.id),
        !crate::payment_system::account_for(accounts, tx.client_id).locked,
        amount_add(crate::payment_system::account_for(accounts, tx.client_id).available, amount) is Some,
    ensures
        ({
            let (applied, accounts2, txs2) = process_spec(accounts, txs, tx);
            let before = crate::payment_system::account_for(accounts, tx.client_id);
            &&& applied
            &&& accounts2.contains_key(tx.client_id)
            &&& Some(accounts2[tx.client_id].available) == amount_add(before.available, amount)
            &&& accounts2[tx.client_id].held == before.held
            &&& txs2 == txs.insert(tx.id, tx)
        }),
{
    law_deposit_always_applies(crate::payment_system::account_for(accounts, tx.client_id), tx, amount);
}

} // verus!
