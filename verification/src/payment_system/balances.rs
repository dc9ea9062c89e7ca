//! How account balances follow from the recorded transactions: the held funds
//! of a client are the amounts of its open disputes, and its total funds are
//! its standing deposits less its withdrawals (where the decimal arithmetic is
//! exact).
use crate::payment_system::account::Account;
use crate::payment_system::account_for;
use crate::payment_system::apply_spec;
use crate::payment_system::laws::law_apply_keeps_identity;
use crate::payment_system::laws::ledger_inv;
use crate::payment_system::process_spec;
use crate::payment_system::recorded;
use crate::payment_system::run_spec;
use crate::payment_system::sums::lemma_sum_update;
use crate::payment_system::sums::lemma_sum_zero;
use crate::payment_system::sums::sum_over;
use crate::payment_system::transaction::Transaction;
use crate::payment_system::transaction::TransactionType;
use crate::payment_system::fits_implies_exact;
use crate::payment_system::types::difference_fits;
use crate::payment_system::types::exact_add;
use crate::payment_system::types::sum_fits;
use crate::payment_system::types::exact_sub;
use crate::payment_system::types::Amount;
use crate::payment_system::types::ClientId;
use crate::payment_system::types::TransactionId;
use vstd::prelude::*;

verus! {

/// What the recorded transaction `id` holds for client `c`: its amount while it
/// is an open dispute of `c`, else nothing.
pub open spec fn held_term(txs: Map<TransactionId, Transaction>, c: ClientId) -> spec_fn(
    TransactionId,
) -> int {
    |id: TransactionId| record_share(txs, id, c, |r: Transaction| held_of(r))
}

/// The sum of the open disputes of client `c`.
pub open spec fn disputed_total(txs: Map<TransactionId, Transaction>, c: ClientId) -> int {
    sum_over(txs.dom(), held_term(txs, c))
}

/// Every account holds exactly the amounts of its client's open disputes.
pub open spec fn held_inv(
    accounts: Map<ClientId, Account>,
    txs: Map<TransactionId, Transaction>,
) -> bool {
    &&& txs.dom().finite()
    &&& forall|c: ClientId| #[trigger]
        accounts.contains_key(c) ==> accounts[c].held@ == disputed_total(txs, c)
}

/// The amount of the recorded transaction a dispute, resolve or chargeback names.
pub open spec fn named_amount(txs: Map<TransactionId, Transaction>, tx: Transaction) -> Amount {
    recorded(txs, tx.id).unwrap().amount.unwrap()
}

/// Where `tx` is applied, the change it makes to the held funds is computed
/// without rounding.
pub open spec fn held_step_exact(
    accounts: Map<ClientId, Account>,
    txs: Map<TransactionId, Transaction>,
    tx: Transaction,
) -> bool {
    let held = account_for(accounts, tx.client_id).held;
    process_spec(accounts, txs, tx).0 ==> match tx.transaction_type {
        TransactionType::Dispute => exact_add(held, named_amount(txs, tx)),
        TransactionType::Resolve | TransactionType::Chargeback => exact_sub(
            held,
            named_amount(txs, tx),
        ),
        _ => true,
    }
}

/// Every held-funds change along the sequence is computed without rounding.
pub open spec fn run_held_exact(txs: Seq<Transaction>) -> bool
    decreases txs.len(),
{
    txs.len() == 0 || (run_held_exact(txs.drop_last()) && {
        let prev = run_spec(txs.drop_last());
        held_step_exact(prev.0, prev.1, txs.last())
    })
}

/// A client without an account has no recorded transactions to sum.
proof fn lemma_no_account_no_records(
    accounts: Map<ClientId, Account>,
    txs: Map<TransactionId, Transaction>,
    c: ClientId,
    f: spec_fn(TransactionId) -> int,
)
    requires
        ledger_inv(accounts, txs),
        !accounts.contains_key(c),
        forall|id: TransactionId| #[trigger]
            txs.contains_key(id) && txs[id].client_id != c ==> f(id) == 0,
    ensures
        sum_over(txs.dom(), f) == 0,
{
    assert forall|id: TransactionId| #[trigger] txs.dom().contains(id) implies f(id) == 0 by {
        assert(txs.contains_key(id));
    }
    lemma_sum_zero(txs.dom(), f);
}


/// What a record holds while it is an open dispute.
pub open spec fn held_of(r: Transaction) -> int {
    if r.transaction_type == TransactionType::Dispute {
        r.amount.unwrap()@
    } else {
        0
    }
}

/// What a record contributes to its client's total funds.
pub open spec fn balance_of(r: Transaction) -> int {
    match r.transaction_type {
        TransactionType::Withdrawal => -r.amount.unwrap()@,
        TransactionType::Chargeback => 0,
        _ => r.amount.unwrap()@,
    }
}

/// What the record under `k`, if any, counts for client `c`.
pub open spec fn record_share(
    txs: Map<TransactionId, Transaction>,
    k: TransactionId,
    c: ClientId,
    share: spec_fn(Transaction) -> int,
) -> int {
    if txs.contains_key(k) && txs[k].client_id == c {
        share(txs[k])
    } else {
        0
    }
}

/// An applied transaction changes the held funds by what the new record holds
/// less what the record it replaces held, and the total funds likewise.
proof fn lemma_apply_changes(account: Account, tx: Transaction, existing: Option<Transaction>)
    requires
        apply_spec(account, tx, existing) is Some,
        existing matches Some(e) ==> e.amount is Some,
        match tx.transaction_type {
            TransactionType::Deposit => exact_add(account.available, tx.amount.unwrap()),
            TransactionType::Withdrawal => exact_sub(account.available, tx.amount.unwrap()),
            TransactionType::Dispute => exact_sub(
                account.available,
                existing.unwrap().amount.unwrap(),
            ) && exact_add(account.held, existing.unwrap().amount.unwrap()),
            TransactionType::Resolve => exact_add(
                account.available,
                existing.unwrap().amount.unwrap(),
            ) && exact_sub(account.held, existing.unwrap().amount.unwrap()),
            TransactionType::Chargeback => exact_sub(account.held, existing.unwrap().amount.unwrap()),
        },
    ensures
        ({
            let (a, t) = apply_spec(account, tx, existing).unwrap();
            let old_held = match existing {
                Some(e) => held_of(e),
                None => 0,
            };
            let old_balance = match existing {
                Some(e) => balance_of(e),
                None => 0,
            };
            &&& existing matches Some(e) ==> e.client_id == tx.client_id
            &&& a.held@ == account.held@ + held_of(t) - old_held
            &&& a.available@ + a.held@ == account.available@ + account.held@ + balance_of(t)
                - old_balance
        }),
{
}

/// An applied transaction changes the held funds by what the new record holds
/// less what the record it replaces held.
proof fn lemma_apply_changes_held(account: Account, tx: Transaction, existing: Option<Transaction>)
    requires
        apply_spec(account, tx, existing) is Some,
        existing matches Some(e) ==> e.amount is Some,
        match tx.transaction_type {
            TransactionType::Dispute => exact_add(account.held, existing.unwrap().amount.unwrap()),
            TransactionType::Resolve | TransactionType::Chargeback => exact_sub(
                account.held,
                existing.unwrap().amount.unwrap(),
            ),
            _ => true,
        },
    ensures
        ({
            let (a, t) = apply_spec(account, tx, existing).unwrap();
            let old_held = match existing {
                Some(e) => held_of(e),
                None => 0,
            };
            &&& existing matches Some(e) ==> e.client_id == tx.client_id
            &&& a.held@ == account.held@ + held_of(t) - old_held
        }),
{
}

/// The step of a sum over the records of client `c` when the record under `k`
/// is replaced by `t`.
proof fn lemma_record_update(
    txs: Map<TransactionId, Transaction>,
    k: TransactionId,
    t: Transaction,
    c: ClientId,
    share: spec_fn(Transaction) -> int,
    f: spec_fn(TransactionId) -> int,
    g: spec_fn(TransactionId) -> int,
)
    requires
        txs.dom().finite(),
        forall|id: TransactionId| #[trigger]
            f(id) == record_share(txs, id, c, share),
        forall|id: TransactionId| #[trigger]
            g(id) == record_share(txs.insert(k, t), id, c, share),
    ensures
        sum_over(txs.insert(k, t).dom(), g) == sum_over(txs.dom(), f) + record_share(
            txs.insert(k, t),
            k,
            c,
            share,
        ) - record_share(txs, k, c, share),
{
    assert(txs.insert(k, t).dom() =~= txs.dom().insert(k));
    assert forall|id: TransactionId| id != k implies #[trigger] f(id) == g(id) by {
        assert(f(id) == record_share(txs, id, c, share));
        assert(g(id) == record_share(txs.insert(k, t), id, c, share));
    }
    assert(f(k) == record_share(txs, k, c, share));
    assert(g(k) == record_share(txs.insert(k, t), k, c, share));
    lemma_sum_update(txs.dom(), f, g, k);
}

/// Each transaction keeps every account's held funds equal to the amounts of
/// its client's open disputes (where the decimal arithmetic is exact).
pub proof fn law_process_keeps_held_inv(
    accounts: Map<ClientId, Account>,
    txs: Map<TransactionId, Transaction>,
    tx: Transaction,
)
    requires
        ledger_inv(accounts, txs),
        held_inv(accounts, txs),
        held_step_exact(accounts, txs, tx),
    ensures
        held_inv(process_spec(accounts, txs, tx).1, process_spec(accounts, txs, tx).2),
{
    let account = account_for(accounts, tx.client_id);
    let existing = recorded(txs, tx.id);
    law_apply_keeps_identity(account, tx, existing);
    let (applied, accounts2, txs2) = process_spec(accounts, txs, tx);
    if applied {
        let (a, t) = apply_spec(account, tx, existing).unwrap();
        let k = tx.id;
        lemma_apply_changes_held(account, tx, existing);
        assert(txs2 == txs.insert(k, t));
        assert(txs2.dom() =~= txs.dom().insert(k));
        assert forall|c: ClientId| #[trigger] accounts2.contains_key(c) implies accounts2[c].held@
            == disputed_total(txs2, c) by {
            let share = |r: Transaction| held_of(r);
            lemma_record_update(txs, k, t, c, share, held_term(txs, c), held_term(txs2, c));
            let old_share = record_share(txs, k, c, share);
            let new_share = record_share(txs2, k, c, share);
            if c == a.client_id {
                assert(accounts2[c] == a);
                assert(new_share == held_of(t));
                if !accounts.contains_key(c) {
                    lemma_no_account_no_records(accounts, txs, c, held_term(txs, c));
                    Amount::lemma_from_parts((0int, 0nat));
                } else {
                    assert(account == accounts[c]);
                }
                assert(old_share == match existing {
                    Some(e) => held_of(e),
                    None => 0,
                });
            } else {
                assert(accounts2[c] == accounts[c]);
                assert(new_share == 0);
                assert(old_share == 0);
            }
        }
    }
}

/// After any sequence of transactions, every account holds exactly the amounts
/// of its client's open disputes (where the decimal arithmetic is exact).
pub proof fn law_held_funds_are_open_disputes(txs: Seq<Transaction>)
    requires
        run_held_exact(txs),
    ensures
        held_inv(run_spec(txs).0, run_spec(txs).1),
    decreases txs.len(),
{
    if txs.len() > 0 {
        law_held_funds_are_open_disputes(txs.drop_last());
        crate::payment_system::laws::law_run_keeps_invariant(txs.drop_last());
        let prev = run_spec(txs.drop_last());
        law_process_keeps_held_inv(prev.0, prev.1, txs.last());
    }
}


/// What the recorded transaction `id` contributes to the total funds of client
/// `c`: a deposit counts while it stands (also while disputed or after being
/// resolved), a withdrawal counts negatively, a charged-back deposit no longer
/// counts.
pub open spec fn total_term(txs: Map<TransactionId, Transaction>, c: ClientId) -> spec_fn(
    TransactionId,
) -> int {
    |id: TransactionId| record_share(txs, id, c, |r: Transaction| balance_of(r))
}

/// The standing deposits of client `c` less its withdrawals.
pub open spec fn recorded_balance(txs: Map<TransactionId, Transaction>, c: ClientId) -> int {
    sum_over(txs.dom(), total_term(txs, c))
}

/// Every account's total funds are its client's standing deposits less its
/// withdrawals.
pub open spec fn balance_inv(
    accounts: Map<ClientId, Account>,
    txs: Map<TransactionId, Transaction>,
) -> bool {
    &&& txs.dom().finite()
    &&& forall|c: ClientId| #[trigger]
        accounts.contains_key(c) ==> accounts[c].available@ + accounts[c].held@
            == recorded_balance(txs, c)
}

/// Where `tx` is applied, every change it makes to the funds is computed
/// without rounding.
pub open spec fn step_exact(
    accounts: Map<ClientId, Account>,
    txs: Map<TransactionId, Transaction>,
    tx: Transaction,
) -> bool {
    let account = account_for(accounts, tx.client_id);
    process_spec(accounts, txs, tx).0 ==> match tx.transaction_type {
        TransactionType::Deposit => exact_add(account.available, tx.amount.unwrap()),
        TransactionType::Withdrawal => exact_sub(account.available, tx.amount.unwrap()),
        TransactionType::Dispute => exact_sub(account.available, named_amount(txs, tx))
            && exact_add(account.held, named_amount(txs, tx)),
        TransactionType::Resolve => exact_add(account.available, named_amount(txs, tx))
            && exact_sub(account.held, named_amount(txs, tx)),
        TransactionType::Chargeback => exact_sub(account.held, named_amount(txs, tx)),
    }
}

/// Every funds change along the sequence is computed without rounding.
pub open spec fn run_exact(txs: Seq<Transaction>) -> bool
    decreases txs.len(),
{
    txs.len() == 0 || (run_exact(txs.drop_last()) && {
        let prev = run_spec(txs.drop_last());
        step_exact(prev.0, prev.1, txs.last())
    })
}

/// Each transaction keeps every account's total funds equal to its client's
/// standing deposits less its withdrawals (where the decimal arithmetic is
/// exact).
pub proof fn law_process_keeps_balance_inv(
    accounts: Map<ClientId, Account>,
    txs: Map<TransactionId, Transaction>,
    tx: Transaction,
)
    requires
        ledger_inv(accounts, txs),
        balance_inv(accounts, txs),
        step_exact(accounts, txs, tx),
    ensures
        balance_inv(process_spec(accounts, txs, tx).1, process_spec(accounts, txs, tx).2),
{
    let account = account_for(accounts, tx.client_id);
    let existing = recorded(txs, tx.id);
    law_apply_keeps_identity(account, tx, existing);
    let (applied, accounts2, txs2) = process_spec(accounts, txs, tx);
    if applied {
        let (a, t) = apply_spec(account, tx, existing).unwrap();
        let k = tx.id;
        lemma_apply_changes(account, tx, existing);
        assert(txs2 == txs.insert(k, t));
        assert(txs2.dom() =~= txs.dom().insert(k));
        assert forall|c: ClientId| #[trigger] accounts2.contains_key(c) implies accounts2[c].available@
            + accounts2[c].held@ == recorded_balance(txs2, c) by {
            let share = |r: Transaction| balance_of(r);
            lemma_record_update(txs, k, t, c, share, total_term(txs, c), total_term(txs2, c));
            let old_share = record_share(txs, k, c, share);
            let new_share = record_share(txs2, k, c, share);
            if c == a.client_id {
                assert(accounts2[c] == a);
                assert(new_share == balance_of(t));
                if !accounts.contains_key(c) {
                    lemma_no_account_no_records(accounts, txs, c, total_term(txs, c));
                    Amount::lemma_from_parts((0int, 0nat));
                } else {
                    assert(account == accounts[c]);
                }
                assert(old_share == match existing {
                    Some(e) => balance_of(e),
                    None => 0,
                });
            } else {
                assert(accounts2[c] == accounts[c]);
                assert(new_share == 0);
                assert(old_share == 0);
            }
        }
    }
}

/// After any sequence of transactions, every account's total funds are its
/// client's standing deposits less its withdrawals (where the decimal
/// arithmetic is exact).
pub proof fn law_total_funds_are_recorded_balance(txs: Seq<Transaction>)
    requires
        run_exact(txs),
    ensures
        balance_inv(run_spec(txs).0, run_spec(txs).1),
    decreases txs.len(),
{
    if txs.len() > 0 {
        law_total_funds_are_recorded_balance(txs.drop_last());
        crate::payment_system::laws::law_run_keeps_invariant(txs.drop_last());
        let prev = run_spec(txs.drop_last());
        law_process_keeps_balance_inv(prev.0, prev.1, txs.last());
    }
}


/// Where `tx` is applied, the exact result of every sum and difference it
/// computes fits in a decimal at the larger scale of its operands.
pub open spec fn step_fits(
    accounts: Map<ClientId, Account>,
    txs: Map<TransactionId, Transaction>,
    tx: Transaction,
) -> bool {
    let account = account_for(accounts, tx.client_id);
    process_spec(accounts, txs, tx).0 ==> match tx.transaction_type {
        TransactionType::Deposit => sum_fits(account.available, tx.amount.unwrap()),
        TransactionType::Withdrawal => difference_fits(account.available, tx.amount.unwrap()),
        TransactionType::Dispute => difference_fits(account.available, named_amount(txs, tx))
            && sum_fits(account.held, named_amount(txs, tx)),
        TransactionType::Resolve => sum_fits(account.available, named_amount(txs, tx))
            && difference_fits(account.held, named_amount(txs, tx)),
        TransactionType::Chargeback => difference_fits(account.held, named_amount(txs, tx)),
    }
}

/// Every sum and difference computed along the sequence fits in a decimal.
pub open spec fn run_fits(txs: Seq<Transaction>) -> bool
    decreases txs.len(),
{
    txs.len() == 0 || (run_fits(txs.drop_last()) && {
        let prev = run_spec(txs.drop_last());
        step_fits(prev.0, prev.1, txs.last())
    })
}

/// Where every result of a step fits, the step computes them exactly.
pub proof fn lemma_step_fits_exact(
    accounts: Map<ClientId, Account>,
    txs: Map<TransactionId, Transaction>,
    tx: Transaction,
)
    requires
        step_fits(accounts, txs, tx),
        process_spec(accounts, txs, tx).0 ==> fits_implies_exact(
            account_for(accounts, tx.client_id),
            tx,
            recorded(txs, tx.id),
        ),
    ensures
        step_exact(accounts, txs, tx),
{
}

/// An exact step changes the held funds exactly.
proof fn lemma_step_exact_held(
    accounts: Map<ClientId, Account>,
    txs: Map<TransactionId, Transaction>,
    tx: Transaction,
)
    requires
        step_exact(accounts, txs, tx),
    ensures
        held_step_exact(accounts, txs, tx),
{
}

/// An exact run changes the held funds exactly.
pub proof fn lemma_run_exact_held(txs: Seq<Transaction>)
    requires
        run_exact(txs),
    ensures
        run_held_exact(txs),
    decreases txs.len(),
{
    if txs.len() > 0 {
        lemma_run_exact_held(txs.drop_last());
        let prev = run_spec(txs.drop_last());
        lemma_step_exact_held(prev.0, prev.1, txs.last());
    }
}

} // verus!
