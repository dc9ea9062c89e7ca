use rust_decimal::Decimal;
use squidward::payment_system::account::Account;
use squidward::payment_system::account::Accounts;
use squidward::payment_system::accounts_summary;
use squidward::payment_system::apply_transaction;
use squidward::payment_system::apply_would_overflow;
use squidward::payment_system::chargeback;
use squidward::payment_system::checked_process_transaction;
use squidward::payment_system::database::Database;
use squidward::payment_system::deposit;
use squidward::payment_system::dispute;
use squidward::payment_system::is_valid_transaction;
use squidward::payment_system::process_transaction;
use squidward::payment_system::resolve;
use squidward::payment_system::simulate;
use squidward::payment_system::transaction::Transaction;
use squidward::payment_system::transaction::TransactionType;
use squidward::payment_system::withdraw;
use squidward::payment_system::Transactions;
use squidward::payment_system::types::Amount;
use std::str::FromStr;

fn amount(text: &str) -> Amount {
    let d = Decimal::from_str(text).unwrap();
    Amount::new(d.mantissa(), d.scale()).unwrap()
}

fn tx(kind: TransactionType, client: u16, id: u32, value: Option<&str>) -> Transaction {
    Transaction::new(id, kind, client, value.map(amount))
}

fn summary(accounts: &Accounts) -> Vec<String> {
    accounts_summary(accounts).unwrap()
}

#[test]
fn deposit_adds_to_available() {
    let mut a = Account::new(1);
    assert!(deposit(&mut a, &amount("1.5")));
    assert!(deposit(&mut a, &amount("2.25")));
    assert_eq!(*a.available_funds(), amount("3.75"));
    assert_eq!(*a.held_funds(), Amount::zero());
}

#[test]
fn deposit_overflow_is_detected_before_processing() {
    let max = Amount::new(79228162514264337593543950335, 0).unwrap();
    let mut a = Account::new(1);
    assert!(deposit(&mut a, &max));
    let t = Transaction::new(2, TransactionType::Deposit, 1, Some(amount("1")));
    assert!(apply_would_overflow(&a, &t, None));
    let w = Transaction::new(3, TransactionType::Withdrawal, 1, Some(amount("1")));
    assert!(!apply_would_overflow(&a, &w, None));

    let mut accounts = Accounts::new();
    let mut transactions = Transactions::new();
    let first = Transaction::new(1, TransactionType::Deposit, 1, Some(max));
    assert_eq!(checked_process_transaction(&mut accounts, &mut transactions, first), Some(true));
    assert_eq!(checked_process_transaction(&mut accounts, &mut transactions, t), None);
    assert_eq!(*Database::retrieve(&accounts, &1).unwrap().unwrap().available_funds(), max);
    assert_eq!(transactions.len(), 1);
    assert!(simulate(vec![first, t]).is_none());
}

#[test]
fn withdraw_refuses_overdraft() {
    let mut a = Account::new(1);
    assert!(deposit(&mut a, &amount("2")));
    assert!(!withdraw(&mut a, &amount("2.0001")));
    assert_eq!(*a.available_funds(), amount("2"));
    assert!(withdraw(&mut a, &amount("2")));
    assert!(!a.available_funds().is_negative());
    assert_eq!(a.available_funds().normalize(), amount("0"));
}

#[test]
fn dispute_resolve_and_chargeback_move_funds() {
    let mut a = Account::new(1);
    assert!(deposit(&mut a, &amount("10")));
    let mut d = tx(TransactionType::Dispute, 1, 7, None);
    assert!(dispute(&mut a, &mut d, TransactionType::Deposit, &amount("4")));
    assert_eq!(*a.available_funds(), amount("6"));
    assert_eq!(*a.held_funds(), amount("4"));
    assert_eq!(d.amount, Some(amount("4")));
    assert_eq!(d.transaction_type, TransactionType::Dispute);

    let mut r = tx(TransactionType::Resolve, 1, 7, None);
    assert!(!resolve(&mut a, &mut r, TransactionType::Deposit, &amount("4")));
    assert!(resolve(&mut a, &mut r, TransactionType::Dispute, &amount("4")));
    assert_eq!(*a.available_funds(), amount("10"));
    assert_eq!(*a.held_funds(), amount("0"));
    assert_eq!(r.transaction_type, TransactionType::Resolve);

    let mut d2 = tx(TransactionType::Dispute, 1, 7, None);
    assert!(dispute(&mut a, &mut d2, TransactionType::Resolve, &amount("4")));
    let mut c = tx(TransactionType::Chargeback, 1, 7, None);
    assert!(!chargeback(&mut a, &mut c, TransactionType::Resolve, &amount("4")));
    assert!(chargeback(&mut a, &mut c, TransactionType::Dispute, &amount("4")));
    assert!(a.locked());
    assert_eq!(*a.available_funds(), amount("6"));
    assert_eq!(*a.held_funds(), amount("0"));
    assert_eq!(c.transaction_type, TransactionType::Chargeback);
    assert_eq!(c.amount, Some(amount("4")));
}

#[test]
fn withdrawals_cannot_be_disputed() {
    let mut a = Account::new(1);
    assert!(deposit(&mut a, &amount("10")));
    let mut d = tx(TransactionType::Dispute, 1, 2, None);
    assert!(!dispute(&mut a, &mut d, TransactionType::Withdrawal, &amount("4")));
    assert!(!dispute(&mut a, &mut d, TransactionType::Dispute, &amount("4")));
    assert_eq!(*a.available_funds(), amount("10"));
    assert_eq!(d.amount, None);
}

#[test]
fn validity_rules() {
    let deposit1 = tx(TransactionType::Deposit, 1, 1, Some("1"));
    let no_amount = tx(TransactionType::Deposit, 1, 2, None);
    let dispute_same = tx(TransactionType::Dispute, 1, 1, None);
    let dispute_other = tx(TransactionType::Dispute, 2, 1, None);
    assert!(is_valid_transaction(&deposit1, &None));
    assert!(!is_valid_transaction(&deposit1, &Some(&deposit1)));
    assert!(!is_valid_transaction(&no_amount, &None));
    assert!(!is_valid_transaction(&dispute_same, &None));
    assert!(is_valid_transaction(&dispute_same, &Some(&deposit1)));
    assert!(!is_valid_transaction(&dispute_other, &Some(&deposit1)));
    assert!(!is_valid_transaction(&dispute_same, &Some(&no_amount)));
}

#[test]
fn locked_account_refuses_everything() {
    let mut a = Account::new(1);
    a.lock();
    let mut t = tx(TransactionType::Deposit, 1, 1, Some("5"));
    assert!(!apply_transaction(&mut a, &mut t, None));
    assert_eq!(*a.available_funds(), Amount::zero());
}

#[test]
fn apply_dispute_copies_the_disputed_amount() {
    let mut a = Account::new(3);
    let recorded = tx(TransactionType::Deposit, 3, 9, Some("2.5"));
    let mut first = recorded;
    assert!(apply_transaction(&mut a, &mut first, None));
    let mut d = tx(TransactionType::Dispute, 3, 9, None);
    assert!(apply_transaction(&mut a, &mut d, Some(&recorded)));
    assert_eq!(d.amount, Some(amount("2.5")));
    assert_eq!(*a.available_funds(), amount("0.0"));
    assert_eq!(*a.held_funds(), amount("2.5"));
}

#[test]
fn open_disputes_are_held_until_settled() {
    let txs = vec![
        tx(TransactionType::Deposit, 1, 1, Some("1.25")),
        tx(TransactionType::Deposit, 1, 2, Some("2.5")),
        tx(TransactionType::Deposit, 1, 3, Some("4")),
        tx(TransactionType::Withdrawal, 1, 4, Some("0.75")),
        tx(TransactionType::Dispute, 1, 1, None),
        tx(TransactionType::Dispute, 1, 2, None),
        tx(TransactionType::Dispute, 1, 3, None),
        tx(TransactionType::Resolve, 1, 2, None),
    ];
    let accounts = simulate(txs).unwrap();
    // held = 1.25 + 4 (disputes 1 and 3 open); total = 1.25 + 2.5 + 4 - 0.75
    assert_eq!(summary(&accounts)[1], "1,1.75,5.25,7,false".to_string());
}

#[test]
fn simulate_basic_scenario() {
    let txs = vec![
        tx(TransactionType::Deposit, 1, 1, Some("1.0")),
        tx(TransactionType::Deposit, 2, 2, Some("2.0")),
        tx(TransactionType::Deposit, 1, 3, Some("2.0")),
        tx(TransactionType::Withdrawal, 1, 4, Some("1.5")),
        tx(TransactionType::Withdrawal, 2, 5, Some("3.0")),
    ];
    let accounts = simulate(txs).unwrap();
    assert_eq!(
        summary(&accounts),
        vec![
            "client,available,held,total,locked".to_string(),
            "1,1.5,0,1.5,false".to_string(),
            "2,2,0,2,false".to_string(),
        ]
    );
}

#[test]
fn simulate_duplicate_ids_only_first_applies() {
    let txs = vec![
        tx(TransactionType::Deposit, 1, 1, Some("1.0")),
        tx(TransactionType::Deposit, 1, 1, Some("2.0")),
        tx(TransactionType::Withdrawal, 1, 1, Some("5.0")),
    ];
    let accounts = simulate(txs).unwrap();
    assert_eq!(summary(&accounts)[1], "1,1,0,1,false".to_string());
}

#[test]
fn simulate_first_transaction_must_be_a_deposit() {
    let txs = vec![tx(TransactionType::Withdrawal, 1, 1, Some("1.0"))];
    let accounts = simulate(txs).unwrap();
    assert_eq!(summary(&accounts), vec!["client,available,held,total,locked".to_string()]);
}

#[test]
fn zero_or_negative_first_withdrawal_records_nothing() {
    let mut accounts = Accounts::new();
    let mut transactions = Transactions::new();
    let zero = tx(TransactionType::Withdrawal, 1, 1, Some("0"));
    let negative = tx(TransactionType::Withdrawal, 2, 2, Some("-3"));
    assert_eq!(checked_process_transaction(&mut accounts, &mut transactions, zero), Some(false));
    assert_eq!(checked_process_transaction(&mut accounts, &mut transactions, negative), Some(false));
    assert_eq!(accounts.len(), 0);
    assert_eq!(transactions.len(), 0);
    // the id of the refused withdrawal is still free for a deposit
    let deposit1 = tx(TransactionType::Deposit, 1, 1, Some("2"));
    assert_eq!(checked_process_transaction(&mut accounts, &mut transactions, deposit1), Some(true));
    // once the account exists, a withdrawal of zero is applied
    let zero_again = tx(TransactionType::Withdrawal, 1, 3, Some("0"));
    assert_eq!(checked_process_transaction(&mut accounts, &mut transactions, zero_again), Some(true));
    assert_eq!(summary(&accounts)[1], "1,2,0,2,false".to_string());
}

#[test]
fn rows_of_a_locked_client_change_nothing() {
    let base = vec![
        tx(TransactionType::Deposit, 1, 1, Some("10")),
        tx(TransactionType::Deposit, 2, 2, Some("1")),
        tx(TransactionType::Dispute, 1, 1, None),
        tx(TransactionType::Chargeback, 1, 1, None),
        tx(TransactionType::Deposit, 2, 3, Some("1")),
    ];
    let mut extended = base.clone();
    extended.insert(4, tx(TransactionType::Deposit, 1, 9, Some("5")));
    extended.push(tx(TransactionType::Dispute, 1, 1, None));
    extended.push(tx(TransactionType::Withdrawal, 1, 10, Some("0")));
    let a = summary(&simulate(base).unwrap());
    let b = summary(&simulate(extended).unwrap());
    assert_eq!(a, b);
    assert_eq!(a[1], "1,0,0,0,true".to_string());
}

#[test]
fn removing_a_refused_row_changes_nothing() {
    let with_refused = vec![
        tx(TransactionType::Deposit, 1, 1, Some("3")),
        tx(TransactionType::Withdrawal, 1, 2, Some("5")),
        tx(TransactionType::Resolve, 1, 1, None),
        tx(TransactionType::Withdrawal, 1, 2, Some("1")),
    ];
    let without = vec![
        tx(TransactionType::Deposit, 1, 1, Some("3")),
        tx(TransactionType::Withdrawal, 1, 2, Some("1")),
    ];
    assert_eq!(summary(&simulate(with_refused).unwrap()), summary(&simulate(without).unwrap()));
}

#[test]
fn record_follows_the_dispute_lifecycle() {
    let mut accounts = Accounts::new();
    let mut transactions = Transactions::new();
    let steps = vec![
        (tx(TransactionType::Deposit, 1, 7, Some("4")), true, TransactionType::Deposit),
        (tx(TransactionType::Resolve, 1, 7, None), false, TransactionType::Deposit),
        (tx(TransactionType::Dispute, 1, 7, None), true, TransactionType::Dispute),
        (tx(TransactionType::Dispute, 1, 7, None), false, TransactionType::Dispute),
        (tx(TransactionType::Resolve, 1, 7, None), true, TransactionType::Resolve),
        (tx(TransactionType::Chargeback, 1, 7, None), false, TransactionType::Resolve),
        (tx(TransactionType::Dispute, 1, 7, None), true, TransactionType::Dispute),
        (tx(TransactionType::Chargeback, 1, 7, None), true, TransactionType::Chargeback),
    ];
    for (t, applied, kind) in steps {
        assert_eq!(checked_process_transaction(&mut accounts, &mut transactions, t), Some(applied));
        let record = Database::retrieve(&transactions, &7).unwrap().unwrap();
        assert_eq!(record.transaction_type, kind);
        assert_eq!(record.client_id, 1);
        assert_eq!(record.amount, Some(amount("4")));
    }
}

#[test]
fn simulate_chargeback_locks_account() {
    let txs = vec![
        tx(TransactionType::Deposit, 1, 1, Some("10")),
        tx(TransactionType::Deposit, 1, 2, Some("5")),
        tx(TransactionType::Dispute, 1, 1, None),
        tx(TransactionType::Dispute, 1, 2, None),
        tx(TransactionType::Chargeback, 1, 1, None),
        tx(TransactionType::Resolve, 1, 2, None),
        tx(TransactionType::Deposit, 1, 3, Some("100")),
    ];
    let accounts = simulate(txs).unwrap();
    assert_eq!(summary(&accounts)[1], "1,0,5,5,true".to_string());
}

#[test]
fn simulate_resolved_deposit_can_be_disputed_again() {
    let txs = vec![
        tx(TransactionType::Deposit, 1, 1, Some("3")),
        tx(TransactionType::Dispute, 1, 1, None),
        tx(TransactionType::Resolve, 1, 1, None),
        tx(TransactionType::Dispute, 1, 1, None),
    ];
    let accounts = simulate(txs).unwrap();
    assert_eq!(summary(&accounts)[1], "1,0,3,3,false".to_string());
}

#[test]
fn simulate_dispute_needs_matching_client_and_deposit() {
    let txs = vec![
        tx(TransactionType::Deposit, 1, 1, Some("3")),
        tx(TransactionType::Deposit, 2, 2, Some("4")),
        tx(TransactionType::Withdrawal, 2, 3, Some("1")),
        tx(TransactionType::Dispute, 2, 1, None),
        tx(TransactionType::Dispute, 2, 3, None),
        tx(TransactionType::Resolve, 1, 1, None),
        tx(TransactionType::Chargeback, 1, 1, None),
        tx(TransactionType::Dispute, 3, 1, None),
    ];
    let accounts = simulate(txs).unwrap();
    assert_eq!(
        summary(&accounts),
        vec![
            "client,available,held,total,locked".to_string(),
            "1,3,0,3,false".to_string(),
            "2,3,0,3,false".to_string(),
        ]
    );
}

#[test]
fn simulate_dispute_after_withdrawal_goes_negative() {
    let txs = vec![
        tx(TransactionType::Deposit, 1, 1, Some("3")),
        tx(TransactionType::Withdrawal, 1, 2, Some("3")),
        tx(TransactionType::Dispute, 1, 1, None),
    ];
    let accounts = simulate(txs).unwrap();
    assert_eq!(summary(&accounts)[1], "1,-3,3,0,false".to_string());
}

#[test]
fn process_records_applied_transactions_only() {
    let mut accounts = Accounts::new();
    let mut transactions = Transactions::new();
    assert!(process_transaction(&mut accounts, &mut transactions, tx(TransactionType::Deposit, 5, 10, Some("1"))));
    assert!(!process_transaction(&mut accounts, &mut transactions, tx(TransactionType::Withdrawal, 6, 11, Some("1"))));
    assert!(!process_transaction(&mut accounts, &mut transactions, tx(TransactionType::Resolve, 5, 10, None)));
    assert!(process_transaction(&mut accounts, &mut transactions, tx(TransactionType::Dispute, 5, 10, None)));
    assert_eq!(accounts.len(), 1);
    assert_eq!(transactions.len(), 1);
    let record = Database::retrieve(&transactions, &10).unwrap().unwrap();
    assert_eq!(record.transaction_type, TransactionType::Dispute);
    assert_eq!(record.amount, Some(amount("1")));
    let account = Database::retrieve(&accounts, &5).unwrap().unwrap();
    assert_eq!(*account.held_funds(), amount("1"));
    assert!(Database::retrieve(&accounts, &6).unwrap().is_none());
}

#[test]
fn database_insert_retrieve_delete() {
    let mut accounts = Accounts::new();
    assert!(Database::insert(&mut accounts, 1, Account::new(1)).is_ok());
    assert_eq!(Database::retrieve(&accounts, &1).unwrap().unwrap().client_id(), 1);
    assert!(Database::delete(&mut accounts, 1).is_ok());
    assert!(Database::retrieve(&accounts, &1).unwrap().is_none());
}
