use rust_decimal::Decimal;
use squidward::payment_system::account::Account;
use squidward::payment_system::account::Accounts;
use squidward::payment_system::accounts_summary;
use squidward::payment_system::types::Amount;
use std::str::FromStr;

fn amount(text: &str) -> Amount {
    let d = Decimal::from_str(text).unwrap();
    Amount::new(d.mantissa(), d.scale()).unwrap()
}

fn account(available: &str, held: &str, locked: bool) -> Account {
    Account { client_id: 1, available: amount(available), held: amount(held), locked }
}

#[test]
fn total_funds_correctly_adds_available_and_held_funds() {
    let account1 = account("3", "7", false);
    assert_eq!(account1.total_funds(), amount("10"));

    let account2 = account("-3", "7", false);
    assert_eq!(account2.total_funds(), amount("4"));

    let account3 = account("-10", "7", false);
    assert_eq!(account3.total_funds(), amount("-3"));
}

#[test]
fn account_displays_amounts_with_4_decimal_precision() {
    let account1 = account("1.0002", "0.9998", false);
    assert_eq!("1,1.0002,0.9998,2,false", account1.to_string());
}

#[test]
fn account_rounds_amounts_using_bankers_rounding_strategy() {
    let account1 = account("0.00055", "0.00065", false);
    assert_eq!("1,0.0006,0.0006,0.0012,false", account1.to_string());
}

#[test]
fn account_displays_amounts_without_extraneous_trailing_0s() {
    let account1 = account("0.505", "0.495", false);
    assert_eq!("1,0.505,0.495,1,false", account1.to_string());
}

#[test]
fn new_account_is_empty_and_unlocked() {
    let a = Account::new(42);
    assert_eq!(a.client_id(), 42);
    assert_eq!(*a.available_funds(), Amount::zero());
    assert_eq!(*a.held_funds(), Amount::zero());
    assert!(!a.locked());
    assert_eq!("42,0,0,0,false", a.to_string());
}

#[test]
fn locked_account_displays_true_and_negative_amounts() {
    let a = Account { client_id: 65535, available: amount("-1.5"), held: amount("0"), locked: true };
    assert_eq!("65535,-1.5,0,-1.5,true", a.to_string());
}

#[test]
fn lock_sets_locked_only() {
    let mut a = account("2", "1", false);
    a.lock();
    assert!(a.locked());
    assert_eq!(*a.available_funds(), amount("2"));
    assert_eq!(*a.held_funds(), amount("1"));
}

#[test]
fn mutable_accessors_change_their_field() {
    let mut a = account("2", "1", false);
    *a.available_funds_mut() = amount("5");
    *a.held_funds_mut() = amount("6");
    assert_eq!(*a.available_funds(), amount("5"));
    assert_eq!(*a.held_funds(), amount("6"));
    assert_eq!(a.client_id(), 1);
}

#[test]
fn total_overflow_gives_no_summary() {
    let max = Amount::new(79228162514264337593543950335, 0).unwrap();
    let mut accounts = Accounts::new();
    accounts.insert(3, Account { client_id: 3, available: max, held: max, locked: false });
    accounts.insert(4, Account::new(4));
    assert_eq!(accounts_summary(&accounts), None);
    accounts.remove(&3);
    assert_eq!(
        accounts_summary(&accounts),
        Some(vec!["client,available,held,total,locked".to_string(), "4,0,0,0,false".to_string()])
    );
}
