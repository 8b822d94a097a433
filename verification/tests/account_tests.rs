use vault_model::account::{
    clone_accounts, init_accounts, rule_account_aliasing, AccountIter, Ledger,
    MAX_ACCOUNT_DATA_LEN,
};

#[test]
fn balances_read_back() {
    let mut ledger = Ledger::new();
    let a = ledger.add_account(25, vec![1, 2, 3]);
    let b = ledger.add_account(99, Vec::new());
    assert_eq!(ledger.account_count(), 2);
    assert_eq!(ledger.lamports(a), 25);
    assert_eq!(ledger.lamports(b), 99);
    assert_eq!(ledger.data_len(a), 3);
    assert!(!ledger.data_is_empty(a));
    assert!(ledger.data_is_empty(b));
}

#[test]
fn clone_aliases_the_account() {
    let mut ledger = Ledger::new();
    let handle = ledger.add_account(7, Vec::new());
    let alias = handle.clone();
    assert_eq!(ledger.lamports(alias), ledger.lamports(handle));

    // a realloc through one handle is observed through the other
    let r = ledger.realloc(handle, 512, false);
    assert!(r.is_ok());
    assert_eq!(ledger.data_len(alias), 512);

    let r = ledger.realloc(alias, 16, false);
    assert!(r.is_ok());
    assert_eq!(ledger.data_len(handle), 16);
}

#[test]
fn realloc_grow_zero_fill_and_shrink() {
    let mut ledger = Ledger::new();
    let acc = ledger.add_account(0, vec![9, 9]);
    assert!(ledger.realloc(acc, 4, true).is_ok());
    assert_eq!(ledger.data_len(acc), 4);
    assert!(ledger.realloc(acc, 1, false).is_ok());
    assert_eq!(ledger.data_len(acc), 1);
    assert!(ledger.realloc(acc, 0, false).is_ok());
    assert!(ledger.data_is_empty(acc));
}

#[test]
fn realloc_over_the_maximum_fails_and_changes_nothing() {
    let mut ledger = Ledger::new();
    let acc = ledger.add_account(3, vec![5]);
    let r = ledger.realloc(acc, MAX_ACCOUNT_DATA_LEN + 1, true);
    assert!(r.is_err());
    assert_eq!(ledger.data_len(acc), 1);
    assert_eq!(ledger.lamports(acc), 3);
    // the maximum itself is accepted
    assert!(ledger.realloc(acc, MAX_ACCOUNT_DATA_LEN, false).is_ok());
    assert_eq!(ledger.data_len(acc), MAX_ACCOUNT_DATA_LEN);
}

#[test]
fn iterator_hands_out_each_account_once_in_order() {
    let mut ledger = Ledger::new();
    let first = ledger.add_account(1, Vec::new());
    let second = ledger.add_account(2, Vec::new());
    let mut iter = AccountIter::new();
    let i0 = iter.next(&ledger).unwrap();
    let i1 = iter.next(&ledger).unwrap();
    assert_eq!(ledger.lamports(i0), ledger.lamports(first));
    assert_eq!(ledger.lamports(i1), ledger.lamports(second));
    assert!(iter.next(&ledger).is_none());
    assert!(iter.next(&ledger).is_none());
}

#[test]
fn clone_accounts_scenario_runs() {
    let mut ledger = Ledger::new();
    ledger.add_account(10, Vec::new());
    ledger.add_account(20, Vec::new());
    clone_accounts(&ledger);
}

#[test]
fn init_accounts_scenario_reaches_two_kibibytes() {
    let mut ledger = Ledger::new();
    let acc = ledger.add_account(0, Vec::new());
    init_accounts(&mut ledger);
    assert_eq!(ledger.data_len(acc), 2048);
}

#[test]
fn aliasing_rule_reports_the_new_length() {
    let mut ledger = Ledger::new();
    let acc = ledger.add_account(0, vec![1, 2, 3, 4]);
    let observed = rule_account_aliasing(&mut ledger, acc, 777, true);
    assert_eq!(observed, 777);
}
