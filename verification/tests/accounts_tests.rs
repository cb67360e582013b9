use auox::accounts::{account_at, visible_accounts, visible_count, Account};

fn account(number: &str, kind: &str) -> Account {
    Account {
        key: format!("key-{}", number),
        account_number: number.to_string(),
        type_field: kind.to_string(),
        ..Account::default()
    }
}

fn mixed() -> Vec<Account> {
    vec![
        account("1", "CREDITCARD"),
        account("2", "USER"),
        account("3", "CREDITCARD"),
        account("4", "SAVING"),
    ]
}

#[test]
fn credit_card_is_told_by_its_type() {
    assert!(account("1", "CREDITCARD").is_credit_card());
    assert!(!account("1", "USER").is_credit_card());
    assert!(!account("1", "creditcard").is_credit_card());
    assert!(!account("1", "").is_credit_card());
}

#[test]
fn hidden_credit_cards_leave_the_other_rows() {
    assert_eq!(visible_accounts(&mixed(), false), vec![1, 3]);
    assert_eq!(visible_count(&mixed(), false), 2);
}

#[test]
fn shown_credit_cards_give_every_row() {
    assert_eq!(visible_accounts(&mixed(), true), vec![0, 1, 2, 3]);
    assert_eq!(visible_count(&mixed(), true), 4);
}

#[test]
fn no_accounts_no_rows() {
    assert_eq!(visible_accounts(&Vec::new(), false), Vec::<usize>::new());
    assert_eq!(visible_accounts(&Vec::new(), true), Vec::<usize>::new());
}

#[test]
fn only_credit_cards_hidden_gives_no_rows() {
    let cards = vec![account("1", "CREDITCARD"), account("2", "CREDITCARD")];
    assert_eq!(visible_count(&cards, false), 0);
    assert_eq!(account_at(&cards, false, Some(0)), None);
}

#[test]
fn row_maps_to_position_in_full_list() {
    assert_eq!(account_at(&mixed(), false, Some(0)), Some(1));
    assert_eq!(account_at(&mixed(), false, Some(1)), Some(3));
    assert_eq!(account_at(&mixed(), true, Some(2)), Some(2));
}

#[test]
fn row_beyond_list_maps_to_nothing() {
    assert_eq!(account_at(&mixed(), false, Some(2)), None);
    assert_eq!(account_at(&mixed(), true, Some(4)), None);
    assert_eq!(account_at(&mixed(), true, None), None);
}
