use loyalty_microservice::calendar::{Date, Timestamp};
use loyalty_microservice::loyalty::{Account, AccountExt};
use loyalty_microservice::prelude::ServiceError;
use loyalty_microservice::repository::{
    Repository, CUSTOMER_HAS_ACCOUNT, ID_TAKEN, OBJECT_NOT_FOUND,
};

fn day(text: &str) -> Date {
    Date::parse(text).unwrap()
}

fn account(account_id: u128, customer_id: u32, birthdate: &str) -> Account {
    Account::open(account_id, customer_id, day(birthdate), 1, Timestamp::now())
}

fn three() -> Repository {
    let mut repository = Repository::new();
    repository.insert(account(10, 1, "1990-01-01")).unwrap();
    repository.insert(account(20, 2, "1988-10-15")).unwrap();
    repository.insert(account(30, 3, "1990-01-01")).unwrap();
    repository
}

#[test]
fn accounts_are_kept_in_the_order_of_insertion() {
    let repository = three();
    assert_eq!(repository.len(), 3);
    assert_eq!(repository.get(0).account_id, 10);
    assert_eq!(repository.get(1).account_id, 20);
    assert_eq!(repository.get(2).account_id, 30);
    assert_eq!(Repository::new().len(), 0);
}

#[test]
fn second_account_of_a_customer_is_refused() {
    let mut repository = three();
    let refused = repository.insert(account(40, 2, "2000-01-01"));
    assert!(matches!(refused, Err(ServiceError::AlreadyExists(ref msg)) if msg == CUSTOMER_HAS_ACCOUNT));
    assert_eq!(repository.len(), 3);
    assert_eq!(repository.position_of_id(40), None);
}

#[test]
fn taken_identifier_is_refused() {
    let mut repository = three();
    let refused = repository.insert(account(20, 9, "2000-01-01"));
    assert!(matches!(refused, Err(ServiceError::InternalError(ref msg)) if msg == ID_TAKEN));
    assert_eq!(repository.len(), 3);
    assert_eq!(repository.position_of_customer(9), None);
    let both = repository.insert(account(20, 2, "2000-01-01"));
    assert!(matches!(both, Err(ServiceError::AlreadyExists(_))));
}

#[test]
fn accounts_are_found_by_identifier() {
    let repository = three();
    assert_eq!(repository.position_of_id(10), Some(0));
    assert_eq!(repository.position_of_id(30), Some(2));
    assert_eq!(repository.position_of_id(11), None);
    assert_eq!(repository.find_id(20).map(|a| a.customer_id).ok(), Some(2));
    let missing = repository.find_id(21).map(|a| a.customer_id);
    assert!(matches!(missing, Err(ServiceError::NotFound(ref msg)) if msg == OBJECT_NOT_FOUND));
}

#[test]
fn accounts_are_found_by_customer_card_and_query() {
    let mut repository = three();
    assert_eq!(repository.position_of_customer(3), Some(2));
    assert_eq!(repository.position_of_customer(4), None);

    assert_eq!(repository.position_of_card("1ab"), None);
    assert_eq!(repository.position_of_card(""), None);
    repository.get_mut(2).set_card("1ab".to_string(), true).unwrap();
    repository.get_mut(1).set_card("1ab".to_string(), true).unwrap();
    repository.get_mut(0).set_card("dccf".to_string(), true).unwrap();
    assert_eq!(repository.position_of_card("1ab"), Some(1));
    assert_eq!(repository.position_of_card("dccf"), Some(0));
    assert_eq!(repository.position_of_card("1AB"), None);

    assert_eq!(repository.position_of_query(3, day("1990-01-01")), Some(2));
    assert_eq!(repository.position_of_query(1, day("1990-01-01")), Some(0));
    assert_eq!(repository.position_of_query(1, day("1988-10-15")), None);
    assert_eq!(repository.position_of_query(4, day("1990-01-01")), None);
}

#[test]
fn accounts_are_changed_in_place() {
    let mut repository = three();
    repository.get_mut(1).set_birthdate(day("2001-02-03"));
    assert_eq!(repository.get(1).customer_birthdate, day("2001-02-03"));
    assert_eq!(repository.get(0).customer_birthdate, day("1990-01-01"));
    assert_eq!(repository.get(2).customer_birthdate, day("1990-01-01"));
    assert_eq!(repository.len(), 3);
}
