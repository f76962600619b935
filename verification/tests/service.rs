use loyalty_microservice::calendar::{Date, Timestamp};
use loyalty_microservice::ident::id_to_string;
use loyalty_microservice::loyalty::{Account, LoyaltyLevel, TransactionKind};
use loyalty_microservice::prelude::ServiceError;
use loyalty_microservice::repository::Repository;
use loyalty_microservice::service::{string_to_uuid, LoyaltyService};
use loyalty_microservice::wire;

const FIRST_PURCHASE: &str = "550e8400-e29b-41d4-a716-446655440000";
const SECOND_PURCHASE: &str = "550e8400-e29b-41d4-a716-446655440001";
const NOBODY: &str = "00000000-0000-0000-0000-00000000abcd";

fn service() -> LoyaltyService {
    LoyaltyService::init(Repository::new())
}

fn with_customer_42() -> (LoyaltyService, String) {
    let mut service = service();
    let account = service.create_account(42, "1990-01-01", 1).unwrap();
    (service, account.account_id)
}

fn bad_request(text: &str) -> ServiceError {
    ServiceError::bad_request(text)
}

fn same(a: &ServiceError, b: &ServiceError) -> bool {
    match (a, b) {
        (ServiceError::InternalError(x), ServiceError::InternalError(y)) => x == y,
        (ServiceError::NotFound(x), ServiceError::NotFound(y)) => x == y,
        (ServiceError::AlreadyExists(x), ServiceError::AlreadyExists(y)) => x == y,
        (ServiceError::BadRequest(x), ServiceError::BadRequest(y)) => x == y,
        _ => false,
    }
}

fn assert_fails<T>(outcome: Result<T, ServiceError>, expected: ServiceError) {
    match outcome {
        Ok(_) => panic!("expected {}", expected.to_string()),
        Err(e) => assert!(same(&e, &expected), "{} instead of {}", e.to_string(), expected.to_string()),
    }
}

#[test]
fn created_account_is_empty_on_the_first_level() {
    let mut service = service();
    let account = service.create_account(42, "1990-01-01", 1).unwrap();
    assert_eq!(account.customer_id, 42);
    assert_eq!(account.customer_birthdate, "1990-01-01");
    assert_eq!(account.card_id, "");
    assert_eq!(account.loyalty_level, "L1");
    assert_eq!(account.balance_points, 0);
    assert_eq!(account.yearly_gross_turnover, 0);
    assert_eq!(account.created_by, 1);
    assert!(chrono::DateTime::parse_from_rfc3339(&account.created_at).is_ok());
    assert_eq!(service.get_transactions_all(&account.account_id).unwrap(), vec![]);

    assert_eq!(service.accounts.len(), 1);
    let stored = service.accounts.get(0);
    assert_eq!(id_to_string(stored.account_id), account.account_id);
    assert_eq!(stored.loyalty_level, LoyaltyLevel::L1);
    assert_eq!(stored.customer_birthdate, Date::parse("1990-01-01").unwrap());
    assert!(stored.transactions.is_empty());
    assert_eq!(wire::Account::of(stored), account);
}

#[test]
fn second_account_for_a_customer_already_exists() {
    let (mut service, first) = with_customer_42();
    assert_fails(
        service.create_account(42, "1991-02-02", 2),
        ServiceError::already_exist("A megadott vásárlónak már van törzsvásárlói fiókja!"),
    );
    assert_fails(
        service.create_account(42, "no date", 2),
        ServiceError::already_exist("A megadott vásárlónak már van törzsvásárlói fiókja!"),
    );
    assert_eq!(service.accounts.len(), 1);
    let other = service.create_account(43, "1991-02-02", 2).unwrap();
    assert_ne!(other.account_id, first);
    assert_eq!(service.accounts.len(), 2);
}

#[test]
fn account_with_a_bad_birthdate_is_not_created() {
    let mut service = service();
    assert_fails(
        service.create_account(42, "1990-02-30", 1),
        bad_request("A megadott születési dátum hibás formátumú!"),
    );
    assert_fails(
        service.create_account(42, "", 1),
        bad_request("A megadott születési dátum hibás formátumú!"),
    );
    assert_eq!(service.accounts.len(), 0);
}

#[test]
fn accounts_are_shown_by_customer() {
    let (mut service, id) = with_customer_42();
    service.create_account(43, "1988-10-15", 1).unwrap();
    assert_eq!(service.get_account_by_customer_id(42).unwrap().account_id, id);
    assert_eq!(service.get_account_by_customer_id(43).unwrap().customer_birthdate, "1988-10-15");
    assert_fails(
        service.get_account_by_customer_id(44),
        ServiceError::not_found("A megadott vásárlónak nincs törzsvásárlói fiókja"),
    );
}

#[test]
fn accounts_are_shown_by_card() {
    let (mut service, id) = with_customer_42();
    assert_fails(
        service.get_account_by_card_id("1ab"),
        ServiceError::not_found("A megadott kártyához nem tartozik törzsvásárlói fiók"),
    );
    assert_fails(
        service.get_account_by_card_id(""),
        ServiceError::not_found("A megadott kártyához nem tartozik törzsvásárlói fiók"),
    );
    let set = service.set_card(&id, "1ab".to_string(), true).unwrap();
    assert_eq!(set.card_id, "1ab");
    assert_eq!(set.account_id, id);
    assert_eq!(service.get_account_by_card_id("1ab").unwrap(), set);
    assert_fails(
        service.get_account_by_card_id("1ac"),
        ServiceError::not_found("A megadott kártyához nem tartozik törzsvásárlói fiók"),
    );
}

#[test]
fn accounts_are_shown_by_customer_and_birthdate() {
    let (service, id) = with_customer_42();
    assert_eq!(service.get_account_by_query(42, "1990-01-01").unwrap().account_id, id);
    assert_eq!(service.get_account_by_query(42, "1990-1-1").unwrap().account_id, id);
    assert_fails(
        service.get_account_by_query(42, "1990-01-02"),
        ServiceError::not_found("A kért fiók nem található a megadott adatok alapján!"),
    );
    assert_fails(
        service.get_account_by_query(41, "1990-01-01"),
        ServiceError::not_found("A kért fiók nem található a megadott adatok alapján!"),
    );
    assert_fails(
        service.get_account_by_query(42, "01.01.1990"),
        bad_request("A megadott születési dátum nem megfelelő formátumú"),
    );
}

#[test]
fn card_with_a_failed_checksum_is_refused() {
    let (mut service, id) = with_customer_42();
    service.set_card(&id, "1ab".to_string(), true).unwrap();
    assert_fails(
        service.set_card(&id, "1ac".to_string(), false),
        bad_request("A megadott kártya azonosító nem valid!"),
    );
    assert_eq!(service.get_account_by_customer_id(42).unwrap().card_id, "1ab");
    assert_fails(
        service.set_card(NOBODY, "1ab".to_string(), true),
        ServiceError::not_found("Storage object not found in storage."),
    );
    assert_fails(
        service.set_card("nobody", "1ab".to_string(), true),
        bad_request("A kért ID hibás: nobody"),
    );
}

#[test]
fn level_is_set_from_its_token() {
    let (mut service, id) = with_customer_42();
    assert_eq!(service.set_loyalty_level(&id, "l2").unwrap().loyalty_level, "L2");
    assert_eq!(service.accounts.get(0).loyalty_level, LoyaltyLevel::L2);
    assert_eq!(service.set_loyalty_level(&id, "L1").unwrap().loyalty_level, "L1");
    assert_fails(
        service.set_loyalty_level(&id, "L3"),
        bad_request("Nem megfelelő kedvezmény színt! L1, vagy L2"),
    );
    assert_eq!(service.accounts.get(0).loyalty_level, LoyaltyLevel::L1);
    assert_fails(
        service.set_loyalty_level(NOBODY, "L3"),
        ServiceError::not_found("Storage object not found in storage."),
    );
    assert_fails(service.set_loyalty_level("", "L2"), bad_request("A kért ID hibás: "));
}

#[test]
fn birthdate_is_set_from_its_text() {
    let (mut service, id) = with_customer_42();
    assert_eq!(service.set_birthdate(&id, "1988-10-15").unwrap().customer_birthdate, "1988-10-15");
    assert_eq!(service.get_account_by_query(42, "1988-10-15").unwrap().account_id, id);
    assert_fails(
        service.set_birthdate(&id, "1988-10-32"),
        bad_request("A megadott születési dátum nem megfelelő formátumú"),
    );
    assert_fails(
        service.set_birthdate("nobody", "1988-10-32"),
        bad_request("A megadott születési dátum nem megfelelő formátumú"),
    );
    assert_fails(
        service.set_birthdate("nobody", "1988-10-15"),
        bad_request("A kért ID hibás: nobody"),
    );
    assert_fails(
        service.set_birthdate(NOBODY, "1988-10-15"),
        ServiceError::not_found("Storage object not found in storage."),
    );
    assert_eq!(service.accounts.get(0).customer_birthdate, Date::parse("1988-10-15").unwrap());
}

#[test]
fn burn_on_a_zero_balance_is_a_bad_request() {
    let (mut service, id) = with_customer_42();
    assert_fails(
        service.burn_points(&id, FIRST_PURCHASE, 10, 1),
        bad_request("Nincs elég pont a tranzakcióhoz. Jelenlegi pont: 0"),
    );
    assert_eq!(service.get_account_by_customer_id(42).unwrap().balance_points, 0);
    assert_eq!(service.get_transactions_all(&id).unwrap(), vec![]);
}

#[test]
fn burn_requests_are_checked_in_order() {
    let (mut service, id) = with_customer_42();
    assert_fails(service.burn_points("x", "y", -1, 1), bad_request("A kért ID hibás: x"));
    assert_fails(
        service.burn_points(NOBODY, "y", -1, 1),
        ServiceError::not_found("Storage object not found in storage."),
    );
    assert_fails(service.burn_points(&id, "y", -1, 1), bad_request("A kért ID hibás: y"));
    assert_fails(
        service.burn_points(&id, FIRST_PURCHASE, -1, 1),
        bad_request("A beváltandó pontok száma nem lehet negatív!"),
    );
    assert_fails(
        service.burn_points(&id, FIRST_PURCHASE, 1, 1),
        bad_request("Nincs elég pont a tranzakcióhoz. Jelenlegi pont: 0"),
    );
    assert!(service.accounts.get(0).transactions.is_empty());
}

#[test]
fn purchases_are_closed_by_the_level_before_their_own_credit() {
    let (mut service, id) = with_customer_42();

    let first = service.close_purchase(&id, FIRST_PURCHASE, 1_000_000, 1).unwrap();
    assert_eq!(first.earned_points, 20_000);
    assert_eq!(first.balance_closing, 20_000);
    assert_eq!(service.get_account_by_customer_id(42).unwrap().loyalty_level, "L1");

    let second = service.close_purchase(&id, SECOND_PURCHASE, 2_000_000, 1).unwrap();
    assert_eq!(second.earned_points, 40_000);
    assert_eq!(second.balance_closing, 60_000);
    assert_eq!(service.get_account_by_customer_id(42).unwrap().loyalty_level, "L2");

    let third = service.close_purchase(&id, FIRST_PURCHASE, 1_000_000, 1).unwrap();
    assert_eq!(
        third,
        wire::PurchaseSummary {
            account_id: id.clone(),
            purchase_id: FIRST_PURCHASE.to_string(),
            balance_opening: 60_000,
            burned_points: 0,
            earned_points: 40_000,
            balance_closing: 100_000,
        }
    );
    let account = service.get_account_by_customer_id(42).unwrap();
    assert_eq!(account.balance_points, 100_000);
    assert_eq!(account.yearly_gross_turnover, 4_000_000);
    assert_eq!(account.loyalty_level, "L2");
}

#[test]
fn burns_are_shown_and_summed_when_the_purchase_is_closed() {
    let (mut service, id) = with_customer_42();
    service.close_purchase(&id, SECOND_PURCHASE, 1_000_000, 1).unwrap();

    let first = service.burn_points(&id, FIRST_PURCHASE, 5000, 8).unwrap();
    assert_eq!(first.account_id, id);
    assert_eq!(first.purchase_id, FIRST_PURCHASE);
    assert_eq!(first.transaction_kind, wire::KIND_BURN);
    assert_eq!(first.amount, 5000);
    assert_eq!(first.created_by, 8);
    assert!(string_to_uuid(&first.transaction_id).is_ok());
    let second = service.burn_points(&id, FIRST_PURCHASE, 3000, 8).unwrap();
    assert_ne!(second.transaction_id, first.transaction_id);

    let summary = service.close_purchase(&id, FIRST_PURCHASE, 250_000, 1).unwrap();
    assert_eq!(summary.burned_points, 8000);
    assert_eq!(summary.earned_points, 5000);
    assert_eq!(summary.balance_closing, 17_000);
    assert_eq!(summary.balance_opening, summary.balance_closing - summary.earned_points + 8000);
    assert_eq!(summary.balance_opening, 20_000);

    let log = service.get_transactions_all(&id).unwrap();
    assert_eq!(log.len(), 4);
    assert_eq!(log[0].transaction_kind, wire::KIND_EARN);
    assert_eq!(log[0].amount, 20_000);
    assert_eq!(log[0].purchase_id, SECOND_PURCHASE);
    assert_eq!(log[1], first);
    assert_eq!(log[2], second);
    assert_eq!(log[3].transaction_kind, wire::KIND_EARN);
    assert_eq!(log[3].amount, 5000);
    assert_eq!(log[3].created_by, 1);

    let stored = service.accounts.get(0);
    assert!(stored.is_consistent());
    assert_eq!(stored.transactions[1].transaction_kind, TransactionKind::Burn);
    assert_eq!(wire::Transaction::of(&stored.transactions[2]), second);
    assert_eq!(wire::Transaction::of_all(&stored.transactions), log);
}

#[test]
fn close_requests_are_checked_in_order() {
    let (mut service, id) = with_customer_42();
    assert_fails(service.close_purchase("x", "y", u32::MAX, 1), bad_request("A kért ID hibás: x"));
    assert_fails(
        service.close_purchase(NOBODY, "y", u32::MAX, 1),
        ServiceError::not_found("Storage object not found in storage."),
    );
    assert_fails(service.close_purchase(&id, "y", u32::MAX, 1), bad_request("A kért ID hibás: y"));
    assert_fails(
        service.close_purchase(&id, FIRST_PURCHASE, u32::MAX, 1),
        ServiceError::internal_error("A vásárlás lezárása túlcsordulást okozna!"),
    );
    assert!(service.accounts.get(0).transactions.is_empty());
    assert_eq!(service.accounts.get(0).yearly_gross_turnover, 0);
    assert!(service.close_purchase(&id, FIRST_PURCHASE, i32::MAX as u32, 1).is_ok());
    assert_fails(
        service.close_purchase(&id, SECOND_PURCHASE, 1, 1),
        ServiceError::internal_error("A vásárlás lezárása túlcsordulást okozna!"),
    );
    assert!(service.close_purchase(&id, SECOND_PURCHASE, 0, 1).is_ok());
}

#[test]
fn ledger_of_an_unknown_account_is_not_shown() {
    let (service, _) = with_customer_42();
    assert_fails(
        service.get_transactions_all(NOBODY),
        ServiceError::not_found("Storage object not found in storage."),
    );
    assert_fails(
        service.get_transactions_all("42"),
        bad_request("A kért ID hibás: 42"),
    );
}

#[test]
fn service_starts_from_the_accounts_it_is_given() {
    let mut repository = Repository::new();
    let at = Timestamp::now();
    let account = Account::open(0xabcd, 5, Date::parse("1970-01-01").unwrap(), 2, at);
    repository.insert(account).unwrap();
    let mut service = LoyaltyService::init(repository);
    let shown = service.get_account_by_customer_id(5).unwrap();
    assert_eq!(shown.account_id, NOBODY);
    assert_eq!(shown.created_at, at.to_rfc3339());
    assert_eq!(shown.customer_birthdate, "1970-01-01");
    assert_eq!(shown.created_by, 2);
    assert!(service.close_purchase(NOBODY, FIRST_PURCHASE, 100, 2).is_ok());
    assert_eq!(service.get_account_by_customer_id(5).unwrap().balance_points, 2);
}

#[test]
fn identifiers_are_read_or_the_request_is_bad() {
    assert_eq!(string_to_uuid(FIRST_PURCHASE).ok(), Some(0x550e8400_e29b_41d4_a716_446655440000));
    assert_fails(string_to_uuid("FIRST_PURCHASE"), bad_request("A kért ID hibás: FIRST_PURCHASE"));
    assert_fails(string_to_uuid(""), bad_request("A kért ID hibás: "));
}

#[test]
fn errors_carry_their_text_in_every_variant() {
    assert!(matches!(ServiceError::internal_error("a"), ServiceError::InternalError(ref m) if m == "a"));
    assert!(matches!(ServiceError::not_found("b"), ServiceError::NotFound(ref m) if m == "b"));
    assert!(matches!(ServiceError::already_exist("c"), ServiceError::AlreadyExists(ref m) if m == "c"));
    assert!(matches!(ServiceError::bad_request("d"), ServiceError::BadRequest(ref m) if m == "d"));
    assert_eq!(ServiceError::internal_error("a").to_string(), "a");
    assert_eq!(ServiceError::not_found("b").to_string(), "b");
    assert_eq!(ServiceError::already_exist("c").to_string(), "c");
    assert_eq!(ServiceError::bad_request("").to_string(), "");
}

#[test]
fn account_is_always_created_where_no_identifier_can_be_drawn_again() {
    let mut repository = Repository::new();
    let day = Date::parse("1970-01-01").unwrap();
    for id in [0u128, 10, 20, u128::MAX] {
        let account = Account::open(id, 100 + id as u32 % 50, day, 2, Timestamp::now());
        repository.insert(account).unwrap();
    }
    let mut service = LoyaltyService::init(repository);
    for customer_id in 0..50 {
        let created = service.create_account(customer_id, "1990-01-01", 1).unwrap();
        assert_eq!(created.customer_id, customer_id);
        assert_eq!(created.balance_points, 0);
        assert_eq!(service.accounts.len(), 5 + customer_id as usize);
        let stored = service.accounts.get(4 + customer_id as usize);
        assert_eq!(id_to_string(stored.account_id), created.account_id);
        assert_eq!((stored.account_id >> 76) & 0xf, 4);
    }
}
