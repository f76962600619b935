//! The request handlers: each reads its input, finds the account, applies
//! one operation to it and shows the outcome. A handler that fails leaves
//! the accounts as they were.

use crate::calendar::Date;
use crate::decimal::signed_decimal;
use crate::ident::{id_of_text, is_random_id, parse_id};
use crate::loyalty::{
    level_of_token, Account, AccountExt, LoyaltyLevel, PurchaseInfo, INSUFFICIENT_POINTS,
    INVALID_CARD, INVALID_LEVEL,
};
use crate::prelude::{ServiceError, ServiceResult};
use crate::repository::{
    is_first_match, Repository, Wanted, CUSTOMER_HAS_ACCOUNT, ID_TAKEN, OBJECT_NOT_FOUND,
};
use crate::wire;
use vstd::prelude::*;
use vstd::string::StringExecFns;

verus! {

/// The start of the error for a text that spells no identifier; the text
/// follows it.
pub const INVALID_ID: &'static str = "A kért ID hibás: ";

/// The text of the error for a birthdate that cannot be read when an
/// account is opened.
pub const INVALID_BIRTHDATE_OF_NEW: &'static str = "A megadott születési dátum hibás formátumú!";

/// The text of the error for a birthdate that cannot be read.
pub const INVALID_BIRTHDATE: &'static str = "A megadott születési dátum nem megfelelő formátumú";

/// The text of the error for a customer without an account.
pub const CUSTOMER_WITHOUT_ACCOUNT: &'static str =
    "A megadott vásárlónak nincs törzsvásárlói fiókja";

/// The text of the error for a card that no account holds.
pub const CARD_WITHOUT_ACCOUNT: &'static str =
    "A megadott kártyához nem tartozik törzsvásárlói fiók";

/// The text of the error for a query that no account answers.
pub const NO_ACCOUNT_FOR_QUERY: &'static str =
    "A kért fiók nem található a megadott adatok alapján!";

/// The text of the error for a burn of a negative number of points.
pub const NEGATIVE_BURN: &'static str = "A beváltandó pontok száma nem lehet negatív!";

/// The text of the error for a purchase that the counters cannot hold.
pub const PURCHASE_TOO_LARGE: &'static str = "A vásárlás lezárása túlcsordulást okozna!";

/// The service: the accounts, behind the handlers.
pub struct LoyaltyService {
    pub accounts: Repository,
}

impl View for LoyaltyService {
    type V = Seq<Account>;

    open spec fn view(&self) -> Seq<Account> {
        self.accounts@
    }
}

/// Reads an identifier; a text that spells none is a bad request.
pub fn string_to_uuid(id: &str) -> (r: ServiceResult<u128>)
    ensures
        match r {
            Ok(value) => id_of_text(id@) == Some(value),
            Err(e) => id_of_text(id@) is None && is_invalid_id(e, id@),
        },
{
    match parse_id(id) {
        Some(value) => Ok(value),
        None => {
            let mut msg = String::from_str(INVALID_ID);
            msg.append(id);
            Err(ServiceError::BadRequest(msg))
        },
    }
}

/// The error for a text that spells no identifier.
pub open spec fn is_invalid_id(e: ServiceError, id: Seq<char>) -> bool {
    e is BadRequest && e.message() == INVALID_ID@ + id
}

impl LoyaltyService {
    pub open spec fn wf(&self) -> bool {
        self.accounts.wf()
    }

    /// The place of the account that a text names, where it names one.
    pub open spec fn located(&self, account_id: Seq<char>) -> Option<int> {
        match id_of_text(account_id) {
            Some(id) => if self.accounts.has_id(id) {
                Some(self.accounts.place_of(id))
            } else {
                None
            },
            None => None,
        }
    }

    /// The error for a text that names no account: a bad request where it
    /// spells no identifier, and not found where no account has the
    /// identifier.
    pub open spec fn is_not_located(&self, account_id: Seq<char>, e: ServiceError) -> bool {
        match id_of_text(account_id) {
            None => is_invalid_id(e, account_id),
            Some(id) => !self.accounts.has_id(id) && e is NotFound && e.message()
                == OBJECT_NOT_FOUND@,
        }
    }

    /// `after` differs from `self` in the account at place `at` alone.
    pub open spec fn changed_at(&self, after: LoyaltyService, at: int) -> bool {
        &&& 0 <= at < self@.len()
        &&& after@ == self@.update(at, after@[at])
    }

    pub fn init(accounts: Repository) -> (service: Self)
        ensures
            service.accounts == accounts,
    {
        LoyaltyService { accounts }
    }

    /// Finds the place of the account that a text names.
    fn locate(&self, account_id: &str) -> (r: ServiceResult<usize>)
        requires
            self.wf(),
        ensures
            match r {
                Ok(at) => self.located(account_id@) == Some(at as int) && at < self@.len()
                    && Some(self@[at as int].account_id) == id_of_text(account_id@),
                Err(e) => self.located(account_id@) is None && self.is_not_located(account_id@, e),
            },
    {
        let id = string_to_uuid(account_id)?;
        match self.accounts.position_of_id(id) {
            Some(at) => Ok(at),
            None => Err(ServiceError::not_found(OBJECT_NOT_FOUND)),
        }
    }

    /// Opens an account for a customer who has none, under an identifier
    /// drawn at random. It fails where the customer has an account, where
    /// the birthdate cannot be read, and where the drawn identifier is
    /// taken; the last cannot happen while no account has an identifier
    /// that a draw can give.
    pub fn create_account(&mut self, customer_id: u32, birthdate: &str, created_by: u32) -> (r:
        ServiceResult<wire::Account>)
        requires
            old(self).wf(),
        ensures
            final(self).wf(),
            !old(self).accounts.has_customer(customer_id) && Date::of_text(birthdate@) is Some
                && !old(self).accounts.has_drawable_id() ==> r is Ok,
            match r {
                Ok(message) => {
                    let account = final(self)@.last();
                    &&& !old(self).accounts.has_customer(customer_id)
                    &&& Date::of_text(birthdate@) == Some(account.customer_birthdate)
                    &&& final(self)@ == old(self)@.push(account)
                    &&& account.is_opening(
                        account.account_id,
                        customer_id,
                        account.customer_birthdate,
                        created_by,
                        account.created_at,
                    )
                    &&& is_random_id(account.account_id)
                    &&& !old(self).accounts.has_id(account.account_id)
                    &&& message.shows(account)
                },
                Err(e) => {
                    &&& final(self)@ == old(self)@
                    &&& if old(self).accounts.has_customer(customer_id) {
                        e is AlreadyExists && e.message() == CUSTOMER_HAS_ACCOUNT@
                    } else if Date::of_text(birthdate@) is None {
                        e is BadRequest && e.message() == INVALID_BIRTHDATE_OF_NEW@
                    } else {
                        &&& e is InternalError
                        &&& e.message() == ID_TAKEN@
                        &&& old(self).accounts.has_drawable_id()
                    }
                },
            },
    {
        if self.accounts.position_of_customer(customer_id).is_some() {
            return Err(ServiceError::already_exist(CUSTOMER_HAS_ACCOUNT));
        }
        let birthdate = match Date::parse(birthdate) {
            Some(date) => date,
            None => {
                return Err(ServiceError::bad_request(INVALID_BIRTHDATE_OF_NEW));
            },
        };
        let new_account = Account::new(customer_id, birthdate, created_by);
        let message = wire::Account::of(&new_account);
        let ghost drawn = new_account.account_id;
        match self.accounts.insert(new_account) {
            Ok(_) => Ok(message),
            Err(e) => {
                assert(is_random_id(drawn) && old(self).accounts.has_id(drawn));
                Err(e)
            },
        }
    }

    /// Shows the account of a customer.
    pub fn get_account_by_customer_id(&self, customer_id: u32) -> (r: ServiceResult<wire::Account>)
        requires
            self.wf(),
        ensures
            match r {
                Ok(message) => exists|at: usize|
                    #[trigger] is_first_match(self@, Wanted::Customer(customer_id), Some(at))
                        && message.shows(self@[at as int]),
                Err(e) => !self.accounts.has_customer(customer_id) && e is NotFound && e.message()
                    == CUSTOMER_WITHOUT_ACCOUNT@,
            },
    {
        match self.accounts.position_of_customer(customer_id) {
            Some(at) => {
                let message = wire::Account::of(self.accounts.get(at));
                assert(is_first_match(self@, Wanted::Customer(customer_id), Some(at)));
                Ok(message)
            },
            None => Err(ServiceError::not_found(CUSTOMER_WITHOUT_ACCOUNT)),
        }
    }

    /// Shows the first account that holds a card.
    pub fn get_account_by_card_id(&self, card_id: &str) -> (r: ServiceResult<wire::Account>)
        requires
            self.wf(),
        ensures
            match r {
                Ok(message) => exists|at: usize|
                    #[trigger] is_first_match(self@, Wanted::Card(card_id@), Some(at))
                        && message.shows(self@[at as int]),
                Err(e) => is_first_match(self@, Wanted::Card(card_id@), None) && e is NotFound
                    && e.message() == CARD_WITHOUT_ACCOUNT@,
            },
    {
        match self.accounts.position_of_card(card_id) {
            Some(at) => {
                let message = wire::Account::of(self.accounts.get(at));
                assert(is_first_match(self@, Wanted::Card(card_id@), Some(at)));
                Ok(message)
            },
            None => Err(ServiceError::not_found(CARD_WITHOUT_ACCOUNT)),
        }
    }

    /// Shows the account of a customer with a birthdate.
    pub fn get_account_by_query(&self, customer_id: u32, birthdate: &str) -> (r: ServiceResult<
        wire::Account,
    >)
        requires
            self.wf(),
        ensures
            match r {
                Ok(message) => Date::of_text(birthdate@) is Some && exists|at: usize|
                    #[trigger] is_first_match(
                        self@,
                        Wanted::Query(customer_id, Date::of_text(birthdate@).unwrap()),
                        Some(at),
                    ) && message.shows(self@[at as int]),
                Err(e) => match Date::of_text(birthdate@) {
                    None => e is BadRequest && e.message() == INVALID_BIRTHDATE@,
                    Some(date) => e is NotFound && e.message() == NO_ACCOUNT_FOR_QUERY@
                        && is_first_match(self@, Wanted::Query(customer_id, date), None),
                },
            },
    {
        let date = match Date::parse(birthdate) {
            Some(date) => date,
            None => {
                return Err(ServiceError::bad_request(INVALID_BIRTHDATE));
            },
        };
        match self.accounts.position_of_query(customer_id, date) {
            Some(at) => {
                let message = wire::Account::of(self.accounts.get(at));
                assert(is_first_match(self@, Wanted::Query(customer_id, date), Some(at)));
                Ok(message)
            },
            None => Err(ServiceError::not_found(NO_ACCOUNT_FOR_QUERY)),
        }
    }

    /// Shows the ledger of an account, in its order.
    pub fn get_transactions_all(&self, account_id: &str) -> (r: ServiceResult<
        Vec<wire::Transaction>,
    >)
        requires
            self.wf(),
        ensures
            match r {
                Ok(messages) => {
                    &&& self.located(account_id@) matches Some(at)
                    &&& messages@.len() == self@[at].transactions@.len()
                    &&& forall|i: int|
                        0 <= i < messages@.len() ==> (#[trigger] messages@[i]).shows(
                            self@[at].transactions@[i],
                        )
                },
                Err(e) => self.located(account_id@) is None && self.is_not_located(account_id@, e),
            },
    {
        let at = self.locate(account_id)?;
        Ok(wire::Transaction::of_all(&self.accounts.get(at).transactions))
    }

    /// Replaces the card of an account, given the verdict of the checksum
    /// on the card's number.
    pub fn set_card(&mut self, account_id: &str, card_id: String, checksum_holds: bool) -> (r:
        ServiceResult<wire::Account>)
        requires
            old(self).wf(),
        ensures
            final(self).wf(),
            match r {
                Ok(message) => {
                    &&& old(self).located(account_id@) matches Some(at)
                    &&& checksum_holds
                    &&& old(self).changed_at(*final(self), at)
                    &&& final(self)@[at] == (Account { card_id: Some(card_id), ..old(self)@[at] })
                    &&& message.shows(final(self)@[at])
                },
                Err(e) => {
                    &&& final(self)@ == old(self)@
                    &&& match old(self).located(account_id@) {
                        None => old(self).is_not_located(account_id@, e),
                        Some(_) => !checksum_holds && e is BadRequest && e.message()
                            == INVALID_CARD@,
                    }
                },
            },
    {
        let at = self.locate(account_id)?;
        let outcome = match self.accounts.get_mut(at).set_card(card_id, checksum_holds) {
            Ok(_) => Ok(()),
            Err(msg) => Err(msg),
        };
        match outcome {
            Ok(_) => {
                assert(self@ =~= old(self)@.update(at as int, self@[at as int]));
                Ok(wire::Account::of(self.accounts.get(at)))
            },
            Err(msg) => {
                assert(self@ =~= old(self)@);
                Err(ServiceError::bad_request(msg.as_str()))
            },
        }
    }

    /// Sets the tier of an account as an operator asks.
    pub fn set_loyalty_level(&mut self, account_id: &str, loyalty_level: &str) -> (r:
        ServiceResult<wire::Account>)
        requires
            old(self).wf(),
        ensures
            final(self).wf(),
            match r {
                Ok(message) => {
                    &&& old(self).located(account_id@) matches Some(at)
                    &&& level_of_token(loyalty_level@) matches Some(level)
                    &&& old(self).changed_at(*final(self), at)
                    &&& final(self)@[at] == (Account { loyalty_level: level, ..old(self)@[at] })
                    &&& message.shows(final(self)@[at])
                },
                Err(e) => {
                    &&& final(self)@ == old(self)@
                    &&& match old(self).located(account_id@) {
                        None => old(self).is_not_located(account_id@, e),
                        Some(_) => level_of_token(loyalty_level@) is None && e is BadRequest
                            && e.message() == INVALID_LEVEL@,
                    }
                },
            },
    {
        let at = self.locate(account_id)?;
        let level = match LoyaltyLevel::from_str(loyalty_level) {
            Ok(level) => level,
            Err(msg) => {
                return Err(ServiceError::bad_request(msg.as_str()));
            },
        };
        self.accounts.get_mut(at).set_loyalty_level(level);
        assert(self@ =~= old(self)@.update(at as int, self@[at as int]));
        Ok(wire::Account::of(self.accounts.get(at)))
    }

    /// Replaces the birthdate of an account.
    pub fn set_birthdate(&mut self, account_id: &str, birthdate: &str) -> (r: ServiceResult<
        wire::Account,
    >)
        requires
            old(self).wf(),
        ensures
            final(self).wf(),
            match r {
                Ok(message) => {
                    &&& Date::of_text(birthdate@) matches Some(date)
                    &&& old(self).located(account_id@) matches Some(at)
                    &&& old(self).changed_at(*final(self), at)
                    &&& final(self)@[at] == (Account { customer_birthdate: date, ..old(self)@[at] })
                    &&& message.shows(final(self)@[at])
                },
                Err(e) => {
                    &&& final(self)@ == old(self)@
                    &&& match Date::of_text(birthdate@) {
                        None => e is BadRequest && e.message() == INVALID_BIRTHDATE@,
                        Some(_) => old(self).located(account_id@) is None && old(
                            self,
                        ).is_not_located(account_id@, e),
                    }
                },
            },
    {
        let date = match Date::parse(birthdate) {
            Some(date) => date,
            None => {
                return Err(ServiceError::bad_request(INVALID_BIRTHDATE));
            },
        };
        let at = self.locate(account_id)?;
        self.accounts.get_mut(at).set_birthdate(date);
        assert(self@ =~= old(self)@.update(at as int, self@[at as int]));
        Ok(wire::Account::of(self.accounts.get(at)))
    }

    /// Redeems points of an account against a purchase and shows the entry
    /// that records it.
    pub fn burn_points(
        &mut self,
        account_id: &str,
        purchase_id: &str,
        points_to_burn: i32,
        created_by: u32,
    ) -> (r: ServiceResult<wire::Transaction>)
        requires
            old(self).wf(),
        ensures
            final(self).wf(),
            match r {
                Ok(message) => {
                    &&& old(self).located(account_id@) matches Some(at)
                    &&& id_of_text(purchase_id@) matches Some(purchase)
                    &&& 0 <= points_to_burn <= old(self)@[at].balance_points
                    &&& old(self).changed_at(*final(self), at)
                    &&& final(self)@[at].is_burned(
                        old(self)@[at],
                        purchase,
                        points_to_burn,
                        created_by,
                    )
                    &&& message.shows(final(self)@[at].transactions@.last())
                },
                Err(e) => {
                    &&& final(self)@ == old(self)@
                    &&& match old(self).located(account_id@) {
                        None => old(self).is_not_located(account_id@, e),
                        Some(at) => match id_of_text(purchase_id@) {
                            None => is_invalid_id(e, purchase_id@),
                            Some(_) => if points_to_burn < 0 {
                                e is BadRequest && e.message() == NEGATIVE_BURN@
                            } else {
                                &&& points_to_burn > old(self)@[at].balance_points
                                &&& e is BadRequest
                                &&& e.message() == INSUFFICIENT_POINTS@ + signed_decimal(
                                    old(self)@[at].balance_points as int,
                                )
                            },
                        },
                    }
                },
            },
    {
        let at = self.locate(account_id)?;
        let purchase = string_to_uuid(purchase_id)?;
        if points_to_burn < 0 {
            return Err(ServiceError::bad_request(NEGATIVE_BURN));
        }
        let outcome = match self.accounts.get_mut(at).burn_points(
            purchase,
            points_to_burn,
            created_by,
        ) {
            Ok(_) => Ok(()),
            Err(msg) => Err(msg),
        };
        match outcome {
            Ok(_) => {
                assert(self@ =~= old(self)@.update(at as int, self@[at as int]));
                let account = self.accounts.get(at);
                let entry = &account.transactions[account.transactions.len() - 1];
                Ok(wire::Transaction::of(entry))
            },
            Err(msg) => {
                assert(self@ =~= old(self)@);
                Err(ServiceError::bad_request(msg.as_str()))
            },
        }
    }

    /// Closes a purchase on an account and shows its summary. A purchase
    /// that the counters of the account cannot hold is refused.
    pub fn close_purchase(
        &mut self,
        account_id: &str,
        purchase_id: &str,
        total_gross: u32,
        created_by: u32,
    ) -> (r: ServiceResult<wire::PurchaseSummary>)
        requires
            old(self).wf(),
        ensures
            final(self).wf(),
            match r {
                Ok(message) => {
                    &&& old(self).located(account_id@) matches Some(at)
                    &&& id_of_text(purchase_id@) matches Some(purchase)
                    &&& old(self)@[at].fits_purchase(
                        PurchaseInfo {
                            purchase_id: purchase,
                            payable_total_gross: total_gross,
                            created_by,
                        },
                    )
                    &&& old(self).changed_at(*final(self), at)
                    &&& final(self)@[at].is_purchase_closed(
                        old(self)@[at],
                        PurchaseInfo {
                            purchase_id: purchase,
                            payable_total_gross: total_gross,
                            created_by,
                        },
                        created_by,
                    )
                    &&& message.shows(
                        account_id@,
                        purchase_id@,
                        old(self)@[at].purchase_summary(
                            PurchaseInfo {
                                purchase_id: purchase,
                                payable_total_gross: total_gross,
                                created_by,
                            },
                        ),
                    )
                },
                Err(e) => {
                    &&& final(self)@ == old(self)@
                    &&& match old(self).located(account_id@) {
                        None => old(self).is_not_located(account_id@, e),
                        Some(at) => match id_of_text(purchase_id@) {
                            None => is_invalid_id(e, purchase_id@),
                            Some(purchase) => {
                                &&& !old(self)@[at].fits_purchase(
                                    PurchaseInfo {
                                        purchase_id: purchase,
                                        payable_total_gross: total_gross,
                                        created_by,
                                    },
                                )
                                &&& e is InternalError
                                &&& e.message() == PURCHASE_TOO_LARGE@
                            },
                        },
                    }
                },
            },
    {
        let at = self.locate(account_id)?;
        let purchase = string_to_uuid(purchase_id)?;
        let purchase_info = PurchaseInfo {
            purchase_id: purchase,
            payable_total_gross: total_gross,
            created_by,
        };
        if !self.accounts.get(at).can_close_purchase(&purchase_info) {
            return Err(ServiceError::internal_error(PURCHASE_TOO_LARGE));
        }
        let outcome = self.accounts.get_mut(at).close_purchase(purchase_info, created_by);
        assert(self@ =~= old(self)@.update(at as int, self@[at as int]));
        match outcome {
            Ok(summary) => Ok(
                wire::PurchaseSummary {
                    account_id: String::from_str(account_id),
                    purchase_id: String::from_str(purchase_id),
                    balance_opening: summary.balance_opening,
                    burned_points: summary.burned_points,
                    earned_points: summary.earned_points,
                    balance_closing: summary.balance_closing,
                },
            ),
            Err(msg) => Err(ServiceError::bad_request(msg.as_str())),
        }
    }
}

} // verus!
