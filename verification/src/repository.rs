//! The collection of accounts: kept in the order in which they were inserted,
//! found by identifier or by scanning, and changed in place.

use crate::calendar::Date;
use crate::ident::is_random_id;
use crate::loyalty::Account;
use crate::prelude::ServiceError;
use vstd::prelude::*;
use vstd::string::StringExecFns;

verus! {

/// The text of the error for an account identifier that is taken.
pub const ID_TAKEN: &'static str = "VecPack ID already taken";

/// The text of the error for an account identifier that no account has.
pub const OBJECT_NOT_FOUND: &'static str = "Storage object not found in storage.";

/// The text of the error for a customer who already has an account.
pub const CUSTOMER_HAS_ACCOUNT: &'static str =
    "A megadott vásárlónak már van törzsvásárlói fiókja!";

/// The accounts, in the order of their insertion.
pub struct Repository {
    accounts: Vec<Account>,
}

/// What a search looks for.
pub ghost enum Wanted {
    /// The account with an identifier.
    Id(u128),
    /// The account of a customer.
    Customer(u32),
    /// An account that holds a card.
    Card(Seq<char>),
    /// An account of a customer born on a day.
    Query(u32, Date),
}

impl Wanted {
    /// The account is what the search looks for.
    pub open spec fn is_met_by(self, account: Account) -> bool {
        match self {
            Wanted::Id(account_id) => account.account_id == account_id,
            Wanted::Customer(customer_id) => account.customer_id == customer_id,
            Wanted::Card(card_id) => account.card_id matches Some(card) && card@ == card_id,
            Wanted::Query(customer_id, birthdate) => account.customer_id == customer_id
                && account.customer_birthdate == birthdate,
        }
    }
}

/// `at` is the place of the first account of `accounts` that is wanted; it
/// is `None` where none is.
pub open spec fn is_first_match(accounts: Seq<Account>, wanted: Wanted, at: Option<usize>) -> bool {
    match at {
        Some(i) => {
            &&& i < accounts.len()
            &&& wanted.is_met_by(accounts[i as int])
            &&& forall|j: int| 0 <= j < i ==> !wanted.is_met_by(#[trigger] accounts[j])
        },
        None => forall|j: int| 0 <= j < accounts.len() ==> !wanted.is_met_by(#[trigger] accounts[j]),
    }
}

impl View for Repository {
    type V = Seq<Account>;

    closed spec fn view(&self) -> Seq<Account> {
        self.accounts@
    }
}

impl Repository {
    /// Every account is well formed, no two accounts share an identifier,
    /// and no two accounts belong to one customer.
    pub open spec fn wf(&self) -> bool {
        &&& forall|i: int| 0 <= i < self@.len() ==> (#[trigger] self@[i]).wf()
        &&& forall|i: int, j: int|
            0 <= i < j < self@.len() ==> (#[trigger] self@[i]).account_id != (
            #[trigger] self@[j]).account_id
        &&& forall|i: int, j: int|
            0 <= i < j < self@.len() ==> (#[trigger] self@[i]).customer_id != (
            #[trigger] self@[j]).customer_id
    }

    /// Some account has the identifier.
    pub open spec fn has_id(&self, account_id: u128) -> bool {
        exists|i: int| 0 <= i < self@.len() && (#[trigger] self@[i]).account_id == account_id
    }

    /// Some account belongs to the customer.
    pub open spec fn has_customer(&self, customer_id: u32) -> bool {
        exists|i: int| 0 <= i < self@.len() && (#[trigger] self@[i]).customer_id == customer_id
    }

    /// Some account has an identifier that a random draw can give: only
    /// then can a freshly drawn identifier be taken.
    pub open spec fn has_drawable_id(&self) -> bool {
        exists|id: u128| is_random_id(id) && #[trigger] self.has_id(id)
    }

    /// The place of the account with the identifier, where there is one.
    pub open spec fn place_of(&self, account_id: u128) -> int {
        choose|i: int| 0 <= i < self@.len() && (#[trigger] self@[i]).account_id == account_id
    }

    /// A repository without accounts.
    pub fn new() -> (repository: Self)
        ensures
            repository@ == Seq::<Account>::empty(),
            repository.wf(),
    {
        Repository { accounts: Vec::new() }
    }

    pub fn len(&self) -> (n: usize)
        ensures
            n == self@.len(),
    {
        self.accounts.len()
    }

    /// The account at a place.
    pub fn get(&self, at: usize) -> (account: &Account)
        requires
            at < self@.len(),
        ensures
            *account == self@[at as int],
    {
        &self.accounts[at]
    }

    /// The account at a place, to be changed there. Its identifier and its
    /// customer are to stay as they are.
    pub fn get_mut(&mut self, at: usize) -> (account: &mut Account)
        requires
            at < old(self)@.len(),
        ensures
            *account == old(self)@[at as int],
            final(self)@ == old(self)@.update(at as int, *final(account)),
    {
        &mut self.accounts[at]
    }

    /// The place of the account with the identifier.
    pub fn position_of_id(&self, account_id: u128) -> (at: Option<usize>)
        ensures
            is_first_match(self@, Wanted::Id(account_id), at),
            at is Some <==> self.has_id(account_id),
            self.wf() && at is Some ==> at.unwrap() == self.place_of(account_id),
    {
        let mut i: usize = 0;
        while i < self.accounts.len()
            invariant
                0 <= i <= self@.len(),
                forall|j: int| 0 <= j < i ==> (#[trigger] self@[j]).account_id != account_id,
            decreases self@.len() - i,
        {
            if self.accounts[i].account_id == account_id {
                return Some(i);
            }
            i = i + 1;
        }
        None
    }

    /// The place of the account of the customer.
    pub fn position_of_customer(&self, customer_id: u32) -> (at: Option<usize>)
        ensures
            is_first_match(self@, Wanted::Customer(customer_id), at),
            at is Some <==> self.has_customer(customer_id),
    {
        let mut i: usize = 0;
        while i < self.accounts.len()
            invariant
                0 <= i <= self@.len(),
                forall|j: int| 0 <= j < i ==> (#[trigger] self@[j]).customer_id != customer_id,
            decreases self@.len() - i,
        {
            if self.accounts[i].customer_id == customer_id {
                return Some(i);
            }
            i = i + 1;
        }
        None
    }

    /// The place of the first account that holds the card.
    pub fn position_of_card(&self, card_id: &str) -> (at: Option<usize>)
        ensures
            is_first_match(self@, Wanted::Card(card_id@), at),
    {
        let wanted = String::from_str(card_id);
        let mut i: usize = 0;
        while i < self.accounts.len()
            invariant
                0 <= i <= self@.len(),
                wanted@ == card_id@,
                forall|j: int| 0 <= j < i ==> !Wanted::Card(card_id@).is_met_by(#[trigger] self@[j]),
            decreases self@.len() - i,
        {
            let found = match &self.accounts[i].card_id {
                Some(card) => *card == wanted,
                None => false,
            };
            if found {
                return Some(i);
            }
            i = i + 1;
        }
        None
    }

    /// The place of the first account of the customer with the birthdate.
    pub fn position_of_query(&self, customer_id: u32, birthdate: Date) -> (at: Option<usize>)
        ensures
            is_first_match(self@, Wanted::Query(customer_id, birthdate), at),
    {
        let mut i: usize = 0;
        while i < self.accounts.len()
            invariant
                0 <= i <= self@.len(),
                forall|j: int|
                    0 <= j < i ==> !Wanted::Query(customer_id, birthdate).is_met_by(
                        #[trigger] self@[j],
                    ),
            decreases self@.len() - i,
        {
            if self.accounts[i].customer_id == customer_id && self.accounts[i].customer_birthdate
                == birthdate {
                return Some(i);
            }
            i = i + 1;
        }
        None
    }

    /// The account with the identifier.
    pub fn find_id(&self, account_id: u128) -> (r: Result<&Account, ServiceError>)
        ensures
            match r {
                Ok(account) => exists|i: int|
                    0 <= i < self@.len() && *account == #[trigger] self@[i] && account.account_id
                        == account_id,
                Err(e) => !self.has_id(account_id) && e is NotFound && e.message()
                    == OBJECT_NOT_FOUND@,
            },
    {
        match self.position_of_id(account_id) {
            Some(at) => Ok(&self.accounts[at]),
            None => Err(ServiceError::not_found(OBJECT_NOT_FOUND)),
        }
    }

    /// Takes an account in, unless its customer already has one or its
    /// identifier is taken; then nothing changes.
    pub fn insert(&mut self, account: Account) -> (r: Result<(), ServiceError>)
        requires
            old(self).wf(),
            account.wf(),
        ensures
            final(self).wf(),
            match r {
                Ok(_) => {
                    &&& !old(self).has_customer(account.customer_id)
                    &&& !old(self).has_id(account.account_id)
                    &&& final(self)@ == old(self)@.push(account)
                },
                Err(e) => {
                    &&& final(self)@ == old(self)@
                    &&& if old(self).has_customer(account.customer_id) {
                        e is AlreadyExists && e.message() == CUSTOMER_HAS_ACCOUNT@
                    } else {
                        old(self).has_id(account.account_id) && e is InternalError && e.message()
                            == ID_TAKEN@
                    }
                },
            },
    {
        if self.position_of_customer(account.customer_id).is_some() {
            return Err(ServiceError::already_exist(CUSTOMER_HAS_ACCOUNT));
        }
        if self.position_of_id(account.account_id).is_some() {
            return Err(ServiceError::internal_error(ID_TAKEN));
        }
        self.accounts.push(account);
        Ok(())
    }
}

} // verus!
