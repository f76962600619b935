//! What leaves the service: accounts, ledger entries and purchase summaries
//! with their identifiers, days and instants written out as text.

use crate::ident::{id_to_string, text_of_id};
use crate::loyalty;
use vstd::prelude::*;

verus! {

/// The number that stands for a burn entry.
pub const KIND_BURN: i32 = 0;

/// The number that stands for an earn entry.
pub const KIND_EARN: i32 = 1;

/// An account as it is shown to a caller.
#[derive(Clone, Debug, PartialEq, Eq)]
pub struct Account {
    pub account_id: String,
    pub customer_id: u32,
    pub customer_birthdate: String,
    pub card_id: String,
    pub loyalty_level: String,
    pub balance_points: i32,
    pub yearly_gross_turnover: i32,
    pub created_at: String,
    pub created_by: u32,
}

/// A ledger entry as it is shown to a caller.
#[derive(Clone, Debug, PartialEq, Eq)]
pub struct Transaction {
    pub transaction_id: String,
    pub account_id: String,
    pub purchase_id: String,
    pub transaction_kind: i32,
    pub amount: i32,
    pub created_by: u32,
    pub created_at: String,
}

/// The summary of a closed purchase as it is shown to a caller.
#[derive(Clone, Debug, PartialEq, Eq)]
pub struct PurchaseSummary {
    pub account_id: String,
    pub purchase_id: String,
    pub balance_opening: i32,
    pub burned_points: i32,
    pub earned_points: i32,
    pub balance_closing: i32,
}

/// The number that stands for the kind of an entry.
pub open spec fn kind_number(kind: loyalty::TransactionKind) -> i32 {
    match kind {
        loyalty::TransactionKind::Earn { .. } => KIND_EARN,
        loyalty::TransactionKind::Burn => KIND_BURN,
    }
}

impl Account {
    /// The message shows the account: every field carries over, the
    /// identifier, the birthdate and the instant as their text, the tier
    /// as its token, and a missing card as the empty text.
    pub open spec fn shows(&self, account: loyalty::Account) -> bool {
        &&& self.account_id@ == text_of_id(account.account_id)
        &&& self.customer_id == account.customer_id
        &&& self.customer_birthdate@ == account.customer_birthdate.text()
        &&& self.card_id@ == match account.card_id {
            Some(card) => card@,
            None => Seq::<char>::empty(),
        }
        &&& self.loyalty_level@ == account.loyalty_level.token()
        &&& self.balance_points == account.balance_points
        &&& self.yearly_gross_turnover == account.yearly_gross_turnover
        &&& self.created_at@ == account.created_at.text()
        &&& self.created_by == account.created_by
    }

    /// The message that shows an account.
    pub fn of(account: &loyalty::Account) -> (message: Self)
        ensures
            message.shows(*account),
    {
        Account {
            account_id: id_to_string(account.account_id),
            customer_id: account.customer_id,
            customer_birthdate: account.customer_birthdate.to_string(),
            card_id: match &account.card_id {
                Some(card_id) => card_id.clone(),
                None => String::new(),
            },
            loyalty_level: account.loyalty_level.to_string(),
            balance_points: account.balance_points,
            yearly_gross_turnover: account.yearly_gross_turnover,
            created_at: account.created_at.to_rfc3339(),
            created_by: account.created_by,
        }
    }
}

impl Transaction {
    /// The message shows the entry: every field carries over, the
    /// identifiers and the instant as their text, and the kind as its number
    /// without what an earn entry carries.
    pub open spec fn shows(&self, entry: loyalty::Transaction) -> bool {
        &&& self.transaction_id@ == text_of_id(entry.transaction_id)
        &&& self.account_id@ == text_of_id(entry.account_id)
        &&& self.purchase_id@ == text_of_id(entry.purchase_id)
        &&& self.transaction_kind == kind_number(entry.transaction_kind)
        &&& self.amount == entry.amount
        &&& self.created_by == entry.crated_by
        &&& self.created_at@ == entry.created_at.text()
    }

    /// The message that shows an entry.
    pub fn of(entry: &loyalty::Transaction) -> (message: Self)
        ensures
            message.shows(*entry),
    {
        Transaction {
            transaction_id: id_to_string(entry.transaction_id),
            account_id: id_to_string(entry.account_id),
            purchase_id: id_to_string(entry.purchase_id),
            transaction_kind: match entry.transaction_kind {
                loyalty::TransactionKind::Earn { .. } => KIND_EARN,
                loyalty::TransactionKind::Burn => KIND_BURN,
            },
            amount: entry.amount,
            created_by: entry.crated_by,
            created_at: entry.created_at.to_rfc3339(),
        }
    }

    /// The messages that show the entries of a ledger, in its order.
    pub fn of_all(log: &Vec<loyalty::Transaction>) -> (messages: Vec<Self>)
        ensures
            messages@.len() == log@.len(),
            forall|i: int| 0 <= i < log@.len() ==> (#[trigger] messages@[i]).shows(log@[i]),
    {
        let mut messages: Vec<Transaction> = Vec::new();
        let mut i: usize = 0;
        while i < log.len()
            invariant
                0 <= i <= log@.len(),
                messages@.len() == i,
                forall|j: int| 0 <= j < i ==> (#[trigger] messages@[j]).shows(log@[j]),
            decreases log@.len() - i,
        {
            messages.push(Transaction::of(&log[i]));
            i = i + 1;
        }
        messages
    }
}

impl PurchaseSummary {
    /// The message shows the summary of a purchase closed on an account.
    pub open spec fn shows(
        &self,
        account_id: Seq<char>,
        purchase_id: Seq<char>,
        summary: loyalty::PurchaseSummary,
    ) -> bool {
        &&& self.account_id@ == account_id
        &&& self.purchase_id@ == purchase_id
        &&& self.balance_opening == summary.balance_opening
        &&& self.burned_points == summary.burned_points
        &&& self.earned_points == summary.earned_points
        &&& self.balance_closing == summary.balance_closing
    }
}

} // verus!
