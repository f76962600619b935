//! The account aggregate: its tier, its ledger of earn and burn transactions,
//! and the operations that change them.

use crate::calendar::{Date, Timestamp};
use crate::decimal::{i32_to_string, signed_decimal};
use crate::ident::{fresh_id, is_random_id};
use vstd::prelude::*;
use vstd::string::StringExecFns;

verus! {

/// The balance at which an account on the first tier moves to the second.
pub const TARGET_TO_JUMP: i32 = 50_000;

/// The text of the error for a token that names no tier.
pub const INVALID_LEVEL: &'static str = "Nem megfelelő kedvezmény színt! L1, vagy L2";

/// The text of the error for a card whose checksum does not hold.
pub const INVALID_CARD: &'static str = "A megadott kártya azonosító nem valid!";

/// The start of the error for a burn larger than the balance; the balance
/// follows it in decimal.
pub const INSUFFICIENT_POINTS: &'static str = "Nincs elég pont a tranzakcióhoz. Jelenlegi pont: ";

/// The loyalty tier of an account. It fixes the share of a purchase that is
/// credited as points.
#[derive(Clone, Copy, Debug, PartialEq, Eq, Structural)]
pub enum LoyaltyLevel {
    /// Two percent.
    L1,
    /// Four percent.
    L2,
}

/// What a ledger entry does to the balance.
#[derive(Clone, Copy, Debug, PartialEq, Eq, Structural)]
pub enum TransactionKind {
    /// Points credited for a closed purchase: what was payable, and the
    /// share of it, in percent, that was credited.
    Earn { total_payable_amount: i32, discount: u32 },
    /// Points redeemed against a purchase.
    Burn,
}

/// One entry of an account's ledger.
#[derive(Clone, Copy, Debug, PartialEq, Eq, Structural)]
pub struct Transaction {
    pub transaction_id: u128,
    pub account_id: u128,
    pub purchase_id: u128,
    pub transaction_kind: TransactionKind,
    pub amount: i32,
    pub crated_by: u32,
    pub created_at: Timestamp,
}

/// The purchase that is being closed.
#[derive(Clone, Copy, Debug, PartialEq, Eq, Structural)]
pub struct PurchaseInfo {
    pub purchase_id: u128,
    pub payable_total_gross: u32,
    pub created_by: u32,
}

/// What a closed purchase did to the balance.
#[derive(Clone, Copy, Debug, PartialEq, Eq, Structural)]
pub struct PurchaseSummary {
    pub balance_opening: i32,
    pub burned_points: i32,
    pub earned_points: i32,
    pub balance_closing: i32,
}

/// The loyalty account of one customer.
#[derive(Clone, Debug)]
pub struct Account {
    pub account_id: u128,
    pub customer_id: u32,
    pub customer_birthdate: Date,
    pub card_id: Option<String>,
    pub loyalty_level: LoyaltyLevel,
    pub balance_points: i32,
    pub yearly_gross_turnover: i32,
    pub transactions: Vec<Transaction>,
    pub created_by: u32,
    pub created_at: Timestamp,
}

/// The tier that a token names, if it names one. Tokens are two characters,
/// the letter in either case.
pub open spec fn level_of_token(token: Seq<char>) -> Option<LoyaltyLevel> {
    if token == seq!['l', '1'] || token == seq!['L', '1'] {
        Some(LoyaltyLevel::L1)
    } else if token == seq!['l', '2'] || token == seq!['L', '2'] {
        Some(LoyaltyLevel::L2)
    } else {
        None
    }
}

/// The tier after the automatic check: the first tier moves to the second
/// once the balance has reached the target, and nothing else changes.
pub open spec fn promoted(level: LoyaltyLevel, balance: int) -> LoyaltyLevel {
    if level == LoyaltyLevel::L1 && balance >= TARGET_TO_JUMP {
        LoyaltyLevel::L2
    } else {
        level
    }
}

/// The points credited for a purchase: `percent` hundredths of `gross`,
/// rounded to the nearest integer, a half rounded up.
pub open spec fn earned_points(percent: int, gross: int) -> int {
    (percent * gross + 50) / 100
}

/// The sum of the amounts of the earn entries.
pub open spec fn total_earned(log: Seq<Transaction>) -> int
    decreases log.len(),
{
    if log.len() == 0 {
        0
    } else {
        total_earned(log.drop_last()) + log.last().earned()
    }
}

/// The sum of the amounts of the burn entries.
pub open spec fn total_burned(log: Seq<Transaction>) -> int
    decreases log.len(),
{
    if log.len() == 0 {
        0
    } else {
        total_burned(log.drop_last()) + log.last().burned()
    }
}

/// The sum of the amounts of the burn entries recorded against one purchase.
pub open spec fn burned_points(log: Seq<Transaction>, purchase_id: u128) -> int
    decreases log.len(),
{
    if log.len() == 0 {
        0
    } else {
        burned_points(log.drop_last(), purchase_id) + log.last().burned_for(purchase_id)
    }
}

/// The sum of what was payable in the purchases that the earn entries closed.
pub open spec fn gross_turnover(log: Seq<Transaction>) -> int
    decreases log.len(),
{
    if log.len() == 0 {
        0
    } else {
        gross_turnover(log.drop_last()) + log.last().payable()
    }
}

impl LoyaltyLevel {
    /// The share of a purchase credited as points, in percent.
    pub open spec fn percent(self) -> int {
        match self {
            LoyaltyLevel::L1 => 2,
            LoyaltyLevel::L2 => 4,
        }
    }

    /// The canonical token of the tier.
    pub open spec fn token(self) -> Seq<char> {
        match self {
            LoyaltyLevel::L1 => seq!['L', '1'],
            LoyaltyLevel::L2 => seq!['L', '2'],
        }
    }

    pub fn get_discount_percentage(&self) -> (p: u32)
        ensures
            p == self.percent(),
    {
        match self {
            LoyaltyLevel::L1 => 2,
            LoyaltyLevel::L2 => 4,
        }
    }

    pub fn from_str(str: &str) -> (r: Result<Self, String>)
        ensures
            match r {
                Ok(level) => level_of_token(str@) == Some(level),
                Err(msg) => level_of_token(str@) is None && msg@ == INVALID_LEVEL@,
            },
    {
        proof {
            reveal_strlit("l1");
            reveal_strlit("L1");
            reveal_strlit("l2");
            reveal_strlit("L2");
            assert("l1"@ =~= seq!['l', '1']);
            assert("L1"@ =~= seq!['L', '1']);
            assert("l2"@ =~= seq!['l', '2']);
            assert("L2"@ =~= seq!['L', '2']);
        }
        let l1_lower = String::from_str("l1");
        let l1_upper = String::from_str("L1");
        let l2_lower = String::from_str("l2");
        let l2_upper = String::from_str("L2");
        let given = String::from_str(str);
        if given == l1_lower || given == l1_upper {
            Ok(LoyaltyLevel::L1)
        } else if given == l2_lower || given == l2_upper {
            Ok(LoyaltyLevel::L2)
        } else {
            Err(String::from_str(INVALID_LEVEL))
        }
    }

    pub fn to_string(&self) -> (s: String)
        ensures
            s@ == self.token(),
    {
        proof {
            reveal_strlit("L1");
            reveal_strlit("L2");
            assert("L1"@ =~= seq!['L', '1']);
            assert("L2"@ =~= seq!['L', '2']);
        }
        match self {
            LoyaltyLevel::L1 => String::from_str("L1"),
            LoyaltyLevel::L2 => String::from_str("L2"),
        }
    }
}

impl Default for LoyaltyLevel {
    fn default() -> (level: Self)
        ensures
            level == LoyaltyLevel::L1,
    {
        LoyaltyLevel::L1
    }
}

impl Default for TransactionKind {
    fn default() -> (kind: Self)
        ensures
            kind == TransactionKind::Burn,
    {
        TransactionKind::Burn
    }
}

impl Transaction {
    /// What the entry adds to the sum of earned points.
    pub open spec fn earned(self) -> int {
        if self.transaction_kind is Earn {
            self.amount as int
        } else {
            0
        }
    }

    /// What the entry adds to the sum of burned points.
    pub open spec fn burned(self) -> int {
        if self.transaction_kind is Burn {
            self.amount as int
        } else {
            0
        }
    }

    /// What the entry adds to the points burned against `purchase_id`.
    pub open spec fn burned_for(self, purchase_id: u128) -> int {
        if self.transaction_kind is Burn && self.purchase_id == purchase_id {
            self.amount as int
        } else {
            0
        }
    }

    /// What the entry adds to the turnover.
    pub open spec fn payable(self) -> int {
        match self.transaction_kind {
            TransactionKind::Earn { total_payable_amount, .. } => total_payable_amount as int,
            TransactionKind::Burn => 0,
        }
    }

    /// What the entry adds to the balance.
    pub open spec fn signed_amount(self) -> int {
        self.earned() - self.burned()
    }

    /// The amount is not negative, and an earn entry credits the share that
    /// it names of the payable amount that it names.
    pub open spec fn wf(self) -> bool {
        &&& self.amount >= 0
        &&& match self.transaction_kind {
            TransactionKind::Earn { total_payable_amount, discount } => {
                &&& total_payable_amount >= 0
                &&& (discount == 2 || discount == 4)
                &&& self.amount == earned_points(discount as int, total_payable_amount as int)
            },
            TransactionKind::Burn => true,
        }
    }

    /// Whether the entry is well formed.
    pub fn is_consistent(&self) -> (ok: bool)
        ensures
            ok == self.wf(),
    {
        if self.amount < 0 {
            return false;
        }
        match self.transaction_kind {
            TransactionKind::Earn { total_payable_amount, discount } => {
                total_payable_amount >= 0 && (discount == 2 || discount == 4) && points_for(
                    discount,
                    total_payable_amount as u32,
                ) == self.amount as u64
            },
            TransactionKind::Burn => true,
        }
    }

    /// A new entry with an identifier of its own, made now.
    pub fn new(
        purchase_id: u128,
        account_id: u128,
        transaction_kind: TransactionKind,
        amount: i32,
        crated_by: u32,
    ) -> (t: Self)
        ensures
            is_random_id(t.transaction_id),
            t == (Transaction {
                transaction_id: t.transaction_id,
                created_at: t.created_at,
                purchase_id,
                account_id,
                transaction_kind,
                amount,
                crated_by,
            }),
    {
        Transaction {
            transaction_id: fresh_id(),
            purchase_id,
            account_id,
            transaction_kind,
            amount,
            crated_by,
            created_at: Timestamp::now(),
        }
    }
}

/// The sums over a ledger grow by what the appended entry adds.
pub proof fn lemma_sums_after_push(log: Seq<Transaction>, t: Transaction, purchase_id: u128)
    ensures
        total_earned(log.push(t)) == total_earned(log) + t.earned(),
        total_burned(log.push(t)) == total_burned(log) + t.burned(),
        burned_points(log.push(t), purchase_id) == burned_points(log, purchase_id) + t.burned_for(
            purchase_id,
        ),
        gross_turnover(log.push(t)) == gross_turnover(log) + t.payable(),
{
    assert(log.push(t).drop_last() =~= log);
}

/// The sums over a ledger do not depend on how the ledger came about: the
/// sums over two ledgers, one after the other, are the sums over each, added.
pub proof fn lemma_sums_of_concat(
    first: Seq<Transaction>,
    second: Seq<Transaction>,
    purchase_id: u128,
)
    ensures
        total_earned(first + second) == total_earned(first) + total_earned(second),
        total_burned(first + second) == total_burned(first) + total_burned(second),
        burned_points(first + second, purchase_id) == burned_points(first, purchase_id)
            + burned_points(second, purchase_id),
        gross_turnover(first + second) == gross_turnover(first) + gross_turnover(second),
    decreases second.len(),
{
    if second.len() == 0 {
        assert(first + second =~= first);
    } else {
        lemma_sums_of_concat(first, second.drop_last(), purchase_id);
        assert((first + second).drop_last() =~= first + second.drop_last());
        assert((first + second).last() == second.last());
    }
}

/// Where no amount is negative, what a prefix of the ledger burned against a
/// purchase is not negative and not more than what the whole ledger burned
/// against it.
pub proof fn lemma_burned_points_of_prefix(log: Seq<Transaction>, n: int, purchase_id: u128)
    requires
        0 <= n <= log.len(),
        forall|i: int| 0 <= i < log.len() ==> (#[trigger] log[i]).amount >= 0,
    ensures
        0 <= burned_points(log.take(n), purchase_id) <= burned_points(log, purchase_id),
    decreases log.len() - n,
{
    if n == log.len() {
        assert(log.take(n) =~= log);
        lemma_burned_points_not_negative(log, purchase_id);
    } else {
        lemma_burned_points_of_prefix(log, n + 1, purchase_id);
        assert(log.take(n + 1).drop_last() =~= log.take(n));
        assert(log.take(n + 1).last() == log[n]);
        lemma_burned_points_not_negative(log.take(n), purchase_id);
    }
}

/// Where no amount is negative, what a ledger burned against a purchase is
/// not negative.
pub proof fn lemma_burned_points_not_negative(log: Seq<Transaction>, purchase_id: u128)
    requires
        forall|i: int| 0 <= i < log.len() ==> (#[trigger] log[i]).amount >= 0,
    ensures
        0 <= burned_points(log, purchase_id),
    decreases log.len(),
{
    if log.len() > 0 {
        assert(log.last() == log[log.len() - 1]);
        lemma_burned_points_not_negative(log.drop_last(), purchase_id);
    }
}

/// Where every entry is well formed, what a ledger burned against a
/// purchase is not negative and at most what it burned in all, and what it
/// earned is at most what was payable.
pub proof fn lemma_sums_are_ordered(log: Seq<Transaction>, purchase_id: u128)
    requires
        forall|i: int| 0 <= i < log.len() ==> (#[trigger] log[i]).wf(),
    ensures
        0 <= burned_points(log, purchase_id) <= total_burned(log),
        0 <= total_earned(log) <= gross_turnover(log),
    decreases log.len(),
{
    if log.len() > 0 {
        let t = log.last();
        assert(t == log[log.len() - 1]);
        assert(t.wf());
        lemma_sums_are_ordered(log.drop_last(), purchase_id);
        if let TransactionKind::Earn { total_payable_amount, discount } = t.transaction_kind {
            lemma_earned_points_rounds(discount as int, total_payable_amount as int);
            assert(discount * total_payable_amount <= 4 * total_payable_amount)
                by (nonlinear_arith)
                requires
                    0 <= discount <= 4,
                    total_payable_amount >= 0,
            ;
        }
    }
}

impl Account {
    /// The invariant of the aggregate: the balance is what the ledger earned
    /// less what it burned and is not negative, the turnover is what the
    /// closed purchases were worth, and every entry of the ledger is well
    /// formed and belongs to this account.
    pub open spec fn wf(&self) -> bool {
        &&& self.balance_points == total_earned(self.transactions@) - total_burned(
            self.transactions@,
        )
        &&& self.balance_points >= 0
        &&& self.yearly_gross_turnover == gross_turnover(self.transactions@)
        &&& self.yearly_gross_turnover >= 0
        &&& forall|i: int|
            0 <= i < self.transactions@.len() ==> {
                &&& (#[trigger] self.transactions@[i]).wf()
                &&& self.transactions@[i].account_id == self.account_id
            }
    }

    /// The account as it is opened: no card, the first tier, nothing earned
    /// and an empty ledger.
    pub open spec fn is_opening(
        &self,
        account_id: u128,
        customer_id: u32,
        customer_birthdate: Date,
        created_by: u32,
        created_at: Timestamp,
    ) -> bool {
        &&& self.account_id == account_id
        &&& self.customer_id == customer_id
        &&& self.customer_birthdate == customer_birthdate
        &&& self.card_id is None
        &&& self.loyalty_level == LoyaltyLevel::L1
        &&& self.balance_points == 0
        &&& self.yearly_gross_turnover == 0
        &&& self.transactions@ == Seq::<Transaction>::empty()
        &&& self.created_by == created_by
        &&& self.created_at == created_at
    }

    /// `self` with `t` appended to the ledger and added to the balance, and
    /// nothing else changed.
    pub open spec fn is_recorded(&self, before: Account, t: Transaction) -> bool {
        &&& self.transactions@ == before.transactions@.push(t)
        &&& self.balance_points == before.balance_points + t.signed_amount()
        &&& *self == (Account {
            transactions: self.transactions,
            balance_points: self.balance_points,
            ..before
        })
    }

    /// The tier under which a purchase closed now is credited: the tier after
    /// the automatic check on the balance as it stands before the purchase.
    pub open spec fn purchase_level(&self) -> LoyaltyLevel {
        promoted(self.loyalty_level, self.balance_points as int)
    }

    /// The points that a purchase of `gross` closed now is credited with.
    pub open spec fn purchase_points(&self, gross: u32) -> int {
        earned_points(self.purchase_level().percent(), gross as int)
    }

    /// The purchase can be closed within the range of the counters: the
    /// turnover stays in it, and then so do the balance and the summary.
    pub open spec fn fits_purchase(&self, purchase_info: PurchaseInfo) -> bool {
        self.yearly_gross_turnover + purchase_info.payable_total_gross <= i32::MAX
    }

    /// The earn entry that closing the purchase now appends, but for its
    /// identifier and its instant, which are those of `entry`.
    pub open spec fn is_purchase_entry(
        &self,
        entry: Transaction,
        purchase_info: PurchaseInfo,
        created_by: u32,
    ) -> bool {
        entry == (Transaction {
            transaction_id: entry.transaction_id,
            created_at: entry.created_at,
            purchase_id: purchase_info.purchase_id,
            account_id: self.account_id,
            transaction_kind: TransactionKind::Earn {
                total_payable_amount: purchase_info.payable_total_gross as i32,
                discount: self.purchase_level().percent() as u32,
            },
            amount: self.purchase_points(purchase_info.payable_total_gross) as i32,
            crated_by: created_by,
        })
    }

    /// The summary of a purchase closed now.
    pub open spec fn purchase_summary(&self, purchase_info: PurchaseInfo) -> PurchaseSummary {
        let earned = self.purchase_points(purchase_info.payable_total_gross);
        let burned = burned_points(self.transactions@, purchase_info.purchase_id);
        PurchaseSummary {
            balance_opening: (self.balance_points + burned) as i32,
            burned_points: burned as i32,
            earned_points: earned as i32,
            balance_closing: (self.balance_points + earned) as i32,
        }
    }

    /// `self` is `before` after a burn of `points_to_burn` against
    /// `purchase_id`: a burn entry of that amount is appended and taken
    /// off the balance, and nothing else has changed.
    pub open spec fn is_burned(
        &self,
        before: Account,
        purchase_id: u128,
        points_to_burn: i32,
        created_by: u32,
    ) -> bool {
        let entry = self.transactions@.last();
        &&& self.is_recorded(before, entry)
        &&& entry == (Transaction {
            transaction_id: entry.transaction_id,
            created_at: entry.created_at,
            purchase_id,
            account_id: before.account_id,
            transaction_kind: TransactionKind::Burn,
            amount: points_to_burn,
            crated_by: created_by,
        })
    }

    /// `self` is `before` after the purchase was closed: the earn entry is
    /// appended, its points are added to the balance and the payable amount
    /// to the turnover, the tier is the one that the automatic check gives
    /// on the new balance, and nothing else has changed.
    pub open spec fn is_purchase_closed(
        &self,
        before: Account,
        purchase_info: PurchaseInfo,
        created_by: u32,
    ) -> bool {
        let earned = before.purchase_points(purchase_info.payable_total_gross);
        &&& self.transactions@ == before.transactions@.push(self.transactions@.last())
        &&& before.is_purchase_entry(self.transactions@.last(), purchase_info, created_by)
        &&& *self == (Account {
            transactions: self.transactions,
            balance_points: (before.balance_points + earned) as i32,
            yearly_gross_turnover: (before.yearly_gross_turnover
                + purchase_info.payable_total_gross) as i32,
            loyalty_level: promoted(before.purchase_level(), before.balance_points + earned),
            ..before
        })
    }

    /// In a well-formed account no sum leaves the range of the counters:
    /// what was burned against a purchase is at most what was burned in
    /// all, that is at most what was earned, and that is at most the
    /// turnover.
    pub proof fn lemma_sums_in_range(&self, purchase_id: u128)
        requires
            self.wf(),
        ensures
            0 <= burned_points(self.transactions@, purchase_id) <= total_burned(
                self.transactions@,
            ) <= total_earned(self.transactions@) <= self.yearly_gross_turnover <= i32::MAX,
            self.balance_points + burned_points(self.transactions@, purchase_id)
                <= self.yearly_gross_turnover,
    {
        lemma_sums_are_ordered(self.transactions@, purchase_id);
    }

    /// A new account under a given identifier, opened at a given instant.
    pub fn open(
        account_id: u128,
        customer_id: u32,
        customer_birthdate: Date,
        created_by: u32,
        created_at: Timestamp,
    ) -> (account: Self)
        ensures
            account.is_opening(account_id, customer_id, customer_birthdate, created_by, created_at),
            account.wf(),
    {
        Account {
            account_id,
            customer_id,
            customer_birthdate,
            card_id: None,
            loyalty_level: LoyaltyLevel::L1,
            balance_points: 0,
            yearly_gross_turnover: 0,
            transactions: Vec::new(),
            created_by,
            created_at,
        }
    }

    /// Appends an entry to the ledger and adds it to the balance.
    pub fn record(&mut self, transaction: Transaction)
        requires
            i32::MIN <= old(self).balance_points + transaction.signed_amount() <= i32::MAX,
        ensures
            final(self).is_recorded(*old(self), transaction),
    {
        match transaction.transaction_kind {
            TransactionKind::Earn { .. } => {
                self.balance_points = self.balance_points + transaction.amount;
            },
            TransactionKind::Burn => {
                self.balance_points = self.balance_points - transaction.amount;
            },
        }
        self.transactions.push(transaction);
    }

    /// Whether the account is well formed: whether its counters are what
    /// its ledger adds up to.
    pub fn is_consistent(&self) -> (ok: bool)
        ensures
            ok == self.wf(),
    {
        if self.balance_points < 0 || self.yearly_gross_turnover < 0 {
            return false;
        }
        let mut balance: i128 = 0;
        let mut turnover: i128 = 0;
        let mut i: usize = 0;
        while i < self.transactions.len()
            invariant
                0 <= i <= self.transactions@.len(),
                balance == total_earned(self.transactions@.take(i as int)) - total_burned(
                    self.transactions@.take(i as int),
                ),
                turnover == gross_turnover(self.transactions@.take(i as int)),
                -0x8000_0000 * i <= balance <= 0x8000_0000 * i,
                0 <= turnover <= 0x8000_0000 * i,
                forall|j: int|
                    0 <= j < i ==> {
                        &&& (#[trigger] self.transactions@[j]).wf()
                        &&& self.transactions@[j].account_id == self.account_id
                    },
            decreases self.transactions@.len() - i,
        {
            let t = self.transactions[i];
            if !t.is_consistent() || t.account_id != self.account_id {
                return false;
            }
            proof {
                let log = self.transactions@;
                assert(log.take(i + 1).drop_last() =~= log.take(i as int));
                assert(log.take(i + 1).last() == log[i as int]);
            }
            match t.transaction_kind {
                TransactionKind::Earn { total_payable_amount, .. } => {
                    balance = balance + t.amount as i128;
                    turnover = turnover + total_payable_amount as i128;
                },
                TransactionKind::Burn => {
                    balance = balance - t.amount as i128;
                },
            }
            i = i + 1;
        }
        proof {
            assert(self.transactions@.take(i as int) =~= self.transactions@);
        }
        balance == self.balance_points as i128 && turnover == self.yearly_gross_turnover as i128
    }

    /// Whether the purchase can be closed within the range of the counters.
    pub fn can_close_purchase(&self, purchase_info: &PurchaseInfo) -> (ok: bool)
        ensures
            ok == self.fits_purchase(*purchase_info),
    {
        self.yearly_gross_turnover as i64 + purchase_info.payable_total_gross as i64
            <= i32::MAX as i64
    }

}

/// The operations of an account. They are stated of whatever stands for an
/// account; `Account` stands for itself.
pub trait AccountExt: Sized {
    /// The account that the value stands for.
    spec fn account(&self) -> Account;

    /// A new account with an identifier of its own, opened now.
    fn new(customer_id: u32, customer_birthdate: Date, created_by: u32) -> (account: Self)
        ensures
            account.account().is_opening(
                account.account().account_id,
                customer_id,
                customer_birthdate,
                created_by,
                account.account().created_at,
            ),
            is_random_id(account.account().account_id),
            account.account().wf(),
    ;

    /// Replaces the card, given the verdict of the checksum on its number:
    /// a card whose checksum does not hold is refused and nothing changes.
    fn set_card(&mut self, card_id: String, checksum_holds: bool) -> (r: Result<&Self, String>)
        ensures
            match r {
                Ok(account) => {
                    &&& checksum_holds
                    &&& account.account() == final(self).account()
                    &&& final(self).account() == (Account {
                        card_id: Some(card_id),
                        ..old(self).account()
                    })
                },
                Err(msg) => {
                    &&& !checksum_holds
                    &&& msg@ == INVALID_CARD@
                    &&& final(self).account() == old(self).account()
                },
            },
            old(self).account().wf() ==> final(self).account().wf(),
    ;

    /// Sets the tier as an operator asks, whatever the balance.
    fn set_loyalty_level(&mut self, loyalty_level: LoyaltyLevel) -> (account: &Self)
        ensures
            account.account() == final(self).account(),
            final(self).account() == (Account { loyalty_level, ..old(self).account() }),
            old(self).account().wf() ==> final(self).account().wf(),
    ;

    /// Replaces the birthdate.
    fn set_birthdate(&mut self, birthdate: Date) -> (account: &Self)
        ensures
            account.account() == final(self).account(),
            final(self).account() == (Account {
                customer_birthdate: birthdate,
                ..old(self).account()
            }),
            old(self).account().wf() ==> final(self).account().wf(),
    ;

    /// Redeems points against a purchase. A burn larger than the balance is
    /// refused with a message that quotes the balance, and nothing changes.
    fn burn_points(&mut self, purchase_id: u128, points_to_burn: i32, created_by: u32) -> (r:
        Result<&Self, String>)
        requires
            points_to_burn >= 0,
        ensures
            match r {
                Ok(account) => {
                    &&& points_to_burn <= old(self).account().balance_points
                    &&& account.account() == final(self).account()
                    &&& final(self).account().is_burned(
                        old(self).account(),
                        purchase_id,
                        points_to_burn,
                        created_by,
                    )
                    &&& is_random_id(final(self).account().transactions@.last().transaction_id)
                    &&& final(self).account().balance_points == old(self).account().balance_points
                        - points_to_burn
                    &&& burned_points(final(self).account().transactions@, purchase_id)
                        == burned_points(old(self).account().transactions@, purchase_id)
                        + points_to_burn
                },
                Err(msg) => {
                    &&& points_to_burn > old(self).account().balance_points
                    &&& msg@ == INSUFFICIENT_POINTS@ + signed_decimal(
                        old(self).account().balance_points as int,
                    )
                    &&& final(self).account() == old(self).account()
                },
            },
            old(self).account().wf() ==> final(self).account().wf(),
    ;

    /// Closes a purchase: checks the tier, credits the points under the tier
    /// that then holds, adds the purchase to the turnover, checks the tier
    /// again for the purchases to come, and sums the purchase up.
    fn close_purchase(&mut self, purchase_info: PurchaseInfo, created_by: u32) -> (r: Result<
        PurchaseSummary,
        String,
    >)
        requires
            old(self).account().wf(),
            old(self).account().fits_purchase(purchase_info),
        ensures
            r == Ok::<PurchaseSummary, String>(old(self).account().purchase_summary(purchase_info)),
            r.unwrap().balance_opening == r.unwrap().balance_closing - r.unwrap().earned_points
                + r.unwrap().burned_points,
            final(self).account().is_purchase_closed(
                old(self).account(),
                purchase_info,
                created_by,
            ),
            is_random_id(final(self).account().transactions@.last().transaction_id),
            final(self).account().wf(),
    ;

    fn get_balance(&self) -> (balance: i32)
        ensures
            balance == self.account().balance_points,
    ;

    /// The automatic tier check: see `promoted`.
    fn check_loyalty_level(&mut self)
        ensures
            final(self).account() == (Account {
                loyalty_level: promoted(
                    old(self).account().loyalty_level,
                    old(self).account().balance_points as int,
                ),
                ..old(self).account()
            }),
            old(self).account().wf() ==> final(self).account().wf(),
    ;

    /// The points burned against a purchase so far.
    fn get_burned_points(&mut self, purchase_id: u128) -> (burned: i32)
        requires
            old(self).account().wf(),
        ensures
            burned == burned_points(old(self).account().transactions@, purchase_id),
            final(self).account() == old(self).account(),
    ;
}

impl AccountExt for Account {
    open spec fn account(&self) -> Account {
        *self
    }

    fn new(customer_id: u32, customer_birthdate: Date, created_by: u32) -> (account: Self) {
        Account::open(fresh_id(), customer_id, customer_birthdate, created_by, Timestamp::now())
    }

    fn set_card(&mut self, card_id: String, checksum_holds: bool) -> (r: Result<&Self, String>) {
        if !checksum_holds {
            return Err(String::from_str(INVALID_CARD));
        }
        self.card_id = Some(card_id);
        Ok(self)
    }

    fn set_loyalty_level(&mut self, loyalty_level: LoyaltyLevel) -> (account: &Self) {
        self.loyalty_level = loyalty_level;
        self
    }

    fn set_birthdate(&mut self, birthdate: Date) -> (account: &Self) {
        self.customer_birthdate = birthdate;
        self
    }

    fn burn_points(&mut self, purchase_id: u128, points_to_burn: i32, created_by: u32) -> (r:
        Result<&Self, String>) {
        if self.get_balance() < points_to_burn {
            let mut msg = String::from_str(INSUFFICIENT_POINTS);
            let balance = i32_to_string(self.get_balance());
            msg.append(balance.as_str());
            return Err(msg);
        }
        let transaction = Transaction::new(
            purchase_id,
            self.account_id,
            TransactionKind::Burn,
            points_to_burn,
            created_by,
        );
        self.record(transaction);
        proof {
            lemma_sums_after_push(old(self).transactions@, transaction, purchase_id);
        }
        Ok(self)
    }

    fn close_purchase(&mut self, purchase_info: PurchaseInfo, created_by: u32) -> (r: Result<
        PurchaseSummary,
        String,
    >) {
        let gross = purchase_info.payable_total_gross;
        proof {
            old(self).lemma_sums_in_range(purchase_info.purchase_id);
        }
        self.check_loyalty_level();

        let discount = self.loyalty_level.get_discount_percentage();
        let points_to_earn = points_for(discount, gross) as i32;
        proof {
            lemma_earned_points_rounds(discount as int, gross as int);
        }

        let transaction = Transaction::new(
            purchase_info.purchase_id,
            self.account_id,
            TransactionKind::Earn { total_payable_amount: gross as i32, discount },
            points_to_earn,
            created_by,
        );
        self.record(transaction);
        self.yearly_gross_turnover = self.yearly_gross_turnover + gross as i32;
        self.check_loyalty_level();
        proof {
            lemma_sums_after_push(old(self).transactions@, transaction, purchase_info.purchase_id);
        }

        let burned_points = self.get_burned_points(purchase_info.purchase_id);
        let earned_points = points_to_earn;
        let balance_closing = self.get_balance();
        let balance_opening = balance_closing - earned_points + burned_points;

        Ok(PurchaseSummary { balance_opening, burned_points, earned_points, balance_closing })
    }

    fn get_balance(&self) -> (balance: i32) {
        self.balance_points
    }

    fn check_loyalty_level(&mut self) {
        match self.loyalty_level {
            LoyaltyLevel::L1 => {
                if self.get_balance() >= TARGET_TO_JUMP {
                    self.loyalty_level = LoyaltyLevel::L2
                }
            },
            LoyaltyLevel::L2 => (),
        }
    }

    fn get_burned_points(&mut self, purchase_id: u128) -> (burned: i32) {
        proof {
            old(self).lemma_sums_in_range(purchase_id);
        }
        let mut acc: i32 = 0;
        let mut i: usize = 0;
        while i < self.transactions.len()
            invariant
                0 <= i <= self.transactions@.len(),
                *self == *old(self),
                self.wf(),
                acc == burned_points(self.transactions@.take(i as int), purchase_id),
                burned_points(self.transactions@, purchase_id) <= i32::MAX,
            decreases self.transactions@.len() - i,
        {
            let t = self.transactions[i];
            proof {
                let log = self.transactions@;
                lemma_burned_points_of_prefix(log, i + 1, purchase_id);
                assert(log.take(i + 1).drop_last() =~= log.take(i as int));
                assert(log.take(i + 1).last() == log[i as int]);
            }
            if t.purchase_id == purchase_id {
                match t.transaction_kind {
                    TransactionKind::Burn => {
                        acc = acc + t.amount;
                    },
                    _ => {},
                }
            }
            i = i + 1;
        }
        proof {
            assert(self.transactions@.take(i as int) =~= self.transactions@);
        }
        acc
    }
}

/// The points credited for `percent` hundredths of `gross`.
pub fn points_for(percent: u32, gross: u32) -> (points: u64)
    requires
        percent <= 100,
    ensures
        points == earned_points(percent as int, gross as int),
        points <= gross,
{
    assert(percent * gross <= 100 * gross) by (nonlinear_arith)
        requires
            percent <= 100,
            gross >= 0,
    ;
    (percent as u64 * gross as u64 + 50) / 100
}

/// The credited points are the nearest integer to the exact share: they lie
/// within a half of it, and a share that ends in a half is rounded up.
pub proof fn lemma_earned_points_rounds(percent: int, gross: int)
    requires
        percent >= 0,
        gross >= 0,
    ensures
        earned_points(percent, gross) >= 0,
        100 * earned_points(percent, gross) - 50 <= percent * gross < 100 * earned_points(
            percent,
            gross,
        ) + 50,
{
    assert(percent * gross >= 0) by (nonlinear_arith)
        requires
            percent >= 0,
            gross >= 0,
    ;
}

/// The automatic check moves a tier at most once and only upwards: it is
/// idempotent, it leaves the second tier alone, and where it changes the
/// tier, the tier was the first, is now the second, and the balance has
/// reached the target.
pub proof fn lemma_promotion(level: LoyaltyLevel, balance: int)
    ensures
        promoted(promoted(level, balance), balance) == promoted(level, balance),
        promoted(LoyaltyLevel::L2, balance) == LoyaltyLevel::L2,
        promoted(level, balance) != level ==> level == LoyaltyLevel::L1 && promoted(level, balance)
            == LoyaltyLevel::L2 && balance >= TARGET_TO_JUMP,
        level == LoyaltyLevel::L1 ==> (promoted(level, balance) == LoyaltyLevel::L2 <==> balance
            >= TARGET_TO_JUMP),
{
}

/// No operation on the ledger lowers the tier: a burn leaves it as it is,
/// and a closed purchase changes it only from the first to the second, and
/// only where the balance before or after the credit has reached the target.
pub proof fn lemma_level_only_rises(
    before: Account,
    after: Account,
    purchase_id: u128,
    points_to_burn: i32,
    purchase_info: PurchaseInfo,
    created_by: u32,
)
    requires
        after.is_burned(before, purchase_id, points_to_burn, created_by)
            || after.is_purchase_closed(before, purchase_info, created_by),
    ensures
        before.loyalty_level == LoyaltyLevel::L2 ==> after.loyalty_level == LoyaltyLevel::L2,
        after.loyalty_level != before.loyalty_level ==> {
            &&& after.is_purchase_closed(before, purchase_info, created_by)
            &&& before.loyalty_level == LoyaltyLevel::L1
            &&& after.loyalty_level == LoyaltyLevel::L2
            &&& after.balance_points >= TARGET_TO_JUMP || before.balance_points >= TARGET_TO_JUMP
        },
{
    if after.is_purchase_closed(before, purchase_info, created_by) {
        lemma_earned_points_rounds(
            before.purchase_level().percent(),
            purchase_info.payable_total_gross as int,
        );
    }
}

/// A purchase is credited under the tier that the balance before it has
/// earned: on the first tier below the target it earns two percent, however
/// far its own credit carries the balance.
pub proof fn lemma_purchase_rate_ignores_own_credit(account: Account, gross: u32)
    requires
        account.loyalty_level == LoyaltyLevel::L1,
        account.balance_points < TARGET_TO_JUMP,
    ensures
        account.purchase_level() == LoyaltyLevel::L1,
        account.purchase_points(gross) == earned_points(2, gross as int),
{
}

} // verus!
