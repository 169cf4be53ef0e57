//! The entity shapes of one budget snapshot, as plain values.
//!
//! Every entity carries its soft-delete flag; a set flag keeps the record out
//! of every output table. Monetary fields are integer milliunits. Optional
//! fields are `Option`; enumerated fields are closed enums, so an unmapped
//! variant cannot exist once a value of the type has been built.

use vstd::prelude::*;

verus! {

/// Cleared state of a transaction.
#[derive(Clone, Copy, PartialEq, Eq, Debug)]
pub enum Cleared {
    Cleared,
    Uncleared,
    Reconciled,
}

/// Flag color attached to a transaction or a scheduled transaction.
#[derive(Clone, Copy, PartialEq, Eq, Debug)]
pub enum FlagColor {
    Red,
    Orange,
    Yellow,
    Green,
    Blue,
    Purple,
}

/// Recurrence frequency of a scheduled transaction.
#[derive(Clone, Copy, PartialEq, Eq, Debug)]
pub enum Frequency {
    Never,
    Daily,
    Weekly,
    EveryOtherWeek,
    TwiceAMonth,
    Every4Weeks,
    Monthly,
    EveryOtherMonth,
    Every3Months,
    Every4Months,
    TwiceAYear,
    Yearly,
    EveryOtherYear,
}

/// A bank or budget account.
pub struct Account {
    pub id: String,
    pub name: String,
    pub on_budget: bool,
    pub closed: bool,
    pub balance: i64,
    pub cleared_balance: i64,
    pub uncleared_balance: i64,
    pub deleted: bool,
}

/// A group of budget categories.
pub struct CategoryGroup {
    pub id: String,
    pub name: String,
    pub hidden: bool,
    pub deleted: bool,
}

/// A budget category inside a group.
pub struct Category {
    pub id: String,
    pub category_group_id: String,
    pub name: String,
    pub hidden: bool,
    pub budgeted: i64,
    pub activity: i64,
    pub balance: i64,
    pub deleted: bool,
}

/// A payee; its name is trimmed of surrounding whitespace on export.
pub struct Payee {
    pub id: String,
    pub name: String,
    pub transfer_account_id: Option<String>,
    pub deleted: bool,
}

/// A posted transaction. A `category_id` equal to the synthetic split
/// category id stands for a multi-category breakdown held in
/// `Subtransaction` records and is exported as NULL.
pub struct Transaction {
    pub id: String,
    pub date: String,
    pub amount: i64,
    pub memo: Option<String>,
    pub cleared: Cleared,
    pub approved: bool,
    pub flag_color: Option<FlagColor>,
    pub account_id: String,
    pub payee_id: Option<String>,
    pub category_id: Option<String>,
    pub transfer_account_id: Option<String>,
    pub deleted: bool,
}

/// One split of a transaction's amount; carries the real category reference.
pub struct Subtransaction {
    pub id: String,
    pub transaction_id: String,
    pub amount: i64,
    pub memo: Option<String>,
    pub payee_id: Option<String>,
    pub category_id: Option<String>,
    pub transfer_account_id: Option<String>,
    pub deleted: bool,
}

/// A category's snapshot for one month; `deleted` is evaluated independently
/// of the owning month's own flag.
pub struct MonthCategory {
    pub id: String,
    pub name: String,
    pub hidden: bool,
    pub budgeted: i64,
    pub activity: i64,
    pub balance: i64,
    pub deleted: bool,
}

/// One month, with its embedded per-category snapshots.
pub struct Month {
    pub month: String,
    pub categories: Vec<MonthCategory>,
    pub deleted: bool,
}

/// A scheduled (future, recurring) transaction.
pub struct ScheduledTransaction {
    pub id: String,
    pub date_next: String,
    pub frequency: Frequency,
    pub amount: i64,
    pub memo: Option<String>,
    pub flag_color: Option<FlagColor>,
    pub account_id: String,
    pub payee_id: Option<String>,
    pub category_id: Option<String>,
    pub transfer_account_id: Option<String>,
    pub deleted: bool,
}

/// One split of a scheduled transaction's amount.
pub struct ScheduledSubtransaction {
    pub id: String,
    pub scheduled_transaction_id: String,
    pub amount: i64,
    pub memo: Option<String>,
    pub payee_id: Option<String>,
    pub category_id: Option<String>,
    pub transfer_account_id: Option<String>,
    pub deleted: bool,
}

/// One fully materialized budget snapshot, read once per export run.
pub struct Budget {
    pub accounts: Vec<Account>,
    pub category_groups: Vec<CategoryGroup>,
    pub categories: Vec<Category>,
    pub payees: Vec<Payee>,
    pub transactions: Vec<Transaction>,
    pub subtransactions: Vec<Subtransaction>,
    pub months: Vec<Month>,
    pub scheduled_transactions: Vec<ScheduledTransaction>,
    pub scheduled_subtransactions: Vec<ScheduledSubtransaction>,
}

} // verus!
