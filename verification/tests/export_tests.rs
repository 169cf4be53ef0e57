use ynab_export::encode::bool_str;
use ynab_export::encode::cleared_to_str;
use ynab_export::encode::encode_i64;
use ynab_export::encode::encode_opt_flag;
use ynab_export::encode::encode_opt_text;
use ynab_export::encode::encode_u64;
use ynab_export::encode::flag_color_to_str;
use ynab_export::encode::frequency_to_str;
use ynab_export::encode::null_string;
use ynab_export::export::export_budget;
use ynab_export::export::export_table;
use ynab_export::export::scrub_transaction;
use ynab_export::model::Account;
use ynab_export::model::Budget;
use ynab_export::model::Category;
use ynab_export::model::CategoryGroup;
use ynab_export::model::Cleared;
use ynab_export::model::FlagColor;
use ynab_export::model::Frequency;
use ynab_export::model::Month;
use ynab_export::model::MonthCategory;
use ynab_export::model::Payee;
use ynab_export::model::ScheduledSubtransaction;
use ynab_export::model::ScheduledTransaction;
use ynab_export::model::Subtransaction;
use ynab_export::model::Transaction;

const SPLIT: &str = "4f42d139-ded2-4782-b16e-e944868fbf62";

fn empty_budget() -> Budget {
    Budget {
        accounts: vec![],
        category_groups: vec![],
        categories: vec![],
        payees: vec![],
        transactions: vec![],
        subtransactions: vec![],
        months: vec![],
        scheduled_transactions: vec![],
        scheduled_subtransactions: vec![],
    }
}

fn checking_account(deleted: bool) -> Account {
    Account {
        id: "A1".to_string(),
        name: "Checking".to_string(),
        on_budget: true,
        closed: false,
        balance: 1000,
        cleared_balance: 1000,
        uncleared_balance: 0,
        deleted,
    }
}

fn plain_transaction(id: &str, category_id: Option<&str>, payee_id: Option<&str>) -> Transaction {
    Transaction {
        id: id.to_string(),
        date: "2024-03-01".to_string(),
        amount: -4500,
        memo: None,
        cleared: Cleared::Cleared,
        approved: true,
        flag_color: None,
        account_id: "A1".to_string(),
        payee_id: payee_id.map(|s| s.to_string()),
        category_id: category_id.map(|s| s.to_string()),
        transfer_account_id: None,
        deleted: false,
    }
}

fn snapshot(id: &str, deleted: bool) -> MonthCategory {
    MonthCategory {
        id: id.to_string(),
        name: "Groceries".to_string(),
        hidden: false,
        budgeted: 100,
        activity: -50,
        balance: 50,
        deleted,
    }
}

#[test]
fn empty_snapshot_gives_ten_empty_tables() {
    let tables = export_budget(&empty_budget(), &SPLIT.to_string());
    assert_eq!(tables.accounts, "");
    assert_eq!(tables.category_groups, "");
    assert_eq!(tables.categories, "");
    assert_eq!(tables.payees, "");
    assert_eq!(tables.transactions, "");
    assert_eq!(tables.subtransactions, "");
    assert_eq!(tables.months, "");
    assert_eq!(tables.categories_by_month, "");
    assert_eq!(tables.scheduled_transactions, "");
    assert_eq!(tables.scheduled_subtransactions, "");
}

#[test]
fn month_without_snapshots_still_lists_its_key() {
    let mut budget = empty_budget();
    budget.months.push(Month {
        month: "2024-02-01".to_string(),
        categories: vec![],
        deleted: false,
    });
    let tables = export_budget(&budget, &SPLIT.to_string());
    assert_eq!(tables.months, "2024-02-01\n");
    assert_eq!(tables.categories_by_month, "");
}

#[test]
fn closed_off_budget_account_with_negative_balance() {
    let mut budget = empty_budget();
    budget.accounts.push(Account {
        id: "A3".to_string(),
        name: "Old Card".to_string(),
        on_budget: false,
        closed: true,
        balance: -250,
        cleared_balance: -250,
        uncleared_balance: 0,
        deleted: false,
    });
    let tables = export_budget(&budget, &SPLIT.to_string());
    assert_eq!(tables.accounts, "A3\tOld Card\t0\t1\t-250\t-250\t0\n");
}

#[test]
fn account_row_end_to_end() {
    let mut budget = empty_budget();
    budget.accounts.push(checking_account(false));
    let tables = export_budget(&budget, &SPLIT.to_string());
    assert_eq!(tables.accounts, "A1\tChecking\t1\t0\t1000\t1000\t0\n");
}

#[test]
fn deleted_records_appear_in_no_table() {
    let mut budget = empty_budget();
    budget.accounts.push(checking_account(true));
    budget.category_groups.push(CategoryGroup {
        id: "G1".to_string(),
        name: "Bills".to_string(),
        hidden: false,
        deleted: true,
    });
    budget.categories.push(Category {
        id: "C1".to_string(),
        category_group_id: "G1".to_string(),
        name: "Rent".to_string(),
        hidden: false,
        budgeted: 1,
        activity: 2,
        balance: 3,
        deleted: true,
    });
    budget.payees.push(Payee {
        id: "P1".to_string(),
        name: "Landlord".to_string(),
        transfer_account_id: None,
        deleted: true,
    });
    let mut t = plain_transaction("T1", None, None);
    t.deleted = true;
    budget.transactions.push(t);
    budget.subtransactions.push(Subtransaction {
        id: "S1".to_string(),
        transaction_id: "T1".to_string(),
        amount: 5,
        memo: None,
        payee_id: None,
        category_id: None,
        transfer_account_id: None,
        deleted: true,
    });
    budget.months.push(Month {
        month: "2024-01-01".to_string(),
        categories: vec![snapshot("C1", false)],
        deleted: true,
    });
    budget.scheduled_transactions.push(ScheduledTransaction {
        id: "ST1".to_string(),
        date_next: "2024-04-01".to_string(),
        frequency: Frequency::Monthly,
        amount: 7,
        memo: None,
        flag_color: None,
        account_id: "A1".to_string(),
        payee_id: None,
        category_id: None,
        transfer_account_id: None,
        deleted: true,
    });
    budget.scheduled_subtransactions.push(ScheduledSubtransaction {
        id: "SS1".to_string(),
        scheduled_transaction_id: "ST1".to_string(),
        amount: 9,
        memo: None,
        payee_id: None,
        category_id: None,
        transfer_account_id: None,
        deleted: true,
    });
    let tables = export_budget(&budget, &SPLIT.to_string());
    assert_eq!(tables.accounts, "");
    assert_eq!(tables.category_groups, "");
    assert_eq!(tables.categories, "");
    assert_eq!(tables.payees, "");
    assert_eq!(tables.transactions, "");
    assert_eq!(tables.subtransactions, "");
    assert_eq!(tables.months, "");
    assert_eq!(tables.categories_by_month, "");
    assert_eq!(tables.scheduled_transactions, "");
    assert_eq!(tables.scheduled_subtransactions, "");
}

#[test]
fn deleted_record_between_survivors_is_skipped() {
    let mut keep1 = checking_account(false);
    keep1.id = "A1".to_string();
    let dropped = checking_account(true);
    let mut keep2 = checking_account(false);
    keep2.id = "A2".to_string();
    let rows = export_table(&vec![keep1, dropped, keep2]);
    assert_eq!(
        rows,
        "A1\tChecking\t1\t0\t1000\t1000\t0\nA2\tChecking\t1\t0\t1000\t1000\t0\n"
    );
}

#[test]
fn split_category_and_absent_payee_export_as_null() {
    let mut budget = empty_budget();
    budget.transactions.push(plain_transaction("T1", Some(SPLIT), None));
    budget.subtransactions.push(Subtransaction {
        id: "S1".to_string(),
        transaction_id: "T1".to_string(),
        amount: -4500,
        memo: None,
        payee_id: None,
        category_id: Some("C9".to_string()),
        transfer_account_id: None,
        deleted: false,
    });
    let tables = export_budget(&budget, &SPLIT.to_string());
    assert_eq!(
        tables.transactions,
        "T1\t2024-03-01\t-4500\t\\N\tcleared\t1\t\\N\tA1\t\\N\t\\N\t\\N\n"
    );
    assert_eq!(
        tables.subtransactions,
        "S1\tT1\t-4500\t\\N\t\\N\tC9\t\\N\n"
    );
}

#[test]
fn real_category_id_exports_verbatim() {
    let mut budget = empty_budget();
    budget.transactions.push(plain_transaction("T1", Some("C7"), Some("P1")));
    let tables = export_budget(&budget, &SPLIT.to_string());
    assert_eq!(
        tables.transactions,
        "T1\t2024-03-01\t-4500\t\\N\tcleared\t1\t\\N\tA1\tP1\tC7\t\\N\n"
    );
}

#[test]
fn scheduled_split_category_exports_as_null() {
    let mut budget = empty_budget();
    budget.scheduled_transactions.push(ScheduledTransaction {
        id: "ST1".to_string(),
        date_next: "2024-04-01".to_string(),
        frequency: Frequency::Weekly,
        amount: 2500,
        memo: Some("note".to_string()),
        flag_color: Some(FlagColor::Red),
        account_id: "A1".to_string(),
        payee_id: None,
        category_id: Some(SPLIT.to_string()),
        transfer_account_id: None,
        deleted: false,
    });
    let tables = export_budget(&budget, &SPLIT.to_string());
    assert_eq!(
        tables.scheduled_transactions,
        "ST1\t2024-04-01\tweekly\t2500\tnote\tred\tA1\t\\N\t\\N\t\\N\n"
    );
}

#[test]
fn scrub_leaves_other_fields_alone() {
    let t = plain_transaction("T1", Some(SPLIT), Some("P1"));
    let scrubbed = scrub_transaction(&t, &SPLIT.to_string());
    assert_eq!(scrubbed.category_id, None);
    assert_eq!(scrubbed.id, "T1");
    assert_eq!(scrubbed.payee_id, Some("P1".to_string()));
    let untouched = scrub_transaction(&plain_transaction("T2", Some("C7"), None), &SPLIT.to_string());
    assert_eq!(untouched.category_id, Some("C7".to_string()));
}

#[test]
fn month_join_counts_surviving_snapshots_only() {
    let mut budget = empty_budget();
    budget.months.push(Month {
        month: "2024-01-01".to_string(),
        categories: vec![snapshot("C1", false), snapshot("C2", true), snapshot("C3", false)],
        deleted: false,
    });
    let tables = export_budget(&budget, &SPLIT.to_string());
    assert_eq!(tables.months, "2024-01-01\n");
    assert_eq!(
        tables.categories_by_month,
        "2024-01-01\tC1\tGroceries\t0\t100\t-50\t50\n2024-01-01\tC3\tGroceries\t0\t100\t-50\t50\n"
    );
}

#[test]
fn deleted_month_contributes_no_rows_at_all() {
    let mut budget = empty_budget();
    budget.months.push(Month {
        month: "2023-12-01".to_string(),
        categories: vec![snapshot("C1", false)],
        deleted: true,
    });
    budget.months.push(Month {
        month: "2024-01-01".to_string(),
        categories: vec![snapshot("C2", false)],
        deleted: false,
    });
    let tables = export_budget(&budget, &SPLIT.to_string());
    assert_eq!(tables.months, "2024-01-01\n");
    assert_eq!(
        tables.categories_by_month,
        "2024-01-01\tC2\tGroceries\t0\t100\t-50\t50\n"
    );
}

#[test]
fn payee_name_is_trimmed() {
    let mut budget = empty_budget();
    budget.payees.push(Payee {
        id: "P1".to_string(),
        name: "  Corner Shop \t".to_string(),
        transfer_account_id: None,
        deleted: false,
    });
    let tables = export_budget(&budget, &SPLIT.to_string());
    assert_eq!(tables.payees, "P1\tCorner Shop\t\\N\n");
}

#[test]
fn payee_transfer_account_exports_when_present() {
    let mut budget = empty_budget();
    budget.payees.push(Payee {
        id: "P2".to_string(),
        name: "Savings".to_string(),
        transfer_account_id: Some("A9".to_string()),
        deleted: false,
    });
    let tables = export_budget(&budget, &SPLIT.to_string());
    assert_eq!(tables.payees, "P2\tSavings\tA9\n");
}

#[test]
fn optional_cells_round_trip() {
    assert_eq!(null_string(), "\\N");
    assert_eq!(encode_opt_text(&None), "\\N");
    assert_eq!(encode_opt_text(&Some("memo text".to_string())), "memo text");
    assert_ne!(encode_opt_text(&Some("x".to_string())), encode_opt_text(&None));
    assert_eq!(encode_opt_flag(&None), "\\N");
    assert_eq!(encode_opt_flag(&Some(FlagColor::Blue)), "blue");
}

#[test]
fn money_cells_are_exact_signed_decimals() {
    assert_eq!(encode_i64(0), "0");
    assert_eq!(encode_i64(7), "7");
    assert_eq!(encode_i64(-45), "-45");
    assert_eq!(encode_i64(1000), "1000");
    assert_eq!(encode_i64(-1), "-1");
    assert_eq!(encode_i64(i64::MAX), "9223372036854775807");
    assert_eq!(encode_i64(i64::MIN), "-9223372036854775808");
    assert_eq!(encode_u64(10), "10");
    assert_eq!(encode_u64(u64::MAX), "18446744073709551615");
}

#[test]
fn bool_cells_are_one_and_zero() {
    assert_eq!(bool_str(true), "1");
    assert_eq!(bool_str(false), "0");
}

#[test]
fn enum_tokens_match_the_vocabulary() {
    assert_eq!(cleared_to_str(Cleared::Cleared), "cleared");
    assert_eq!(cleared_to_str(Cleared::Uncleared), "uncleared");
    assert_eq!(cleared_to_str(Cleared::Reconciled), "reconciled");
    assert_eq!(flag_color_to_str(FlagColor::Red), "red");
    assert_eq!(flag_color_to_str(FlagColor::Orange), "orange");
    assert_eq!(flag_color_to_str(FlagColor::Yellow), "yellow");
    assert_eq!(flag_color_to_str(FlagColor::Green), "green");
    assert_eq!(flag_color_to_str(FlagColor::Blue), "blue");
    assert_eq!(flag_color_to_str(FlagColor::Purple), "purple");
    assert_eq!(frequency_to_str(Frequency::Never), "never");
    assert_eq!(frequency_to_str(Frequency::Daily), "daily");
    assert_eq!(frequency_to_str(Frequency::Weekly), "weekly");
    assert_eq!(frequency_to_str(Frequency::EveryOtherWeek), "everyOtherWeek");
    assert_eq!(frequency_to_str(Frequency::TwiceAMonth), "twiceAMonth");
    assert_eq!(frequency_to_str(Frequency::Every4Weeks), "every4Weeks");
    assert_eq!(frequency_to_str(Frequency::Monthly), "monthly");
    assert_eq!(frequency_to_str(Frequency::EveryOtherMonth), "everyOtherMonth");
    assert_eq!(frequency_to_str(Frequency::Every3Months), "every3Months");
    assert_eq!(frequency_to_str(Frequency::Every4Months), "every4Months");
    assert_eq!(frequency_to_str(Frequency::TwiceAYear), "twiceAYear");
    assert_eq!(frequency_to_str(Frequency::Yearly), "yearly");
    assert_eq!(frequency_to_str(Frequency::EveryOtherYear), "everyOtherYear");
}

#[test]
fn category_group_and_category_rows() {
    let mut budget = empty_budget();
    budget.category_groups.push(CategoryGroup {
        id: "G1".to_string(),
        name: "Bills".to_string(),
        hidden: true,
        deleted: false,
    });
    budget.categories.push(Category {
        id: "C1".to_string(),
        category_group_id: "G1".to_string(),
        name: "Rent".to_string(),
        hidden: false,
        budgeted: 120000,
        activity: -120000,
        balance: 0,
        deleted: false,
    });
    let tables = export_budget(&budget, &SPLIT.to_string());
    assert_eq!(tables.category_groups, "G1\tBills\t1\n");
    assert_eq!(tables.categories, "C1\tG1\tRent\t0\t120000\t-120000\t0\n");
}

#[test]
fn scheduled_subtransaction_row_with_all_fields() {
    let mut budget = empty_budget();
    budget.scheduled_subtransactions.push(ScheduledSubtransaction {
        id: "SS1".to_string(),
        scheduled_transaction_id: "ST1".to_string(),
        amount: -300,
        memo: Some("part".to_string()),
        payee_id: Some("P1".to_string()),
        category_id: Some("C1".to_string()),
        transfer_account_id: Some("A2".to_string()),
        deleted: false,
    });
    let tables = export_budget(&budget, &SPLIT.to_string());
    assert_eq!(
        tables.scheduled_subtransactions,
        "SS1\tST1\t-300\tpart\tP1\tC1\tA2\n"
    );
}

#[test]
fn transaction_with_flag_and_memo() {
    let mut t = plain_transaction("T3", Some("C1"), Some("P1"));
    t.memo = Some("weekly shop".to_string());
    t.flag_color = Some(FlagColor::Green);
    t.cleared = Cleared::Reconciled;
    t.approved = false;
    t.transfer_account_id = Some("A2".to_string());
    let mut budget = empty_budget();
    budget.transactions.push(t);
    let tables = export_budget(&budget, &SPLIT.to_string());
    assert_eq!(
        tables.transactions,
        "T3\t2024-03-01\t-4500\tweekly shop\treconciled\t0\tgreen\tA1\tP1\tC1\tA2\n"
    );
}
