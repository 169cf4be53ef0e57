//! The table exporter: one generic operation renders any entity collection
//! into its table text — filter the deleted records, encode each survivor's
//! row in fixed column order, terminate each row with a newline.
//!
//! Transactions and scheduled transactions are scrubbed of the synthetic
//! split category id before they are rendered; months are additionally
//! flattened into a categories-by-month join table.

use vstd::prelude::*;

use crate::model::Account;
use crate::model::Budget;
use crate::model::Category;
use crate::model::CategoryGroup;
use crate::model::Month;
use crate::model::MonthCategory;
use crate::model::Payee;
use crate::model::ScheduledSubtransaction;
use crate::model::ScheduledTransaction;
use crate::model::Subtransaction;
use crate::model::Transaction;
use crate::rows::account_row;
use crate::rows::category_group_row;
use crate::rows::category_row;
use crate::rows::encode_account_row;
use crate::rows::encode_category_group_row;
use crate::rows::encode_category_row;
use crate::rows::encode_month_category_row;
use crate::rows::encode_payee_row;
use crate::rows::encode_scheduled_subtransaction_row;
use crate::rows::encode_scheduled_transaction_row;
use crate::rows::encode_subtransaction_row;
use crate::rows::encode_transaction_row;
use crate::rows::month_category_row;
use crate::rows::month_row;
use crate::rows::payee_row;
use crate::rows::scheduled_subtransaction_row;
use crate::rows::scheduled_transaction_row;
use crate::rows::subtransaction_row;
use crate::rows::transaction_row;

verus! {

/// A record of one exportable table: whether it survives the delete filter,
/// and what its encoded row reads.
pub trait TableRecord: Sized {
    /// Whether the record appears in the output.
    spec fn keep(self) -> bool;

    /// The record's row text, without the terminator.
    spec fn row(self) -> Seq<char>;

    /// The filter decision, as executable code.
    fn keep_exec(&self) -> (b: bool)
        ensures
            b == self.keep(),
    ;

    /// The row encoding, as executable code.
    fn encode_row(&self) -> (r: String)
        ensures
            r@ == self.row(),
    ;
}

/// The delete-flag filter of one table, as a predicate value.
pub open spec fn keeps<T: TableRecord>() -> spec_fn(T) -> bool {
    |t: T| t.keep()
}

/// One rendered line: a record's row closed by a newline.
pub open spec fn line_of<T: TableRecord>() -> spec_fn(T) -> Seq<char> {
    |t: T| t.row().push('\n')
}

/// The lines of one table: the surviving records' rows, in source order,
/// each closed by a newline.
pub open spec fn lines_of<T: TableRecord>(s: Seq<T>) -> Seq<Seq<char>> {
    s.filter(keeps()).map_values(line_of())
}

/// The rendered text of one table.
pub open spec fn table_of<T: TableRecord>(s: Seq<T>) -> Seq<char> {
    lines_of(s).flatten()
}

/// An empty collection renders as the empty table.
pub proof fn lemma_table_of_empty<T: TableRecord>()
    ensures
        table_of(Seq::<T>::empty()) == Seq::<char>::empty(),
{
    reveal(Seq::filter);
    assert(lines_of(Seq::<T>::empty()) =~= Seq::<Seq<char>>::empty());
    assert(table_of(Seq::<T>::empty()) =~= Seq::<char>::empty());
}

/// Appending one record extends the table by exactly that record's line, or
/// leaves it unchanged when the record is filtered out.
pub proof fn lemma_table_of_push<T: TableRecord>(s: Seq<T>, x: T)
    ensures
        table_of(s.push(x)) == if x.keep() {
            table_of(s) + x.row().push('\n')
        } else {
            table_of(s)
        },
{
    reveal(Seq::filter);
    assert(s.push(x).drop_last() =~= s);
    if x.keep() {
        let line = x.row().push('\n');
        assert(lines_of(s.push(x)) =~= lines_of(s).push(line));
        lines_of(s).lemma_flatten_push(line);
    } else {
        assert(lines_of(s.push(x)) =~= lines_of(s));
    }
}

/// Appends the row terminator.
fn push_newline(s: &mut String)
    ensures
        final(s)@ == old(s)@.push('\n'),
{
    proof {
        reveal_strlit("\n");
    }
    s.append("\n");
    proof {
        assert(s@ =~= old(s)@.push('\n'));
    }
}

/// Renders one table: filters the deleted records and emits one
/// newline-terminated row per survivor, in source order.
pub fn export_table<T: TableRecord>(records: &Vec<T>) -> (r: String)
    ensures
        r@ == table_of(records@),
{
    let mut out = String::new();
    proof {
        lemma_table_of_empty::<T>();
        assert(records@.take(0) =~= Seq::<T>::empty());
    }
    let mut i: usize = 0;
    while i < records.len()
        invariant
            i <= records.len(),
            out@ == table_of(records@.take(i as int)),
        decreases records.len() - i,
    {
        let ghost prefix = records@.take(i as int);
        let rec = &records[i];
        if rec.keep_exec() {
            let row = rec.encode_row();
            out.append(row.as_str());
            push_newline(&mut out);
        }
        proof {
            lemma_table_of_push(prefix, records@[i as int]);
            assert(records@.take(i as int + 1) =~= prefix.push(records@[i as int]));
            if records@[i as int].keep() {
                assert(out@ =~= table_of(prefix) + records@[i as int].row().push('\n'));
            }
        }
        i += 1;
    }
    proof {
        assert(records@.take(records.len() as int) =~= records@);
    }
    out
}

impl TableRecord for Account {
    open spec fn keep(self) -> bool {
        !self.deleted
    }

    open spec fn row(self) -> Seq<char> {
        account_row(self)
    }

    fn keep_exec(&self) -> (b: bool) {
        !self.deleted
    }

    fn encode_row(&self) -> (r: String) {
        encode_account_row(self)
    }
}

impl TableRecord for CategoryGroup {
    open spec fn keep(self) -> bool {
        !self.deleted
    }

    open spec fn row(self) -> Seq<char> {
        category_group_row(self)
    }

    fn keep_exec(&self) -> (b: bool) {
        !self.deleted
    }

    fn encode_row(&self) -> (r: String) {
        encode_category_group_row(self)
    }
}

impl TableRecord for Category {
    open spec fn keep(self) -> bool {
        !self.deleted
    }

    open spec fn row(self) -> Seq<char> {
        category_row(self)
    }

    fn keep_exec(&self) -> (b: bool) {
        !self.deleted
    }

    fn encode_row(&self) -> (r: String) {
        encode_category_row(self)
    }
}

impl TableRecord for Payee {
    open spec fn keep(self) -> bool {
        !self.deleted
    }

    open spec fn row(self) -> Seq<char> {
        payee_row(self)
    }

    fn keep_exec(&self) -> (b: bool) {
        !self.deleted
    }

    fn encode_row(&self) -> (r: String) {
        encode_payee_row(self)
    }
}

impl TableRecord for Transaction {
    open spec fn keep(self) -> bool {
        !self.deleted
    }

    open spec fn row(self) -> Seq<char> {
        transaction_row(self)
    }

    fn keep_exec(&self) -> (b: bool) {
        !self.deleted
    }

    fn encode_row(&self) -> (r: String) {
        encode_transaction_row(self)
    }
}

impl TableRecord for Subtransaction {
    open spec fn keep(self) -> bool {
        !self.deleted
    }

    open spec fn row(self) -> Seq<char> {
        subtransaction_row(self)
    }

    fn keep_exec(&self) -> (b: bool) {
        !self.deleted
    }

    fn encode_row(&self) -> (r: String) {
        encode_subtransaction_row(self)
    }
}

impl TableRecord for Month {
    open spec fn keep(self) -> bool {
        !self.deleted
    }

    open spec fn row(self) -> Seq<char> {
        month_row(self)
    }

    fn keep_exec(&self) -> (b: bool) {
        !self.deleted
    }

    fn encode_row(&self) -> (r: String) {
        self.month.clone()
    }
}

impl TableRecord for ScheduledTransaction {
    open spec fn keep(self) -> bool {
        !self.deleted
    }

    open spec fn row(self) -> Seq<char> {
        scheduled_transaction_row(self)
    }

    fn keep_exec(&self) -> (b: bool) {
        !self.deleted
    }

    fn encode_row(&self) -> (r: String) {
        encode_scheduled_transaction_row(self)
    }
}

impl TableRecord for ScheduledSubtransaction {
    open spec fn keep(self) -> bool {
        !self.deleted
    }

    open spec fn row(self) -> Seq<char> {
        scheduled_subtransaction_row(self)
    }

    fn keep_exec(&self) -> (b: bool) {
        !self.deleted
    }

    fn encode_row(&self) -> (r: String) {
        encode_scheduled_subtransaction_row(self)
    }
}

/// Clones an optional text field.
fn clone_opt_string(o: &Option<String>) -> (r: Option<String>)
    ensures
        r == *o,
{
    match o {
        Option::None => Option::None,
        Option::Some(s) => Option::Some(s.clone()),
    }
}

/// A transaction as it is encoded: a raw category id equal to the synthetic
/// split category id is replaced by an absent reference before the record
/// reaches the row encoder.
pub open spec fn scrubbed_transaction(t: Transaction, split: Seq<char>) -> Transaction {
    match t.category_id {
        Option::None => t,
        Option::Some(c) => if c@ == split {
            Transaction { category_id: Option::None, ..t }
        } else {
            t
        },
    }
}

/// The transactions the exporter renders: every record scrubbed of the split
/// category id.
pub open spec fn scrubbed_transactions(s: Seq<Transaction>, split: Seq<char>) -> Seq<Transaction> {
    s.map_values(|t: Transaction| scrubbed_transaction(t, split))
}

/// The rendered transactions table.
pub open spec fn transactions_table(s: Seq<Transaction>, split: Seq<char>) -> Seq<char> {
    table_of(scrubbed_transactions(s, split))
}

/// Applies the split-category substitution to one transaction.
pub fn scrub_transaction(t: &Transaction, split: &String) -> (r: Transaction)
    ensures
        r == scrubbed_transaction(*t, split@),
{
    let category_id = match &t.category_id {
        Option::None => Option::None,
        Option::Some(c) => if c.eq(split) {
            Option::None
        } else {
            Option::Some(c.clone())
        },
    };
    Transaction {
        id: t.id.clone(),
        date: t.date.clone(),
        amount: t.amount,
        memo: clone_opt_string(&t.memo),
        cleared: t.cleared,
        approved: t.approved,
        flag_color: t.flag_color,
        account_id: t.account_id.clone(),
        payee_id: clone_opt_string(&t.payee_id),
        category_id,
        transfer_account_id: clone_opt_string(&t.transfer_account_id),
        deleted: t.deleted,
    }
}

/// Applies the split-category substitution to every transaction.
pub fn scrub_transactions(v: &Vec<Transaction>, split: &String) -> (r: Vec<Transaction>)
    ensures
        r@ == scrubbed_transactions(v@, split@),
{
    let mut out: Vec<Transaction> = Vec::new();
    let mut i: usize = 0;
    proof {
        assert(v@.take(0) =~= Seq::<Transaction>::empty());
        assert(out@ =~= scrubbed_transactions(v@.take(0), split@));
    }
    while i < v.len()
        invariant
            i <= v.len(),
            out@ == scrubbed_transactions(v@.take(i as int), split@),
        decreases v.len() - i,
    {
        let ghost prefix = v@.take(i as int);
        out.push(scrub_transaction(&v[i], split));
        proof {
            assert(v@.take(i as int + 1) =~= prefix.push(v@[i as int]));
            assert(scrubbed_transactions(prefix.push(v@[i as int]), split@) =~= scrubbed_transactions(
                prefix,
                split@,
            ).push(scrubbed_transaction(v@[i as int], split@)));
        }
        i += 1;
    }
    proof {
        assert(v@.take(v.len() as int) =~= v@);
    }
    out
}

/// A scheduled transaction as it is encoded, scrubbed like a posted one.
pub open spec fn scrubbed_scheduled(t: ScheduledTransaction, split: Seq<char>) -> ScheduledTransaction {
    match t.category_id {
        Option::None => t,
        Option::Some(c) => if c@ == split {
            ScheduledTransaction { category_id: Option::None, ..t }
        } else {
            t
        },
    }
}

/// The scheduled transactions the exporter renders.
pub open spec fn scrubbed_scheduleds(s: Seq<ScheduledTransaction>, split: Seq<char>) -> Seq<
    ScheduledTransaction,
> {
    s.map_values(|t: ScheduledTransaction| scrubbed_scheduled(t, split))
}

/// The rendered scheduled-transactions table.
pub open spec fn scheduled_transactions_table(
    s: Seq<ScheduledTransaction>,
    split: Seq<char>,
) -> Seq<char> {
    table_of(scrubbed_scheduleds(s, split))
}

/// Applies the split-category substitution to one scheduled transaction.
pub fn scrub_scheduled(t: &ScheduledTransaction, split: &String) -> (r: ScheduledTransaction)
    ensures
        r == scrubbed_scheduled(*t, split@),
{
    let category_id = match &t.category_id {
        Option::None => Option::None,
        Option::Some(c) => if c.eq(split) {
            Option::None
        } else {
            Option::Some(c.clone())
        },
    };
    ScheduledTransaction {
        id: t.id.clone(),
        date_next: t.date_next.clone(),
        frequency: t.frequency,
        amount: t.amount,
        memo: clone_opt_string(&t.memo),
        flag_color: t.flag_color,
        account_id: t.account_id.clone(),
        payee_id: clone_opt_string(&t.payee_id),
        category_id,
        transfer_account_id: clone_opt_string(&t.transfer_account_id),
        deleted: t.deleted,
    }
}

/// Applies the split-category substitution to every scheduled transaction.
pub fn scrub_scheduleds(v: &Vec<ScheduledTransaction>, split: &String) -> (r: Vec<
    ScheduledTransaction,
>)
    ensures
        r@ == scrubbed_scheduleds(v@, split@),
{
    let mut out: Vec<ScheduledTransaction> = Vec::new();
    let mut i: usize = 0;
    proof {
        assert(v@.take(0) =~= Seq::<ScheduledTransaction>::empty());
        assert(out@ =~= scrubbed_scheduleds(v@.take(0), split@));
    }
    while i < v.len()
        invariant
            i <= v.len(),
            out@ == scrubbed_scheduleds(v@.take(i as int), split@),
        decreases v.len() - i,
    {
        let ghost prefix = v@.take(i as int);
        out.push(scrub_scheduled(&v[i], split));
        proof {
            assert(v@.take(i as int + 1) =~= prefix.push(v@[i as int]));
            assert(scrubbed_scheduleds(prefix.push(v@[i as int]), split@) =~= scrubbed_scheduleds(
                prefix,
                split@,
            ).push(scrubbed_scheduled(v@[i as int], split@)));
        }
        i += 1;
    }
    proof {
        assert(v@.take(v.len() as int) =~= v@);
    }
    out
}

/// One categories-by-month record: a month's snapshot entry joined with its
/// owning month's key.
pub struct MonthCategoryJoin {
    pub month: String,
    pub category: MonthCategory,
}

impl TableRecord for MonthCategoryJoin {
    open spec fn keep(self) -> bool {
        !self.category.deleted
    }

    open spec fn row(self) -> Seq<char> {
        month_category_row(self.month@, self.category)
    }

    fn keep_exec(&self) -> (b: bool) {
        !self.category.deleted
    }

    fn encode_row(&self) -> (r: String) {
        encode_month_category_row(&self.month, &self.category)
    }
}

/// Pairs a snapshot with its owning month's key, as a function value.
pub open spec fn join_with(month: String) -> spec_fn(MonthCategory) -> MonthCategoryJoin {
    |c: MonthCategory| MonthCategoryJoin { month: month, category: c }
}

/// The join records contributed by one month: each embedded snapshot paired
/// with the month's key.
pub open spec fn month_joins(m: Month) -> Seq<MonthCategoryJoin> {
    m.categories@.map_values(join_with(m.month))
}

/// The join records of a run: only months that survive their own delete flag
/// contribute; each snapshot's own flag is evaluated independently, by the
/// table filter.
pub open spec fn joins_of(s: Seq<Month>) -> Seq<MonthCategoryJoin>
    decreases s.len(),
{
    if s.len() == 0 {
        Seq::empty()
    } else {
        joins_of(s.drop_last()) + (if s.last().deleted {
            Seq::empty()
        } else {
            month_joins(s.last())
        })
    }
}

/// The rendered categories-by-month table.
pub open spec fn month_categories_table(s: Seq<Month>) -> Seq<char> {
    table_of(joins_of(s))
}

/// Clones one month-category snapshot.
fn clone_month_category(c: &MonthCategory) -> (r: MonthCategory)
    ensures
        r == *c,
{
    MonthCategory {
        id: c.id.clone(),
        name: c.name.clone(),
        hidden: c.hidden,
        budgeted: c.budgeted,
        activity: c.activity,
        balance: c.balance,
        deleted: c.deleted,
    }
}

/// Materializes the categories-by-month join: every surviving month's
/// snapshots, each carrying the owning month's key.
pub fn build_month_joins(months: &Vec<Month>) -> (r: Vec<MonthCategoryJoin>)
    ensures
        r@ == joins_of(months@),
{
    let mut out: Vec<MonthCategoryJoin> = Vec::new();
    let mut i: usize = 0;
    proof {
        assert(months@.take(0) =~= Seq::<Month>::empty());
        assert(out@ =~= joins_of(months@.take(0)));
    }
    while i < months.len()
        invariant
            i <= months.len(),
            out@ == joins_of(months@.take(i as int)),
        decreases months.len() - i,
    {
        let ghost prefix = months@.take(i as int);
        let m = &months[i];
        if !m.deleted {
            let mut j: usize = 0;
            while j < m.categories.len()
                invariant
                    j <= m.categories.len(),
                    out@ == joins_of(prefix) + month_joins(months@[i as int]).take(j as int),
                    m == &months[i as int],
                    i < months.len(),
                    prefix == months@.take(i as int),
                decreases m.categories.len() - j,
            {
                let ghost joins = month_joins(months@[i as int]);
                out.push(
                    MonthCategoryJoin {
                        month: m.month.clone(),
                        category: clone_month_category(&m.categories[j]),
                    },
                );
                proof {
                    assert(joins.take(j as int + 1) =~= joins.take(j as int).push(
                        joins[j as int],
                    ));
                    assert(out@ =~= joins_of(prefix) + joins.take(j as int + 1));
                }
                j += 1;
            }
            proof {
                assert(month_joins(months@[i as int]).take(m.categories.len() as int)
                    =~= month_joins(months@[i as int]));
            }
        }
        proof {
            assert(months@.take(i as int + 1).drop_last() =~= prefix);
            assert(months@.take(i as int + 1).last() == months@[i as int]);
            if months@[i as int].deleted {
                assert(out@ =~= joins_of(prefix) + Seq::<MonthCategoryJoin>::empty());
            }
            assert(out@ =~= joins_of(months@.take(i as int + 1)));
        }
        i += 1;
    }
    proof {
        assert(months@.take(months.len() as int) =~= months@);
    }
    out
}

/// The rendered text of the ten output tables of one snapshot.
pub struct ExportTables {
    pub accounts: String,
    pub category_groups: String,
    pub categories: String,
    pub payees: String,
    pub transactions: String,
    pub subtransactions: String,
    pub months: String,
    pub categories_by_month: String,
    pub scheduled_transactions: String,
    pub scheduled_subtransactions: String,
}

/// Flattens one snapshot into the ten output tables. `split_category_id` is
/// the synthetic split category id to scrub from transaction category
/// references; the budgeting service may allocate it per account, so it is
/// configuration, not a constant of this crate.
pub fn export_budget(b: &Budget, split_category_id: &String) -> (r: ExportTables)
    ensures
        r.accounts@ == table_of(b.accounts@),
        r.category_groups@ == table_of(b.category_groups@),
        r.categories@ == table_of(b.categories@),
        r.payees@ == table_of(b.payees@),
        r.transactions@ == transactions_table(b.transactions@, split_category_id@),
        r.subtransactions@ == table_of(b.subtransactions@),
        r.months@ == table_of(b.months@),
        r.categories_by_month@ == month_categories_table(b.months@),
        r.scheduled_transactions@ == scheduled_transactions_table(
            b.scheduled_transactions@,
            split_category_id@,
        ),
        r.scheduled_subtransactions@ == table_of(b.scheduled_subtransactions@),
{
    let scrubbed_txns = scrub_transactions(&b.transactions, split_category_id);
    let scrubbed_scheds = scrub_scheduleds(&b.scheduled_transactions, split_category_id);
    let joins = build_month_joins(&b.months);
    ExportTables {
        accounts: export_table(&b.accounts),
        category_groups: export_table(&b.category_groups),
        categories: export_table(&b.categories),
        payees: export_table(&b.payees),
        transactions: export_table(&scrubbed_txns),
        subtransactions: export_table(&b.subtransactions),
        months: export_table(&b.months),
        categories_by_month: export_table(&joins),
        scheduled_transactions: export_table(&scrubbed_scheds),
        scheduled_subtransactions: export_table(&b.scheduled_subtransactions),
    }
}

} // verus!
