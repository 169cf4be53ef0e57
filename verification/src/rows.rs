//! One output row per entity kind: every attribute encoded in fixed column
//! order, columns separated by a single tab.
//!
//! The row functions say nothing about deletion; filtering is the table
//! layer's job. The synthetic split category id is likewise handled before a
//! record reaches its row: the table layer scrubs it, so a transaction
//! pointing at it is encoded with its category reference absent.

use vstd::prelude::*;

use crate::encode::bool_cell;
use crate::encode::bool_str;
use crate::encode::cleared_to_str;
use crate::encode::cleared_token;
use crate::encode::dec_int;
use crate::encode::encode_i64;
use crate::encode::encode_opt_flag;
use crate::encode::encode_opt_text;
use crate::encode::opt_flag_cell;
use crate::encode::opt_text_cell;
use crate::encode::frequency_to_str;
use crate::encode::frequency_token;
use crate::model::Account;
use crate::model::Category;
use crate::model::CategoryGroup;
use crate::model::Month;
use crate::model::MonthCategory;
use crate::model::Payee;
use crate::model::ScheduledSubtransaction;
use crate::model::ScheduledTransaction;
use crate::model::Subtransaction;
use crate::model::Transaction;

verus! {

/// The column separator.
pub open spec fn tab() -> Seq<char> {
    seq!['\t']
}

/// What `str::trim` returns for a given character sequence; the exporter
/// relies on it only by name.
pub uninterp spec fn trimmed(s: Seq<char>) -> Seq<char>;

/// Relies on `str::trim`: the argument with leading and trailing whitespace
/// removed, a pure function of the characters alone.
#[verifier::external_body]
fn trim_string(s: &String) -> (r: String)
    ensures
        r@ == trimmed(s@),
{
    s.trim().to_string()
}

/// Appends the column separator.
fn push_tab(s: &mut String)
    ensures
        final(s)@ == old(s)@ + tab(),
{
    proof {
        reveal_strlit("\t");
    }
    s.append("\t");
    proof {
        assert(s@ =~= old(s)@ + tab());
    }
}

/// Appends an optional free-text cell.
fn push_opt_text(s: &mut String, o: &Option<String>)
    ensures
        final(s)@ == old(s)@ + opt_text_cell(o.deep_view()),
{
    let cell = encode_opt_text(o);
    s.append(cell.as_str());
}

/// Appends a milliunit amount cell.
fn push_money(s: &mut String, amount: i64)
    ensures
        final(s)@ == old(s)@ + dec_int(amount as int),
{
    let cell = encode_i64(amount);
    s.append(cell.as_str());
}

/// The accounts table row: id, name, on-budget, closed, the three balances.
pub open spec fn account_row(a: Account) -> Seq<char> {
    a.id@ + tab() + a.name@ + tab() + bool_cell(a.on_budget) + tab() + bool_cell(a.closed) + tab()
        + dec_int(a.balance as int) + tab() + dec_int(a.cleared_balance as int) + tab() + dec_int(
        a.uncleared_balance as int,
    )
}

/// Encodes one account row.
pub fn encode_account_row(a: &Account) -> (r: String)
    ensures
        r@ == account_row(*a),
{
    let mut s = a.id.clone();
    push_tab(&mut s);
    s.append(a.name.as_str());
    push_tab(&mut s);
    s.append(bool_str(a.on_budget));
    push_tab(&mut s);
    s.append(bool_str(a.closed));
    push_tab(&mut s);
    push_money(&mut s, a.balance);
    push_tab(&mut s);
    push_money(&mut s, a.cleared_balance);
    push_tab(&mut s);
    push_money(&mut s, a.uncleared_balance);
    proof {
        assert(s@ =~= account_row(*a));
    }
    s
}

/// The category-groups table row: id, name, hidden.
pub open spec fn category_group_row(g: CategoryGroup) -> Seq<char> {
    g.id@ + tab() + g.name@ + tab() + bool_cell(g.hidden)
}

/// Encodes one category-group row.
pub fn encode_category_group_row(g: &CategoryGroup) -> (r: String)
    ensures
        r@ == category_group_row(*g),
{
    let mut s = g.id.clone();
    push_tab(&mut s);
    s.append(g.name.as_str());
    push_tab(&mut s);
    s.append(bool_str(g.hidden));
    proof {
        assert(s@ =~= category_group_row(*g));
    }
    s
}

/// The categories table row: id, group id, name, hidden, budgeted, activity,
/// balance.
pub open spec fn category_row(c: Category) -> Seq<char> {
    c.id@ + tab() + c.category_group_id@ + tab() + c.name@ + tab() + bool_cell(c.hidden) + tab()
        + dec_int(c.budgeted as int) + tab() + dec_int(c.activity as int) + tab() + dec_int(
        c.balance as int,
    )
}

/// Encodes one category row.
pub fn encode_category_row(c: &Category) -> (r: String)
    ensures
        r@ == category_row(*c),
{
    let mut s = c.id.clone();
    push_tab(&mut s);
    s.append(c.category_group_id.as_str());
    push_tab(&mut s);
    s.append(c.name.as_str());
    push_tab(&mut s);
    s.append(bool_str(c.hidden));
    push_tab(&mut s);
    push_money(&mut s, c.budgeted);
    push_tab(&mut s);
    push_money(&mut s, c.activity);
    push_tab(&mut s);
    push_money(&mut s, c.balance);
    proof {
        assert(s@ =~= category_row(*c));
    }
    s
}

/// The payees table row: id, trimmed name, optional transfer account.
pub open spec fn payee_row(p: Payee) -> Seq<char> {
    p.id@ + tab() + trimmed(p.name@) + tab() + opt_text_cell(p.transfer_account_id.deep_view())
}

/// Encodes one payee row.
pub fn encode_payee_row(p: &Payee) -> (r: String)
    ensures
        r@ == payee_row(*p),
{
    let mut s = p.id.clone();
    push_tab(&mut s);
    let name = trim_string(&p.name);
    s.append(name.as_str());
    push_tab(&mut s);
    push_opt_text(&mut s, &p.transfer_account_id);
    proof {
        assert(s@ =~= payee_row(*p));
    }
    s
}

/// The transactions table row. The category column shows the reference as
/// the record carries it; the split category id is scrubbed to `None` before
/// a record reaches this row.
pub open spec fn transaction_row(t: Transaction) -> Seq<char> {
    t.id@ + tab() + t.date@ + tab() + dec_int(t.amount as int) + tab() + opt_text_cell(
        t.memo.deep_view(),
    ) + tab() + cleared_token(t.cleared) + tab() + bool_cell(t.approved) + tab() + opt_flag_cell(
        t.flag_color,
    ) + tab() + t.account_id@ + tab() + opt_text_cell(t.payee_id.deep_view()) + tab()
        + opt_text_cell(t.category_id.deep_view()) + tab() + opt_text_cell(
        t.transfer_account_id.deep_view(),
    )
}

/// Encodes one transaction row.
pub fn encode_transaction_row(t: &Transaction) -> (r: String)
    ensures
        r@ == transaction_row(*t),
{
    let mut s = t.id.clone();
    push_tab(&mut s);
    s.append(t.date.as_str());
    push_tab(&mut s);
    push_money(&mut s, t.amount);
    push_tab(&mut s);
    push_opt_text(&mut s, &t.memo);
    push_tab(&mut s);
    s.append(cleared_to_str(t.cleared));
    push_tab(&mut s);
    s.append(bool_str(t.approved));
    push_tab(&mut s);
    let flag = encode_opt_flag(&t.flag_color);
    s.append(flag.as_str());
    push_tab(&mut s);
    s.append(t.account_id.as_str());
    push_tab(&mut s);
    push_opt_text(&mut s, &t.payee_id);
    push_tab(&mut s);
    push_opt_text(&mut s, &t.category_id);
    push_tab(&mut s);
    push_opt_text(&mut s, &t.transfer_account_id);
    proof {
        assert(s@ =~= transaction_row(*t));
    }
    s
}

/// The subtransactions table row; its category reference is exported
/// verbatim, since splits carry the real category ids.
pub open spec fn subtransaction_row(st: Subtransaction) -> Seq<char> {
    st.id@ + tab() + st.transaction_id@ + tab() + dec_int(st.amount as int) + tab() + opt_text_cell(
        st.memo.deep_view(),
    ) + tab() + opt_text_cell(st.payee_id.deep_view()) + tab() + opt_text_cell(
        st.category_id.deep_view(),
    ) + tab() + opt_text_cell(st.transfer_account_id.deep_view())
}

/// Encodes one subtransaction row.
pub fn encode_subtransaction_row(st: &Subtransaction) -> (r: String)
    ensures
        r@ == subtransaction_row(*st),
{
    let mut s = st.id.clone();
    push_tab(&mut s);
    s.append(st.transaction_id.as_str());
    push_tab(&mut s);
    push_money(&mut s, st.amount);
    push_tab(&mut s);
    push_opt_text(&mut s, &st.memo);
    push_tab(&mut s);
    push_opt_text(&mut s, &st.payee_id);
    push_tab(&mut s);
    push_opt_text(&mut s, &st.category_id);
    push_tab(&mut s);
    push_opt_text(&mut s, &st.transfer_account_id);
    proof {
        assert(s@ =~= subtransaction_row(*st));
    }
    s
}

/// The months table row: the month key alone.
pub open spec fn month_row(m: Month) -> Seq<char> {
    m.month@
}

/// The categories-by-month table row: the owning month's key first, then the
/// snapshot's own columns.
pub open spec fn month_category_row(month: Seq<char>, c: MonthCategory) -> Seq<char> {
    month + tab() + c.id@ + tab() + c.name@ + tab() + bool_cell(c.hidden) + tab() + dec_int(
        c.budgeted as int,
    ) + tab() + dec_int(c.activity as int) + tab() + dec_int(c.balance as int)
}

/// Encodes one categories-by-month row.
pub fn encode_month_category_row(month: &String, c: &MonthCategory) -> (r: String)
    ensures
        r@ == month_category_row(month@, *c),
{
    let mut s = month.clone();
    push_tab(&mut s);
    s.append(c.id.as_str());
    push_tab(&mut s);
    s.append(c.name.as_str());
    push_tab(&mut s);
    s.append(bool_str(c.hidden));
    push_tab(&mut s);
    push_money(&mut s, c.budgeted);
    push_tab(&mut s);
    push_money(&mut s, c.activity);
    push_tab(&mut s);
    push_money(&mut s, c.balance);
    proof {
        assert(s@ =~= month_category_row(month@, *c));
    }
    s
}

/// The scheduled-transactions table row; the category column follows the
/// same split-category scrubbing as posted transactions.
pub open spec fn scheduled_transaction_row(t: ScheduledTransaction) -> Seq<char> {
    t.id@ + tab() + t.date_next@ + tab() + frequency_token(t.frequency) + tab() + dec_int(
        t.amount as int,
    ) + tab() + opt_text_cell(t.memo.deep_view()) + tab() + opt_flag_cell(t.flag_color) + tab()
        + t.account_id@ + tab() + opt_text_cell(t.payee_id.deep_view()) + tab() + opt_text_cell(
        t.category_id.deep_view(),
    ) + tab() + opt_text_cell(t.transfer_account_id.deep_view())
}

/// Encodes one scheduled-transaction row.
pub fn encode_scheduled_transaction_row(t: &ScheduledTransaction) -> (r: String)
    ensures
        r@ == scheduled_transaction_row(*t),
{
    let mut s = t.id.clone();
    push_tab(&mut s);
    s.append(t.date_next.as_str());
    push_tab(&mut s);
    s.append(frequency_to_str(t.frequency));
    push_tab(&mut s);
    push_money(&mut s, t.amount);
    push_tab(&mut s);
    push_opt_text(&mut s, &t.memo);
    push_tab(&mut s);
    let flag = encode_opt_flag(&t.flag_color);
    s.append(flag.as_str());
    push_tab(&mut s);
    s.append(t.account_id.as_str());
    push_tab(&mut s);
    push_opt_text(&mut s, &t.payee_id);
    push_tab(&mut s);
    push_opt_text(&mut s, &t.category_id);
    push_tab(&mut s);
    push_opt_text(&mut s, &t.transfer_account_id);
    proof {
        assert(s@ =~= scheduled_transaction_row(*t));
    }
    s
}

/// The scheduled-subtransactions table row.
pub open spec fn scheduled_subtransaction_row(st: ScheduledSubtransaction) -> Seq<char> {
    st.id@ + tab() + st.scheduled_transaction_id@ + tab() + dec_int(st.amount as int) + tab()
        + opt_text_cell(st.memo.deep_view()) + tab() + opt_text_cell(st.payee_id.deep_view())
        + tab() + opt_text_cell(st.category_id.deep_view()) + tab() + opt_text_cell(
        st.transfer_account_id.deep_view(),
    )
}

/// Encodes one scheduled-subtransaction row.
pub fn encode_scheduled_subtransaction_row(st: &ScheduledSubtransaction) -> (r: String)
    ensures
        r@ == scheduled_subtransaction_row(*st),
{
    let mut s = st.id.clone();
    push_tab(&mut s);
    s.append(st.scheduled_transaction_id.as_str());
    push_tab(&mut s);
    push_money(&mut s, st.amount);
    push_tab(&mut s);
    push_opt_text(&mut s, &st.memo);
    push_tab(&mut s);
    push_opt_text(&mut s, &st.payee_id);
    push_tab(&mut s);
    push_opt_text(&mut s, &st.category_id);
    push_tab(&mut s);
    push_opt_text(&mut s, &st.transfer_account_id);
    proof {
        assert(s@ =~= scheduled_subtransaction_row(*st));
    }
    s
}

} // verus!
