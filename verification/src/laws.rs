//! The exporter's cross-cutting guarantees, stated and proved once: a
//! deleted record is invisible to every output, the split category id is
//! never exported, the NULL sentinel marks exactly the absent values, the
//! month expansion is an exact one-to-many join, and enumerated columns
//! never read as a raw numeric discriminant.

use vstd::prelude::*;

use crate::encode::cleared_token;
use crate::encode::dec_int;
use crate::encode::dec_nat;
use crate::encode::flag_color_token;
use crate::encode::frequency_token;
use crate::encode::null_cell;
use crate::encode::opt_flag_cell;
use crate::encode::opt_text_cell;
use crate::model::Cleared;
use crate::model::FlagColor;
use crate::model::Frequency;
use crate::model::Month;
use crate::model::MonthCategory;
use crate::model::ScheduledTransaction;
use crate::model::Transaction;
use crate::export::join_with;
use crate::export::joins_of;
use crate::export::keeps;
use crate::export::lemma_table_of_push;
use crate::export::line_of;
use crate::export::lines_of;
use crate::export::month_categories_table;
use crate::export::month_joins;
use crate::export::scheduled_transactions_table;
use crate::export::scrubbed_scheduled;
use crate::export::scrubbed_scheduleds;
use crate::export::scrubbed_transaction;
use crate::export::scrubbed_transactions;
use crate::export::table_of;
use crate::export::transactions_table;
use crate::export::MonthCategoryJoin;
use crate::export::TableRecord;
use crate::rows::month_category_row;
use crate::rows::tab;

verus! {

/// Tables concatenate over record concatenation: exporting `a + b` renders
/// the rows of `a` followed by the rows of `b`.
pub proof fn lemma_table_of_concat<T: TableRecord>(a: Seq<T>, b: Seq<T>)
    ensures
        table_of(a + b) == table_of(a) + table_of(b),
{
    Seq::<T>::filter_distributes_over_add(a, b, keeps::<T>());
    assert(lines_of(a + b) =~= lines_of(a) + lines_of(b));
    vstd::seq_lib::lemma_flatten_concat(lines_of(a), lines_of(b));
    assert(table_of(a + b) =~= table_of(a) + table_of(b));
}

/// A record whose delete flag is set never appears in any output table:
/// inserting it anywhere in the collection leaves the rendered table
/// unchanged, regardless of its other field values.
pub proof fn lemma_deleted_record_invisible<T: TableRecord>(s: Seq<T>, i: int, x: T)
    requires
        0 <= i <= s.len(),
        !x.keep(),
    ensures
        table_of(s.insert(i, x)) == table_of(s),
{
    let front = s.subrange(0, i);
    let back = s.subrange(i, s.len() as int);
    assert(s.insert(i, x) == front.push(x) + back);
    lemma_table_of_concat(front.push(x), back);
    lemma_table_of_push(front, x);
    lemma_table_of_concat(front, back);
    assert(front + back =~= s);
}

/// A deleted transaction never appears in the transactions table either: the
/// split-category scrubbing keeps the delete flag, so inserting a deleted
/// record anywhere changes nothing.
pub proof fn lemma_deleted_transaction_invisible(
    s: Seq<Transaction>,
    i: int,
    t: Transaction,
    split: Seq<char>,
)
    requires
        0 <= i <= s.len(),
        t.deleted,
    ensures
        transactions_table(s.insert(i, t), split) == transactions_table(s, split),
{
    assert(scrubbed_transactions(s.insert(i, t), split) =~= scrubbed_transactions(
        s,
        split,
    ).insert(i, scrubbed_transaction(t, split)));
    lemma_deleted_record_invisible(
        scrubbed_transactions(s, split),
        i,
        scrubbed_transaction(t, split),
    );
}

/// A deleted scheduled transaction never appears in its table either.
pub proof fn lemma_deleted_scheduled_invisible(
    s: Seq<ScheduledTransaction>,
    i: int,
    t: ScheduledTransaction,
    split: Seq<char>,
)
    requires
        0 <= i <= s.len(),
        t.deleted,
    ensures
        scheduled_transactions_table(s.insert(i, t), split) == scheduled_transactions_table(
            s,
            split,
        ),
{
    assert(scrubbed_scheduleds(s.insert(i, t), split) =~= scrubbed_scheduleds(s, split).insert(
        i,
        scrubbed_scheduled(t, split),
    ));
    lemma_deleted_record_invisible(
        scrubbed_scheduleds(s, split),
        i,
        scrubbed_scheduled(t, split),
    );
}

/// The split-category substitution: a transaction whose raw category id
/// equals the split id is rendered exactly as if its category reference were
/// absent — the category column reads the NULL sentinel, never the literal
/// id — while any other reference passes through verbatim.
pub proof fn lemma_split_category_substitution(t: Transaction, c: String, split: Seq<char>)
    requires
        t.category_id == Option::Some(c),
    ensures
        c@ == split ==> scrubbed_transaction(t, split) == (Transaction {
            category_id: Option::None,
            ..t
        }),
        c@ == split ==> opt_text_cell(scrubbed_transaction(t, split).category_id.deep_view())
            == null_cell(),
        c@ != split ==> scrubbed_transaction(t, split) == t,
{
}

/// The split-category substitution for scheduled transactions, identical to
/// the posted-transaction rule.
pub proof fn lemma_split_category_substitution_scheduled(
    t: ScheduledTransaction,
    c: String,
    split: Seq<char>,
)
    requires
        t.category_id == Option::Some(c),
    ensures
        c@ == split ==> scrubbed_scheduled(t, split) == (ScheduledTransaction {
            category_id: Option::None,
            ..t
        }),
        c@ == split ==> opt_flag_cell(Option::None) == null_cell() && opt_text_cell(
            scrubbed_scheduled(t, split).category_id.deep_view(),
        ) == null_cell(),
        c@ != split ==> scrubbed_scheduled(t, split) == t,
{
}

/// An absent optional value renders as the NULL sentinel, a present one as
/// its own text; for any value other than the sentinel itself the two
/// encodings differ.
pub proof fn lemma_null_sentinel_marks_absence(v: Seq<char>)
    ensures
        opt_text_cell(Option::None) == null_cell(),
        opt_text_cell(Option::Some(v)) == v,
        v != null_cell() ==> opt_text_cell(Option::Some(v)) != opt_text_cell(Option::None),
{
}

/// No flag-color token collides with the NULL sentinel: an absent flag is
/// distinguishable from every present one.
pub proof fn lemma_flag_cell_distinguishes_absence(f: FlagColor)
    ensures
        opt_flag_cell(Option::Some(f)) != opt_flag_cell(Option::None),
{
    reveal_strlit("red");
    reveal_strlit("orange");
    reveal_strlit("yellow");
    reveal_strlit("green");
    reveal_strlit("blue");
    reveal_strlit("purple");
}

/// A decimal digit character.
pub open spec fn is_digit_char(c: char) -> bool {
    c == '0' || c == '1' || c == '2' || c == '3' || c == '4' || c == '5' || c == '6' || c == '7'
        || c == '8' || c == '9'
}

proof fn lemma_dec_nat_shape(n: nat)
    ensures
        dec_nat(n).len() >= 1,
        is_digit_char(dec_nat(n)[0]),
    decreases n,
{
    if n >= 10 {
        lemma_dec_nat_shape(n / 10);
    }
}

/// A decimal encoding opens with a sign or a digit.
pub proof fn lemma_dec_int_shape(n: int)
    ensures
        dec_int(n).len() >= 1,
        dec_int(n)[0] == '-' || is_digit_char(dec_int(n)[0]),
{
    if n < 0 {
        lemma_dec_nat_shape((-n) as nat);
    } else {
        lemma_dec_nat_shape(n as nat);
    }
}

/// Enumerated columns never read as a raw numeric discriminant: no token of
/// the three closed vocabularies equals the decimal encoding of any integer.
pub proof fn lemma_tokens_never_numeric(n: int)
    ensures
        forall|c: Cleared| #[trigger] cleared_token(c) != dec_int(n),
        forall|f: FlagColor| #[trigger] flag_color_token(f) != dec_int(n),
        forall|q: Frequency| #[trigger] frequency_token(q) != dec_int(n),
{
    lemma_dec_int_shape(n);
    reveal_strlit("cleared");
    reveal_strlit("uncleared");
    reveal_strlit("reconciled");
    reveal_strlit("red");
    reveal_strlit("orange");
    reveal_strlit("yellow");
    reveal_strlit("green");
    reveal_strlit("blue");
    reveal_strlit("purple");
    reveal_strlit("never");
    reveal_strlit("daily");
    reveal_strlit("weekly");
    reveal_strlit("everyOtherWeek");
    reveal_strlit("twiceAMonth");
    reveal_strlit("every4Weeks");
    reveal_strlit("monthly");
    reveal_strlit("everyOtherMonth");
    reveal_strlit("every3Months");
    reveal_strlit("every4Months");
    reveal_strlit("twiceAYear");
    reveal_strlit("yearly");
    reveal_strlit("everyOtherYear");
    assert forall|c: Cleared| #[trigger] cleared_token(c) != dec_int(n) by {
        if cleared_token(c) == dec_int(n) {
            assert(cleared_token(c)[0] == dec_int(n)[0]);
        }
    }
    assert forall|f: FlagColor| #[trigger] flag_color_token(f) != dec_int(n) by {
        if flag_color_token(f) == dec_int(n) {
            assert(flag_color_token(f)[0] == dec_int(n)[0]);
        }
    }
    assert forall|q: Frequency| #[trigger] frequency_token(q) != dec_int(n) by {
        if frequency_token(q) == dec_int(n) {
            assert(frequency_token(q)[0] == dec_int(n)[0]);
        }
    }
}

/// The cleared-state token mapping is injective: two states render alike
/// only when they are the same state.
pub proof fn lemma_cleared_token_injective(c1: Cleared, c2: Cleared)
    requires
        cleared_token(c1) == cleared_token(c2),
    ensures
        c1 == c2,
{
    reveal_strlit("cleared");
    reveal_strlit("uncleared");
    reveal_strlit("reconciled");
    lemma_cleared_cases(c1);
    lemma_cleared_cases(c2);
    assert("cleared"@.len() == 7);
    assert("uncleared"@.len() == 9);
    assert("reconciled"@.len() == 10);
}

/// The flag-color token mapping is injective.
pub proof fn lemma_flag_color_token_injective(f1: FlagColor, f2: FlagColor)
    requires
        flag_color_token(f1) == flag_color_token(f2),
    ensures
        f1 == f2,
{
    reveal_strlit("red");
    reveal_strlit("orange");
    reveal_strlit("yellow");
    reveal_strlit("green");
    reveal_strlit("blue");
    reveal_strlit("purple");
    lemma_flag_color_cases(f1);
    lemma_flag_color_cases(f2);
    assert("red"@.len() == 3);
    assert("orange"@.len() == 6);
    assert("yellow"@.len() == 6);
    assert("green"@.len() == 5);
    assert("blue"@.len() == 4);
    assert("purple"@.len() == 6);
    assert("orange"@[0] == 'o');
    assert("yellow"@[0] == 'y');
    assert("purple"@[0] == 'p');
}

/// The frequency token mapping is injective.
pub proof fn lemma_frequency_token_injective(q1: Frequency, q2: Frequency)
    requires
        frequency_token(q1) == frequency_token(q2),
    ensures
        q1 == q2,
{
    reveal_strlit("never");
    reveal_strlit("daily");
    reveal_strlit("weekly");
    reveal_strlit("everyOtherWeek");
    reveal_strlit("twiceAMonth");
    reveal_strlit("every4Weeks");
    reveal_strlit("monthly");
    reveal_strlit("everyOtherMonth");
    reveal_strlit("every3Months");
    reveal_strlit("every4Months");
    reveal_strlit("twiceAYear");
    reveal_strlit("yearly");
    reveal_strlit("everyOtherYear");
    lemma_frequency_cases(q1);
    lemma_frequency_cases(q2);
    assert("never"@.len() == 5);
    assert("daily"@.len() == 5);
    assert("weekly"@.len() == 6);
    assert("everyOtherWeek"@.len() == 14);
    assert("twiceAMonth"@.len() == 11);
    assert("every4Weeks"@.len() == 11);
    assert("monthly"@.len() == 7);
    assert("everyOtherMonth"@.len() == 15);
    assert("every3Months"@.len() == 12);
    assert("every4Months"@.len() == 12);
    assert("twiceAYear"@.len() == 10);
    assert("yearly"@.len() == 6);
    assert("everyOtherYear"@.len() == 14);
    assert("never"@[0] == 'n');
    assert("daily"@[0] == 'd');
    assert("weekly"@[0] == 'w');
    assert("yearly"@[0] == 'y');
    assert("twiceAMonth"@[0] == 't');
    assert("every4Weeks"@[0] == 'e');
    assert("every3Months"@[5] == '3');
    assert("every4Months"@[5] == '4');
    assert("everyOtherWeek"@[10] == 'W');
    assert("everyOtherYear"@[10] == 'Y');
}

proof fn lemma_cleared_cases(c: Cleared)
    ensures
        c == Cleared::Cleared || c == Cleared::Uncleared || c == Cleared::Reconciled,
        c == Cleared::Cleared ==> cleared_token(c) == "cleared"@,
        c == Cleared::Uncleared ==> cleared_token(c) == "uncleared"@,
        c == Cleared::Reconciled ==> cleared_token(c) == "reconciled"@,
{
    match c {
        Cleared::Cleared => {},
        Cleared::Uncleared => {},
        Cleared::Reconciled => {},
    }
}

proof fn lemma_flag_color_cases(f: FlagColor)
    ensures
        f == FlagColor::Red || f == FlagColor::Orange || f == FlagColor::Yellow || f
            == FlagColor::Green || f == FlagColor::Blue || f == FlagColor::Purple,
        f == FlagColor::Red ==> flag_color_token(f) == "red"@,
        f == FlagColor::Orange ==> flag_color_token(f) == "orange"@,
        f == FlagColor::Yellow ==> flag_color_token(f) == "yellow"@,
        f == FlagColor::Green ==> flag_color_token(f) == "green"@,
        f == FlagColor::Blue ==> flag_color_token(f) == "blue"@,
        f == FlagColor::Purple ==> flag_color_token(f) == "purple"@,
{
    match f {
        FlagColor::Red => {},
        FlagColor::Orange => {},
        FlagColor::Yellow => {},
        FlagColor::Green => {},
        FlagColor::Blue => {},
        FlagColor::Purple => {},
    }
}

proof fn lemma_frequency_cases(q: Frequency)
    ensures
        q == Frequency::Never || q == Frequency::Daily || q == Frequency::Weekly || q
            == Frequency::EveryOtherWeek || q == Frequency::TwiceAMonth || q
            == Frequency::Every4Weeks || q == Frequency::Monthly || q == Frequency::EveryOtherMonth
            || q == Frequency::Every3Months || q == Frequency::Every4Months || q
            == Frequency::TwiceAYear || q == Frequency::Yearly || q == Frequency::EveryOtherYear,
        q == Frequency::Never ==> frequency_token(q) == "never"@,
        q == Frequency::Daily ==> frequency_token(q) == "daily"@,
        q == Frequency::Weekly ==> frequency_token(q) == "weekly"@,
        q == Frequency::EveryOtherWeek ==> frequency_token(q) == "everyOtherWeek"@,
        q == Frequency::TwiceAMonth ==> frequency_token(q) == "twiceAMonth"@,
        q == Frequency::Every4Weeks ==> frequency_token(q) == "every4Weeks"@,
        q == Frequency::Monthly ==> frequency_token(q) == "monthly"@,
        q == Frequency::EveryOtherMonth ==> frequency_token(q) == "everyOtherMonth"@,
        q == Frequency::Every3Months ==> frequency_token(q) == "every3Months"@,
        q == Frequency::Every4Months ==> frequency_token(q) == "every4Months"@,
        q == Frequency::TwiceAYear ==> frequency_token(q) == "twiceAYear"@,
        q == Frequency::Yearly ==> frequency_token(q) == "yearly"@,
        q == Frequency::EveryOtherYear ==> frequency_token(q) == "everyOtherYear"@,
{
    match q {
        Frequency::Never => {},
        Frequency::Daily => {},
        Frequency::Weekly => {},
        Frequency::EveryOtherWeek => {},
        Frequency::TwiceAMonth => {},
        Frequency::Every4Weeks => {},
        Frequency::Monthly => {},
        Frequency::EveryOtherMonth => {},
        Frequency::Every3Months => {},
        Frequency::Every4Months => {},
        Frequency::TwiceAYear => {},
        Frequency::Yearly => {},
        Frequency::EveryOtherYear => {},
    }
}

/// What one month contributes to the categories-by-month table: a deleted
/// month contributes nothing, and a surviving month appends exactly its own
/// block of joined rows.
pub proof fn lemma_month_contribution(s: Seq<Month>, m: Month)
    ensures
        m.deleted ==> month_categories_table(s.push(m)) == month_categories_table(s),
        !m.deleted ==> month_categories_table(s.push(m)) == month_categories_table(s) + table_of(
            month_joins(m),
        ),
{
    assert(s.push(m).drop_last() =~= s);
    if m.deleted {
        assert(joins_of(s.push(m)) =~= joins_of(s));
    } else {
        lemma_table_of_concat(joins_of(s), month_joins(m));
    }
}

/// The per-snapshot filter: a snapshot appears only if its own flag is
/// clear, independently of its month's flag.
pub open spec fn snapshot_kept() -> spec_fn(MonthCategory) -> bool {
    |c: MonthCategory| !c.deleted
}

/// One month's joined line, as a function value.
pub open spec fn month_line_with(month: String) -> spec_fn(MonthCategory) -> Seq<char> {
    |c: MonthCategory| month_category_row(month@, c).push('\n')
}

proof fn lemma_join_filter_commutes(m: Month, i: int)
    requires
        0 <= i <= m.categories@.len(),
    ensures
        month_joins(m).take(i).filter(keeps()) == m.categories@.take(i).filter(
            snapshot_kept(),
        ).map_values(join_with(m.month)),
    decreases i,
{
    let cs = m.categories@;
    let js = month_joins(m);
    if i == 0 {
        reveal(Seq::filter);
        assert(js.take(0) =~= Seq::<MonthCategoryJoin>::empty());
        assert(cs.take(0) =~= Seq::<MonthCategory>::empty());
        assert(js.take(0).filter(keeps()) =~= cs.take(0).filter(snapshot_kept()).map_values(
            join_with(m.month),
        ));
    } else {
        lemma_join_filter_commutes(m, i - 1);
        assert(js.take(i) =~= js.take(i - 1).push(js[i - 1]));
        assert(cs.take(i) =~= cs.take(i - 1).push(cs[i - 1]));
        js.take(i - 1).lemma_filter_push(js[i - 1], keeps());
        cs.take(i - 1).lemma_filter_push(cs[i - 1], snapshot_kept());
        assert(js[i - 1] == join_with(m.month)(cs[i - 1]));
        if !cs[i - 1].deleted {
            cs.take(i - 1).filter(snapshot_kept()).lemma_push_map_commute(
                join_with(m.month),
                cs[i - 1],
            );
        }
        assert(js.take(i).filter(keeps()) =~= cs.take(i).filter(snapshot_kept()).map_values(
            join_with(m.month),
        ));
    }
}

/// The month expansion is exact: a surviving month with N surviving embedded
/// snapshots yields exactly N joined lines, in their source order, each line
/// the joined row of one surviving snapshot, and each opening with this
/// month's key and a tab.
pub proof fn lemma_month_block(m: Month)
    requires
        !m.deleted,
    ensures
        lines_of(month_joins(m)) == m.categories@.filter(snapshot_kept()).map_values(
            month_line_with(m.month),
        ),
        lines_of(month_joins(m)).len() == m.categories@.filter(snapshot_kept()).len(),
        forall|k: int|
            0 <= k < lines_of(month_joins(m)).len() ==> (#[trigger] lines_of(month_joins(m))[k])
                .take(m.month@.len() as int + 1) == m.month@ + tab(),
{
    let cs = m.categories@;
    let survivors = cs.filter(snapshot_kept());
    lemma_join_filter_commutes(m, cs.len() as int);
    assert(month_joins(m).take(month_joins(m).len() as int) =~= month_joins(m));
    assert(cs.take(cs.len() as int) =~= cs);
    assert(survivors.map_values(join_with(m.month)).map_values(line_of::<MonthCategoryJoin>())
        =~= survivors.map_values(month_line_with(m.month)));
    assert forall|k: int|
        0 <= k < lines_of(month_joins(m)).len() implies (#[trigger] lines_of(month_joins(m))[k])
        .take(m.month@.len() as int + 1) == m.month@ + tab() by {
        let c = survivors[k];
        assert(lines_of(month_joins(m))[k] == month_category_row(m.month@, c).push('\n'));
        assert(month_category_row(m.month@, c).push('\n').take(m.month@.len() as int + 1)
            =~= m.month@ + tab());
    }
}

} // verus!
