//! What holds of the library as a whole, stated over the same predicates
//! that its functions promise.

use crate::error::Error;
use crate::error::ErrorView;
use crate::row::get_of;
use crate::row::ColumnView;
use crate::row::columns_view;
use crate::row::Column;
use crate::row::Row;
use crate::rows::advances;
use crate::rows::row_of;
use crate::rows::Fetched;
use crate::rows::Rows;
use crate::transaction::ends;
use crate::transaction::Ending;
use crate::transaction::Transaction;
use crate::transaction::TxState;
use crate::value::host_of;
use crate::value::parameter_of;
use crate::value::HostView;
use crate::value::ValueView;
use vstd::prelude::*;

verus! {

/// A transaction is ended at most once. Of two calls of `commit` or
/// `rollback` on one transaction, in whatever mix, the second fails with
/// `AlreadyFinalized` and changes nothing; so at most one of them succeeds.
pub proof fn law_ended_once(
    t0: Transaction,
    t1: Transaction,
    t2: Transaction,
    first: Ending,
    second: Ending,
    r1: Result<(), Error>,
    r2: Result<(), Error>,
)
    requires
        ends(t0, t1, r1, first),
        ends(t1, t2, r2, second),
    ensures
        r2 is Err,
        r2->Err_0@ == ErrorView::AlreadyFinalized,
        t2 == t1,
        !(r1 is Ok && r2 is Ok),
        t1.state() != TxState::Active,
{
}

/// Endings tried one after another on one transaction: `states[i]` is the
/// transaction before try number `i` and `states[i + 1]` after it,
/// `endings[i]` what was tried and `results[i]` what came back.
pub open spec fn ended_in_turn(
    states: Seq<Transaction>,
    endings: Seq<Ending>,
    results: Seq<Result<(), Error>>,
) -> bool {
    &&& states.len() == results.len() + 1
    &&& endings.len() == results.len()
    &&& forall|i: int|
        0 <= i < results.len() ==> ends(states[i], states[i + 1], #[trigger] results[i], endings[i])
}

proof fn lemma_ended_after_first(
    states: Seq<Transaction>,
    endings: Seq<Ending>,
    results: Seq<Result<(), Error>>,
    k: int,
)
    requires
        ended_in_turn(states, endings, results),
        1 <= k <= results.len(),
    ensures
        states[k].state() != TxState::Active,
    decreases k,
{
    assert(ends(states[k - 1], states[k], results[k - 1], endings[k - 1]));
    if k > 1 {
        lemma_ended_after_first(states, endings, results, k - 1);
    }
}

/// However many endings are tried on a transaction, every one after the
/// first fails with `AlreadyFinalized` and changes nothing. So at most one
/// of them all succeeds, and it can only be the first.
pub proof fn law_ended_for_good(
    states: Seq<Transaction>,
    endings: Seq<Ending>,
    results: Seq<Result<(), Error>>,
    j: int,
)
    requires
        ended_in_turn(states, endings, results),
        1 <= j < results.len(),
    ensures
        results[j] is Err,
        results[j]->Err_0@ == ErrorView::AlreadyFinalized,
        states[j + 1] == states[j],
        forall|i: int| 0 <= i < j ==> !((#[trigger] results[i]) is Ok && results[j] is Ok),
{
    lemma_ended_after_first(states, endings, results, j);
    assert(ends(states[j], states[j + 1], results[j], endings[j]));
}

/// Only an active transaction can be ended with success, and success leaves
/// it in the state that the ending names.
pub proof fn law_success_means_active(
    t: Transaction,
    after: Transaction,
    ending: Ending,
    r: Result<(), Error>,
)
    requires
        ends(t, after, r, ending),
        r is Ok,
    ensures
        t.state() == TxState::Active,
        after.state() == crate::transaction::goal_of(ending),
        after.state() != TxState::Active,
{
}

/// Calls of `next` made one after another on one cursor: `cursors[i]` is
/// the cursor before call number `i` and `cursors[i + 1]` after it, and
/// `results[i]` is what the call returned.
pub open spec fn fetched_in_turn(cursors: Seq<Rows>, results: Seq<Result<Option<Fetched>, Error>>) -> bool {
    &&& cursors.len() == results.len() + 1
    &&& forall|i: int|
        0 <= i < results.len() ==> advances(cursors[i], cursors[i + 1], #[trigger] results[i])
}

/// A cursor's column count is the same before the first call of `next` and
/// after any number of calls, whatever they returned.
pub proof fn law_column_count_fixed(
    cursors: Seq<Rows>,
    results: Seq<Result<Option<Fetched>, Error>>,
    k: int,
)
    requires
        fetched_in_turn(cursors, results),
        0 <= k <= results.len(),
    ensures
        cursors[k].width() == cursors[0].width(),
    decreases k,
{
    if k > 0 {
        assert(advances(cursors[k - 1], cursors[k], results[k - 1]));
        law_column_count_fixed(cursors, results, k - 1);
    }
}

/// Every record that a cursor fetches carries the column count that the
/// cursor had before its first call of `next`, and a record made of the
/// columns read from it has exactly that many columns.
pub proof fn law_records_have_the_cursors_columns(
    cursors: Seq<Rows>,
    results: Seq<Result<Option<Fetched>, Error>>,
    k: int,
    cells: Seq<Column>,
    row: Row,
)
    requires
        fetched_in_turn(cursors, results),
        0 <= k < results.len(),
        results[k] is Ok,
        results[k]->Ok_0 is Some,
        row_of(results[k]->Ok_0->Some_0.width(), columns_view(cells)) == Ok::<
            Seq<ColumnView>,
            ErrorView,
        >(row@),
    ensures
        results[k]->Ok_0->Some_0.width() == cursors[0].width(),
        row@.len() == cursors[0].width(),
{
    law_column_count_fixed(cursors, results, k);
    assert(advances(cursors[k], cursors[k + 1], results[k]));
}

proof fn lemma_stays_at_end(
    cursors: Seq<Rows>,
    results: Seq<Result<Option<Fetched>, Error>>,
    i: int,
    k: int,
)
    requires
        fetched_in_turn(cursors, results),
        0 <= i < k <= results.len(),
        results[i] is Ok,
        results[i]->Ok_0 is None,
    ensures
        cursors[k].is_exhausted(),
    decreases k,
{
    assert(advances(cursors[k - 1], cursors[k], results[k - 1]));
    if k > i + 1 {
        lemma_stays_at_end(cursors, results, i, k - 1);
    }
}

/// The end of a cursor is final: once a call of `next` has reported the
/// end, every later call reports the end too, never an error and never a
/// record, and the cursor stays at the end.
pub proof fn law_end_is_final(
    cursors: Seq<Rows>,
    results: Seq<Result<Option<Fetched>, Error>>,
    i: int,
    j: int,
)
    requires
        fetched_in_turn(cursors, results),
        0 <= i < j < results.len(),
        results[i] is Ok,
        results[i]->Ok_0 is None,
    ensures
        results[j] is Ok,
        results[j]->Ok_0 is None,
        cursors[j + 1].is_exhausted(),
{
    lemma_stays_at_end(cursors, results, i, j);
    assert(advances(cursors[j], cursors[j + 1], results[j]));
}

/// A record of `n` columns has a value at exactly the indices from 0 up to
/// `n`, `n` itself left out: there the access succeeds, and everywhere else
/// it fails with an index error.
pub proof fn law_get_within_columns(cols: Seq<ColumnView>, i: int)
    ensures
        get_of(cols, i) is Ok <==> 0 <= i < cols.len(),
        0 <= i < cols.len() ==> get_of(cols, i) == Ok::<HostView, ErrorView>(host_of(cols[i].value)),
        !(0 <= i < cols.len()) ==> get_of(cols, i) == Err::<HostView, ErrorView>(
            ErrorView::IndexOutOfRange(i),
        ),
{
}

/// The conversion to the script's form loses nothing: two database values
/// with the same image are the same value.
pub proof fn law_to_host_lossless(a: ValueView, b: ValueView)
    requires
        host_of(a) == host_of(b),
    ensures
        a == b,
{
}

/// A text that is handed to a script and comes back as a parameter is bound
/// as the same text. No other kind of value can come back as a parameter.
pub proof fn law_text_round_trip(v: ValueView)
    ensures
        v is Text ==> parameter_of(host_of(v)) == Some(v->Text_0),
        !(v is Text) ==> parameter_of(host_of(v)) is None,
{
}

} // verus!
