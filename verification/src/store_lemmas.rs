//! How scripts and lookups behave on the model store: the groundwork of the
//! laws.

use crate::clock::Timestamp;
use crate::closing::{closing, opening};
use crate::drive::advanced;
use crate::model::{Outcome, Store, changed, first_where, performed};
use crate::task::{ActionView, Stage, TaskView};
use vstd::prelude::*;

verus! {

/// Carrying out two scripts one after the other is carrying out the one
/// script that they make.
pub proof fn lemma_carried_in_parts(store: Store, first: Seq<ActionView>, then: Seq<ActionView>, k: nat)
    requires
        k <= then.len(),
    ensures
        store.carried(first + then, first.len() + k) == store.through(first).carried(then, k),
    decreases k,
{
    if k == 0 {
        lemma_carried_prefix(store, first, first + then, first.len());
    } else {
        lemma_carried_in_parts(store, first, then, (k - 1) as nat);
        assert((first + then)[first.len() + k - 1] == then[k - 1]);
    }
}

/// What a store is after the first `n` actions depends on those actions only.
pub proof fn lemma_carried_prefix(store: Store, a: Seq<ActionView>, b: Seq<ActionView>, n: nat)
    requires
        n <= a.len(),
        n <= b.len(),
        forall|i: int| 0 <= i < n ==> a[i] == b[i],
    ensures
        store.carried(a, n) == store.carried(b, n),
    decreases n,
{
    if n > 0 {
        lemma_carried_prefix(store, a, b, (n - 1) as nat);
    }
}

/// The opening and the close of a request change nothing.
#[verifier::rlimit(50)]
pub proof fn lemma_opening_and_closing_only_read(
    store: Store,
    token: Option<Seq<char>>,
    acting_as: Option<u32>,
)
    ensures
        store.through(opening(token)) == store,
        store.through(closing(acting_as)) == store,
{
    reveal_with_fuel(Store::carried, 3);
}

/// After the opening, a script goes as it goes without it.
pub proof fn lemma_after_opening(store: Store, token: Option<Seq<char>>, script: Seq<ActionView>)
    ensures
        store.through(opening(token) + script) == store.through(script),
        script.len() > 0 ==> store.last_reply(opening(token) + script) == store.last_reply(script),
{
    lemma_opening_and_closing_only_read(store, token, None);
    lemma_carried_in_parts(store, opening(token), script, script.len());
    if script.len() > 0 {
        lemma_carried_in_parts(store, opening(token), script, (script.len() - 1) as nat);
        assert((opening(token) + script).last() == script.last());
    }
}

/// Before the close, a script goes as it goes without it.
pub proof fn lemma_before_closing(store: Store, script: Seq<ActionView>, acting_as: Option<u32>)
    ensures
        store.through(script + closing(acting_as)) == store.through(script),
{
    lemma_opening_and_closing_only_read(store.through(script), None, acting_as);
    lemma_carried_in_parts(store, script, closing(acting_as), closing(acting_as).len());
}

/// A script of one action.
pub proof fn lemma_one_action(store: Store, action: ActionView)
    ensures
        store.through(seq![action]) == store.after(action),
        store.last_reply(seq![action]) == store.reply_to(action),
{
    reveal_with_fuel(Store::carried, 2);
}

/// A script of two actions.
pub proof fn lemma_two_actions(store: Store, first: ActionView, second: ActionView)
    ensures
        store.through(seq![first, second]) == store.after(first).after(second),
        store.last_reply(seq![first, second]) == store.after(first).reply_to(second),
{
    reveal_with_fuel(Store::carried, 3);
}

/// A request whose first turn asks one thing: how it goes on from the reply.
#[verifier::rlimit(50)]
pub proof fn lemma_first_turn(
    store: Store,
    token: Option<Seq<char>>,
    task: TaskView,
    ask: ActionView,
    now: Timestamp,
)
    requires
        task.stage != Stage::Done,
        store.after(ask) == store,
    ensures
        performed(store, task, opening(token) + seq![ask], now) == match advanced(
            task,
            store.reply_to(ask),
            now,
        ).script {
            Err(failure) => Outcome { store: store.abandoned(), failure: Some(failure) },
            Ok(next) => performed(store, advanced(task, store.reply_to(ask), now).task, next, now),
        },
{
    lemma_after_opening(store, token, seq![ask]);
    lemma_one_action(store, ask);
}

/// Looking rows up after some were changed: where the change leaves what is
/// looked for untouched, the same row is found, changed if it was meant.
pub proof fn lemma_found_after_change<T>(
    rows: Seq<T>,
    meant: spec_fn(T) -> bool,
    change: spec_fn(T) -> T,
    wanted: spec_fn(T) -> bool,
)
    requires
        forall|row: T| wanted(#[trigger] change(row)) == wanted(row),
    ensures
        first_where(changed(rows, meant, change), wanted) == match first_where(rows, wanted) {
            Some(row) => Some(
                if meant(row) {
                    change(row)
                } else {
                    row
                },
            ),
            None => None,
        },
    decreases rows.len(),
{
    if rows.len() > 0 {
        lemma_found_after_change(rows.drop_last(), meant, change, wanted);
        assert(changed(rows, meant, change).drop_last() =~= changed(
            rows.drop_last(),
            meant,
            change,
        ));
    }
}

/// Looking rows up after one was added: an older row that is wanted is still
/// the one found.
pub proof fn lemma_found_after_push<T>(rows: Seq<T>, row: T, wanted: spec_fn(T) -> bool)
    ensures
        first_where(rows.push(row), wanted) == match first_where(rows, wanted) {
            Some(found) => Some(found),
            None => if wanted(row) {
                Some(row)
            } else {
                None
            },
        },
{
    assert(rows.push(row).drop_last() =~= rows);
}

/// The row that is found is one that is wanted.
pub proof fn lemma_found<T>(rows: Seq<T>, wanted: spec_fn(T) -> bool)
    ensures
        first_where(rows, wanted) matches Some(row) ==> wanted(row) && rows.contains(row),
        first_where(rows, wanted) is None ==> forall|i: int|
            0 <= i < rows.len() ==> !wanted(#[trigger] rows[i]),
    decreases rows.len(),
{
    if rows.len() > 0 {
        lemma_found(rows.drop_last(), wanted);
        match first_where(rows.drop_last(), wanted) {
            Some(row) => {
                let i = choose|i: int| 0 <= i < rows.drop_last().len() && rows.drop_last()[i] == row;
                assert(rows[i] == row);
            },
            None => {
                if wanted(rows.last()) {
                    assert(rows[rows.len() - 1] == rows.last());
                } else {
                    assert forall|i: int| 0 <= i < rows.len() implies !wanted(
                        #[trigger] rows[i],
                    ) by {
                        if i < rows.len() - 1 {
                            assert(rows.drop_last()[i] == rows[i]);
                        }
                    }
                }
            },
        }
    }
}

} // verus!
