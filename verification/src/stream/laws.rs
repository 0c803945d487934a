//! What the assembler does with whole streams of records.
//!
//! [`run`] is the assembler applied to one record after the other. The
//! lemmas state what holds of every stream: a transaction that arrives
//! whole is emitted whole, a second `Begin` inside a transaction is
//! reported with nothing lost, and only row changes ever reach a
//! transaction.

use crate::decoderbufs::{Op, RowMessage};
use crate::stream::{is_change, step, Outcome, State, ViolationKind, WalTransactionView};
use vstd::prelude::*;

verus! {

/// A record and the log position it arrived at.
pub struct Arrival {
    pub record: RowMessage,
    pub start: u64,
}

/// The records of a stream, without their log positions.
pub open spec fn records_of(arrivals: Seq<Arrival>) -> Seq<RowMessage> {
    arrivals.map_values(|arrival: Arrival| arrival.record)
}

/// Where a stream of records has brought the assembler.
pub struct Trace {
    /// The state of the assembler.
    pub state: State,
    /// The transactions that were completed, in the order of their commits.
    pub emitted: Seq<WalTransactionView>,
    /// The violation that ended the run, if one did.
    pub violation: Option<ViolationKind>,
}

/// The assembler applied to a stream of records, one after the other, from
/// a given state. The first violation ends the run: the records after it
/// are not looked at.
pub open spec fn run(state: State, arrivals: Seq<Arrival>) -> Trace
    decreases arrivals.len(),
{
    if arrivals.len() == 0 {
        Trace { state, emitted: Seq::empty(), violation: None }
    } else {
        let before = run(state, arrivals.drop_last());
        if before.violation is Some {
            before
        } else {
            let (next, outcome) = step(before.state, arrivals.last().record, arrivals.last().start);
            match outcome {
                Outcome::Buffered => Trace { state: next, emitted: before.emitted, violation: None },
                Outcome::Completed(transaction) => Trace {
                    state: next,
                    emitted: before.emitted.push(transaction),
                    violation: None,
                },
                Outcome::Violation(kind) => Trace {
                    state: before.state,
                    emitted: before.emitted,
                    violation: Some(kind),
                },
            }
        }
    }
}

/// The transaction that a `Begin` record opens, with the events that have
/// arrived since.
pub open spec fn opened_by(begin: Arrival, events: Seq<RowMessage>) -> WalTransactionView {
    WalTransactionView {
        start: begin.start,
        txid: begin.record.spec_transaction_id(),
        commit_time: begin.record.spec_commit_time(),
        events,
    }
}

/// A run that has met a violation stays as it is, whatever follows.
pub proof fn lemma_violation_ends_run(state: State, arrivals: Seq<Arrival>, n: int)
    requires
        0 <= n <= arrivals.len(),
        run(state, arrivals.take(n)).violation is Some,
    ensures
        run(state, arrivals) == run(state, arrivals.take(n)),
    decreases arrivals.len(),
{
    if n == arrivals.len() {
        assert(arrivals.take(n) =~= arrivals);
    } else {
        assert(arrivals.drop_last().take(n) =~= arrivals.take(n));
        lemma_violation_ends_run(state, arrivals.drop_last(), n);
    }
}

/// A run over two streams, one after the other, is the run over the first
/// followed by the run over the second from where the first ended: the
/// transactions come out in the order of their commits, and a violation in
/// the first stream ends the run before the second is looked at.
pub proof fn lemma_run_continues(state: State, first: Seq<Arrival>, second: Seq<Arrival>)
    ensures
        run(state, first + second) == if run(state, first).violation is Some {
            run(state, first)
        } else {
            Trace {
                state: run(run(state, first).state, second).state,
                emitted: run(state, first).emitted + run(run(state, first).state, second).emitted,
                violation: run(run(state, first).state, second).violation,
            }
        },
    decreases second.len(),
{
    if second.len() == 0 {
        assert(first + second =~= first);
    } else {
        let earlier = second.drop_last();
        assert((first + second).drop_last() =~= first + earlier);
        lemma_run_continues(state, first, earlier);
    }
}

/// After a `Begin` and any number of row changes, the assembler holds the
/// transaction that the `Begin` opened, with the changes as its events, in
/// the order they arrived. Nothing has been emitted.
proof fn lemma_changes_are_buffered(begin: Arrival, changes: Seq<Arrival>)
    requires
        begin.record.spec_op() == Op::Begin,
        forall|i: int| 0 <= i < changes.len() ==> is_change(#[trigger] changes[i].record.spec_op()),
    ensures
        run(State::Idle, seq![begin] + changes) == (Trace {
            state: State::Accumulating(opened_by(begin, records_of(changes))),
            emitted: Seq::empty(),
            violation: None,
        }),
    decreases changes.len(),
{
    let arrivals = seq![begin] + changes;
    if changes.len() == 0 {
        assert(run(State::Idle, arrivals.drop_last()).state is Idle);
        assert(records_of(changes) =~= Seq::<RowMessage>::empty());
    } else {
        let earlier = changes.drop_last();
        assert(arrivals.drop_last() =~= seq![begin] + earlier);
        lemma_changes_are_buffered(begin, earlier);
        assert(records_of(changes) =~= records_of(earlier).push(changes.last().record));
    }
}

/// A transaction that arrives whole is emitted whole: after a `Begin`, any
/// number of row changes and a `Commit`, an idle assembler is idle again and
/// has emitted exactly one transaction, which holds the changes as its
/// events, in the order they arrived.
pub proof fn lemma_whole_transaction_is_emitted(
    begin: Arrival,
    changes: Seq<Arrival>,
    commit: Arrival,
)
    requires
        begin.record.spec_op() == Op::Begin,
        forall|i: int| 0 <= i < changes.len() ==> is_change(#[trigger] changes[i].record.spec_op()),
        commit.record.spec_op() == Op::Commit,
    ensures
        run(State::Idle, seq![begin] + changes + seq![commit]) == (Trace {
            state: State::Idle,
            emitted: seq![opened_by(begin, records_of(changes))],
            violation: None,
        }),
{
    let arrivals = seq![begin] + changes + seq![commit];
    assert(arrivals.drop_last() =~= seq![begin] + changes);
    lemma_changes_are_buffered(begin, changes);
}

/// While no violation and no `Commit` has come since a `Begin`, the
/// assembler holds the transaction that the `Begin` opened, with every
/// record since as its events, and has emitted nothing since.
proof fn lemma_open_transaction_is_kept(state: State, arrivals: Seq<Arrival>, i: int, n: int)
    requires
        0 <= i < n <= arrivals.len(),
        arrivals[i].record.spec_op() == Op::Begin,
        forall|k: int| i < k < n ==> (#[trigger] arrivals[k]).record.spec_op() != Op::Commit,
        run(state, arrivals.take(n)).violation is None,
    ensures
        run(state, arrivals.take(n)).state == State::Accumulating(
            opened_by(arrivals[i], records_of(arrivals.subrange(i + 1, n))),
        ),
        run(state, arrivals.take(n)).emitted == run(state, arrivals.take(i)).emitted,
    decreases n,
{
    let upto = arrivals.take(n);
    assert(upto.drop_last() =~= arrivals.take(n - 1));
    if n == i + 1 {
        assert(records_of(arrivals.subrange(i + 1, n)) =~= Seq::<RowMessage>::empty());
    } else {
        lemma_open_transaction_is_kept(state, arrivals, i, n - 1);
        assert(records_of(arrivals.subrange(i + 1, n)) =~= records_of(
            arrivals.subrange(i + 1, n - 1),
        ).push(arrivals[n - 1].record));
    }
}

/// A second `Begin` inside a transaction is reported, and nothing is lost.
///
/// Let a stream hold a `Begin` at `i`, another at `j`, and no `Commit`
/// between the two. Then the run over the stream ends in a violation. If
/// none comes before `j`, the violation is the nested `Begin` at `j`, and
/// the assembler still holds the transaction that the first `Begin` opened,
/// with every record between the two as its events; the transactions that
/// were emitted before are still there.
pub proof fn lemma_nested_begin_is_reported(state: State, arrivals: Seq<Arrival>, i: int, j: int)
    requires
        0 <= i < j < arrivals.len(),
        arrivals[i].record.spec_op() == Op::Begin,
        arrivals[j].record.spec_op() == Op::Begin,
        forall|k: int| i < k < j ==> (#[trigger] arrivals[k]).record.spec_op() != Op::Commit,
    ensures
        run(state, arrivals).violation is Some,
        run(state, arrivals.take(j)).violation is None ==> run(state, arrivals) == (Trace {
            state: State::Accumulating(
                opened_by(arrivals[i], records_of(arrivals.subrange(i + 1, j))),
            ),
            emitted: run(state, arrivals.take(i)).emitted,
            violation: Some(ViolationKind::NestedBegin),
        }),
{
    if run(state, arrivals.take(j)).violation is Some {
        lemma_violation_ends_run(state, arrivals, j);
    } else {
        lemma_open_transaction_is_kept(state, arrivals, i, j);
        let upto = arrivals.take(j + 1);
        assert(upto.drop_last() =~= arrivals.take(j));
        lemma_violation_ends_run(state, arrivals, j + 1);
    }
}

/// A `Commit` that reaches an idle assembler is a violation: no transaction
/// is emitted for it, and the assembler stays idle.
pub proof fn lemma_commit_while_idle_is_reported(commit: RowMessage, start: u64)
    requires
        commit.spec_op() == Op::Commit,
    ensures
        step(State::Idle, commit, start) == (
            State::Idle,
            Outcome::Violation(ViolationKind::CommitOutsideTransaction),
        ),
{
}

/// Only row changes reach a transaction: if the transaction in progress
/// holds only row changes before a record, so does the one in progress
/// after it, and so does the transaction that the record completes.
pub proof fn lemma_step_keeps_only_changes(state: State, record: RowMessage, start: u64)
    requires
        state.only_changes(),
    ensures
        step(state, record, start).0.only_changes(),
        step(state, record, start).1 matches Outcome::Completed(transaction)
            ==> transaction.only_changes(),
{
}

/// Every transaction that a run emits holds only row changes, and so does
/// the transaction that is in progress at its end.
pub proof fn lemma_run_keeps_only_changes(state: State, arrivals: Seq<Arrival>)
    requires
        state.only_changes(),
    ensures
        run(state, arrivals).state.only_changes(),
        forall|i: int|
            0 <= i < run(state, arrivals).emitted.len() ==> (#[trigger] run(
                state,
                arrivals,
            ).emitted[i]).only_changes(),
    decreases arrivals.len(),
{
    if arrivals.len() > 0 {
        lemma_run_keeps_only_changes(state, arrivals.drop_last());
    }
}

} // verus!
