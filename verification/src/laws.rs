//! What holds of every transaction, whatever is done with it.
//!
//! The laws speak of [`TxnView`] and [`TxnContextView`], the values that the
//! contracts of the operations are stated over.

use crate::context::TxnContextView;
use crate::errors::DgraphError;
use crate::txn::{ReplyView, TxnEvent, TxnView};
use vstd::prelude::*;
use vstd::seq_lib::{lemma_multiset_commutative, to_multiset_contains};

verus! {

/// Once a start timestamp has been assigned, no sequence of events changes
/// it.
pub proof fn start_ts_is_stable(s: TxnView, events: Seq<TxnEvent>)
    requires
        s.context.start_ts != 0,
    ensures
        s.run(events).context.start_ts == s.context.start_ts,
    decreases events.len(),
{
    if events.len() > 0 {
        start_ts_is_stable(s, events.drop_last());
    }
}

/// While no start timestamp has been assigned, the only event that assigns
/// one is a reply with a context, and it assigns the timestamp of that
/// context.
pub proof fn start_ts_is_set_by_the_first_context(s: TxnView, event: TxnEvent)
    requires
        s.context.start_ts == 0,
    ensures
        match event {
            TxnEvent::Reply { commit_now, reply: ReplyView::Context(c) } => {
                &&& s.reply_error(ReplyView::Context(c)) is None
                &&& s.step(event).context.start_ts == c.start_ts
            },
            _ => s.step(event).context.start_ts == 0,
        },
{
}

/// A reply whose context carries another start timestamp than the one
/// already assigned is a `StartTsMismatch`, and the context of the
/// transaction stays as it was.
pub proof fn mismatched_context_is_rejected(s: TxnView, commit_now: bool, c: TxnContextView)
    requires
        s.context.start_ts != 0,
        c.start_ts != s.context.start_ts,
    ensures
        s.reply_error(ReplyView::Context(c)) == Some(DgraphError::StartTsMismatch),
        s.reply(commit_now, ReplyView::Context(c)).context == s.context,
{
}

/// A finished transaction stays finished.
pub proof fn finished_is_permanent(s: TxnView, events: Seq<TxnEvent>)
    requires
        s.finished,
    ensures
        s.run(events).finished,
    decreases events.len(),
{
    if events.len() > 0 {
        finished_is_permanent(s, events.drop_last());
    }
}

/// A transaction that has mutated stays so.
pub proof fn mutated_is_permanent(s: TxnView, events: Seq<TxnEvent>)
    requires
        s.mutated,
    ensures
        s.run(events).mutated,
    decreases events.len(),
{
    if events.len() > 0 {
        mutated_is_permanent(s, events.drop_last());
    }
}

/// The mode of a transaction never changes.
pub proof fn mode_is_fixed(s: TxnView, events: Seq<TxnEvent>)
    ensures
        s.run(events).read_only == s.read_only,
        s.run(events).best_effort == s.best_effort,
    decreases events.len(),
{
    if events.len() > 0 {
        mode_is_fixed(s, events.drop_last());
    }
}

/// Keys and predicates are only ever appended: what a transaction held
/// before a sequence of events is a prefix of what it holds after.
pub proof fn keys_and_preds_only_grow(s: TxnView, events: Seq<TxnEvent>)
    ensures
        s.context.keys.is_prefix_of(s.run(events).context.keys),
        s.context.preds.is_prefix_of(s.run(events).context.preds),
    decreases events.len(),
{
    if events.len() > 0 {
        keys_and_preds_only_grow(s, events.drop_last());
    }
}

/// On a finished transaction a discard changes nothing and sends nothing,
/// and a commit is refused with `Finished`, changes nothing and sends
/// nothing.
pub proof fn finished_transaction_is_inert(s: TxnView)
    requires
        s.finished,
    ensures
        s.discard() == s,
        s.commit() == s,
        s.refusal(true) == Some(DgraphError::Finished),
        !s.sends_on_close(),
{
}

/// Discarding twice is the same as discarding once, and the second discard
/// sends nothing.
pub proof fn discard_is_idempotent(s: TxnView)
    ensures
        s.discard().finished,
        s.discard().discard() == s.discard(),
        !s.discard().sends_on_close(),
{
}

/// After a commit that was accepted, a second commit is refused with
/// `Finished`, changes nothing and sends nothing.
pub proof fn second_commit_is_refused(s: TxnView)
    requires
        s.refusal(true) is None,
    ensures
        s.commit().finished,
        s.commit().refusal(true) == Some(DgraphError::Finished),
        s.commit().commit() == s.commit(),
        !s.commit().sends_on_close(),
{
}

/// A request or a commit that is refused is refused for a reason found
/// locally, and leaves the state as it was.
pub proof fn refusal_has_no_effect(s: TxnView, mutating: bool)
    requires
        s.refusal(mutating) is Some,
    ensures
        s.refusal(mutating)->Some_0.is_validation(),
        s.submit(mutating) == s,
        mutating ==> s.commit() == s,
{
}

/// A mutation that is accepted marks the transaction as mutated before
/// anything is sent, so the mark stands whatever the reply is.
pub proof fn accepted_mutation_marks(s: TxnView, commit_now: bool, reply: ReplyView)
    requires
        s.refusal(true) is None,
    ensures
        s.submit(true).mutated,
        s.submit(true).reply(commit_now, reply).mutated,
{
}

/// A mutation on an active read-only transaction is refused with `ReadOnly`
/// and leaves the state as it was.
pub proof fn mutation_on_read_only_is_refused(s: TxnView)
    requires
        s.read_only,
        !s.finished,
    ensures
        s.refusal(true) == Some(DgraphError::ReadOnly),
        s.submit(true) == s,
{
}

/// After a transport failure the transaction is finished, and whatever is
/// tried next (a query, a mutation, a commit) is refused with `Finished`.
pub proof fn transport_failure_finishes(
    s: TxnView,
    commit_now: bool,
    failure: grpc::Error,
    mutating: bool,
)
    ensures
        s.reply(commit_now, ReplyView::Failed(failure)).finished,
        s.reply(commit_now, ReplyView::Failed(failure)).refusal(mutating) == Some(
            DgraphError::Finished,
        ),
        s.reply_error(ReplyView::Failed(failure)) == Some(DgraphError::GrpcError(failure)),
{
}

/// Merging two contexts one after the other holds the same keys and
/// predicates, each as often, in whichever order the two arrive, and ends
/// with the same start timestamp. This is stated of the orders in which
/// every merge is accepted.
pub proof fn merge_order_is_irrelevant(
    local: TxnContextView,
    a: TxnContextView,
    b: TxnContextView,
)
    requires
        local.accepts(a),
        local.merged(a).accepts(b),
        local.accepts(b),
        local.merged(b).accepts(a),
    ensures
        local.merged(a).merged(b).keys.to_multiset() == local.merged(b).merged(
            a,
        ).keys.to_multiset(),
        local.merged(a).merged(b).preds.to_multiset() == local.merged(b).merged(
            a,
        ).preds.to_multiset(),
        local.merged(a).merged(b).keys.to_set() == local.merged(b).merged(a).keys.to_set(),
        local.merged(a).merged(b).preds.to_set() == local.merged(b).merged(a).preds.to_set(),
        local.merged(a).merged(b).start_ts == local.merged(b).merged(a).start_ts,
{
    concat_order_is_irrelevant(local.keys, a.keys, b.keys);
    concat_order_is_irrelevant(local.preds, a.preds, b.preds);
}

/// Merging `a` and then `b` accumulates exactly the keys and predicates
/// that merging the two folded together does.
pub proof fn merge_is_associative(local: TxnContextView, a: TxnContextView, b: TxnContextView)
    ensures
        local.merged(a).merged(b).keys == local.merged(a.merged(b)).keys,
        local.merged(a).merged(b).preds == local.merged(a.merged(b)).preds,
{
}

/// `x + a + b` and `x + b + a` hold the same elements, each as often.
proof fn concat_order_is_irrelevant<T>(x: Seq<T>, a: Seq<T>, b: Seq<T>)
    ensures
        (x + a + b).to_multiset() == (x + b + a).to_multiset(),
        (x + a + b).to_set() == (x + b + a).to_set(),
{
    lemma_multiset_commutative(x, a);
    lemma_multiset_commutative(x + a, b);
    lemma_multiset_commutative(x, b);
    lemma_multiset_commutative(x + b, a);
    assert((x + a + b).to_multiset() =~= (x + b + a).to_multiset());
    let l = x + a + b;
    let r = x + b + a;
    assert forall|k: T| l.contains(k) <==> r.contains(k) by {
        to_multiset_contains(l, k);
        to_multiset_contains(r, k);
    }
    assert(l.to_set() =~= r.to_set());
}

} // verus!
