//! The transaction context and the rule that folds a server's context into
//! the one the client holds.

use crate::errors::DgraphError;
use vstd::prelude::*;

verus! {

/// What a transaction has accumulated: its start timestamp and the conflict
/// keys and predicates of every operation so far.
#[derive(Debug, PartialEq, Eq)]
pub struct TxnContext {
    /// The snapshot time of the transaction; 0 until the server assigns it.
    pub start_ts: u64,
    /// Assigned by the server on commit; the client never reads it.
    pub commit_ts: u64,
    /// Set on a context that is sent to roll the transaction back.
    pub aborted: bool,
    /// Conflict keys, in the order in which they arrived.
    pub keys: Vec<String>,
    /// Predicates touched, in the order in which they arrived.
    pub preds: Vec<String>,
}

/// The mathematical value of a [`TxnContext`].
pub struct TxnContextView {
    pub start_ts: u64,
    pub commit_ts: u64,
    pub aborted: bool,
    pub keys: Seq<Seq<char>>,
    pub preds: Seq<Seq<char>>,
}

impl View for TxnContext {
    type V = TxnContextView;

    open spec fn view(&self) -> TxnContextView {
        TxnContextView {
            start_ts: self.start_ts,
            commit_ts: self.commit_ts,
            aborted: self.aborted,
            keys: self.keys.deep_view(),
            preds: self.preds.deep_view(),
        }
    }
}

impl TxnContextView {
    /// The context of a transaction that has not heard from the server yet.
    pub open spec fn empty() -> TxnContextView {
        TxnContextView {
            start_ts: 0,
            commit_ts: 0,
            aborted: false,
            keys: Seq::empty(),
            preds: Seq::empty(),
        }
    }

    /// Whether `incoming` can belong to the transaction that holds `self`:
    /// either no timestamp has been assigned yet, or the two agree.
    pub open spec fn accepts(self, incoming: TxnContextView) -> bool {
        self.start_ts == 0 || self.start_ts == incoming.start_ts
    }

    /// `self` after `incoming` has been folded in: an unassigned timestamp is
    /// adopted, and the keys and predicates of `incoming` follow those already
    /// held, duplicates included.
    pub open spec fn merged(self, incoming: TxnContextView) -> TxnContextView {
        TxnContextView {
            start_ts: if self.start_ts == 0 {
                incoming.start_ts
            } else {
                self.start_ts
            },
            commit_ts: self.commit_ts,
            aborted: self.aborted,
            keys: self.keys + incoming.keys,
            preds: self.preds + incoming.preds,
        }
    }

    /// The outcome of a merge attempt: the merged context where `incoming` is
    /// accepted, `self` untouched where it is not.
    pub open spec fn absorb(self, incoming: TxnContextView) -> TxnContextView {
        if self.accepts(incoming) {
            self.merged(incoming)
        } else {
            self
        }
    }

    /// `self` marked for roll-back.
    pub open spec fn abort(self) -> TxnContextView {
        TxnContextView { aborted: true, ..self }
    }
}

/// Appends a copy of every string of `src` to `dst`, in order.
fn append_all(dst: &mut Vec<String>, src: &Vec<String>)
    ensures
        final(dst).deep_view() == old(dst).deep_view() + src.deep_view(),
{
    let n: usize = src.len();
    let mut i: usize = 0;
    while i < n
        invariant
            n == src.len(),
            i <= n,
            dst.deep_view() == old(dst).deep_view() + src.deep_view().take(i as int),
        decreases n - i,
    {
        let ghost before = dst.deep_view();
        dst.push(src[i].clone());
        proof {
            assert(dst.deep_view() =~= before.push(src[i as int]@));
            assert(src.deep_view().take(i + 1) =~= src.deep_view().take(i as int).push(
                src[i as int]@,
            ));
        }
        i = i + 1;
    }
}

impl TxnContext {
    /// A context with no timestamp, no keys and no predicates.
    pub fn new() -> (r: TxnContext)
        ensures
            r@ == TxnContextView::empty(),
    {
        let r = TxnContext {
            start_ts: 0,
            commit_ts: 0,
            aborted: false,
            keys: Vec::new(),
            preds: Vec::new(),
        };
        proof {
            assert(r.keys.deep_view() =~= Seq::<Seq<char>>::empty());
            assert(r.preds.deep_view() =~= Seq::<Seq<char>>::empty());
        }
        r
    }

    /// Folds `incoming` into `self`.
    ///
    /// Succeeds exactly when `self` has no timestamp yet or the two
    /// timestamps agree. On a mismatch `self` is left as it was.
    pub fn merge(&mut self, incoming: &TxnContext) -> (r: Result<(), DgraphError>)
        ensures
            r == if old(self)@.accepts(incoming@) {
                Ok::<(), DgraphError>(())
            } else {
                Err::<(), DgraphError>(DgraphError::StartTsMismatch)
            },
            final(self)@ == old(self)@.absorb(incoming@),
    {
        if self.start_ts == 0 {
            self.start_ts = incoming.start_ts;
        }
        if self.start_ts != incoming.start_ts {
            return Err(DgraphError::StartTsMismatch);
        }
        append_all(&mut self.keys, &incoming.keys);
        append_all(&mut self.preds, &incoming.preds);
        Ok(())
    }
}

impl Clone for TxnContext {
    fn clone(&self) -> (r: TxnContext)
        ensures
            r@ == self@,
    {
        let mut r = TxnContext {
            start_ts: self.start_ts,
            commit_ts: self.commit_ts,
            aborted: self.aborted,
            keys: Vec::new(),
            preds: Vec::new(),
        };
        append_all(&mut r.keys, &self.keys);
        append_all(&mut r.preds, &self.preds);
        r
    }
}

impl Default for TxnContext {
    fn default() -> (r: TxnContext)
        ensures
            r@ == TxnContextView::empty(),
    {
        TxnContext::new()
    }
}

} // verus!
