//! The transaction: a state machine that turns a sequence of queries and
//! mutations into one atomic unit.
//!
//! The transaction never talks to the server itself. Each operation decides
//! what has to be sent and hands it to the caller; the caller performs the
//! round trip and reports the reply with [`Txn::complete`]. Between the two
//! calls the caller must not start another operation on the same transaction.

use crate::context::{TxnContext, TxnContextView};
use crate::errors::DgraphError;
use crate::request::{Mutation, Request, RequestView, Response};
use std::collections::HashMap;
use vstd::prelude::*;

verus! {

/// The mathematical value of a [`Txn`].
pub struct TxnView {
    /// What the transaction has accumulated so far.
    pub context: TxnContextView,
    /// Committed or discarded; nothing more can be done with it.
    pub finished: bool,
    /// The transaction may not mutate.
    pub read_only: bool,
    /// The transaction accepts slightly stale reads.
    pub best_effort: bool,
    /// A mutation has been submitted, so the server may hold state for it.
    pub mutated: bool,
}

/// What came back for a submitted request, as far as the transaction reads it.
pub enum ReplyView {
    /// The transport failed.
    Failed(grpc::Error),
    /// The server answered without a transaction context.
    Empty,
    /// The server answered with this context.
    Context(TxnContextView),
}

/// One thing that happens to a transaction.
pub enum TxnEvent {
    /// A request is submitted; `mutating` tells whether it carries mutations.
    Submit { mutating: bool },
    /// The reply to a submitted request arrives.
    Reply { commit_now: bool, reply: ReplyView },
    /// The caller commits.
    Commit,
    /// The caller finishes the transaction without validation.
    CommitOrAbort,
    /// The caller discards.
    Discard,
}

impl TxnView {
    /// A transaction that has done nothing yet.
    pub open spec fn fresh(read_only: bool, best_effort: bool) -> TxnView {
        TxnView {
            context: TxnContextView::empty(),
            finished: false,
            read_only,
            best_effort,
            mutated: false,
        }
    }

    /// Why a request is turned away before anything is sent, if it is: a
    /// finished transaction accepts nothing, and a read-only one accepts no
    /// mutation. A commit is judged as a mutating request is.
    pub open spec fn refusal(self, mutating: bool) -> Option<DgraphError> {
        if self.finished {
            Some(DgraphError::Finished)
        } else if mutating && self.read_only {
            Some(DgraphError::ReadOnly)
        } else {
            None
        }
    }

    /// The state after a request has been submitted: an accepted mutating
    /// request marks the transaction as mutated, whatever becomes of it later.
    pub open spec fn submit(self, mutating: bool) -> TxnView {
        if mutating && self.refusal(mutating) is None {
            TxnView { mutated: true, ..self }
        } else {
            self
        }
    }

    /// The state after the transaction has been finished.
    pub open spec fn close(self) -> TxnView {
        TxnView { finished: true, ..self }
    }

    /// Whether finishing the transaction has to be told to the server: only
    /// where it is still active and the server has seen a mutation.
    pub open spec fn sends_on_close(self) -> bool {
        !self.finished && self.mutated
    }

    /// The state after a commit attempt.
    pub open spec fn commit(self) -> TxnView {
        if self.refusal(true) is None {
            self.close()
        } else {
            self
        }
    }

    /// The state after a discard: an active transaction is marked for
    /// roll-back and finished, a finished one stays as it is.
    pub open spec fn discard(self) -> TxnView {
        if self.finished {
            self
        } else {
            TxnView { context: self.context.abort(), finished: true, ..self }
        }
    }

    /// The state after the reply to a request has arrived. `commit_now` is
    /// the flag that the request was sent with.
    pub open spec fn reply(self, commit_now: bool, reply: ReplyView) -> TxnView {
        match reply {
            ReplyView::Failed(_) => self.discard(),
            ReplyView::Empty => TxnView { finished: self.finished || commit_now, ..self },
            ReplyView::Context(c) => TxnView {
                context: self.context.absorb(c),
                finished: self.finished || commit_now,
                ..self
            },
        }
    }

    /// The failure that a reply amounts to, if any.
    pub open spec fn reply_error(self, reply: ReplyView) -> Option<DgraphError> {
        match reply {
            ReplyView::Failed(e) => Some(DgraphError::GrpcError(e)),
            ReplyView::Empty => Some(DgraphError::EmptyTransaction),
            ReplyView::Context(c) => if self.context.accepts(c) {
                None
            } else {
                Some(DgraphError::StartTsMismatch)
            },
        }
    }

    /// The request that a query on this transaction sends.
    pub open spec fn query_request(self, text: Seq<char>, vars: Map<String, String>) -> RequestView {
        RequestView::query(text, self.context.start_ts, self.read_only, self.best_effort, vars)
    }

    /// The state after one event.
    pub open spec fn step(self, event: TxnEvent) -> TxnView {
        match event {
            TxnEvent::Submit { mutating } => self.submit(mutating),
            TxnEvent::Reply { commit_now, reply } => self.reply(commit_now, reply),
            TxnEvent::Commit => self.commit(),
            TxnEvent::CommitOrAbort => self.close(),
            TxnEvent::Discard => self.discard(),
        }
    }

    /// The state after a sequence of events, first to last.
    pub open spec fn run(self, events: Seq<TxnEvent>) -> TxnView
        decreases events.len(),
    {
        if events.len() == 0 {
            self
        } else {
            self.run(events.drop_last()).step(events.last())
        }
    }
}

/// What the transaction reads of a reply.
pub open spec fn reply_view(reply: Result<Response, grpc::Error>) -> ReplyView {
    match reply {
        Err(e) => ReplyView::Failed(e),
        Ok(response) => match response.txn {
            None => ReplyView::Empty,
            Some(c) => ReplyView::Context(c@),
        },
    }
}

/// Whether `action` is the message that has to go to the server: the context
/// `context` where `send` holds, nothing where it does not.
pub open spec fn carries(action: Option<TxnContext>, send: bool, context: TxnContextView) -> bool {
    if send {
        action is Some && action->Some_0@ == context
    } else {
        action is None
    }
}

/// What a reply amounts to.
pub struct Completion {
    /// What the caller of the operation gets.
    pub result: Result<Response, DgraphError>,
    /// After a transport failure on a mutated transaction: the context to
    /// send to the server to roll the transaction back. Whether that second
    /// round trip succeeds does not matter to `result`.
    pub abort: Option<TxnContext>,
}

/// One transaction, bound to the endpoint it was created on.
pub struct Txn<'a, E> {
    context: TxnContext,
    finished: bool,
    read_only: bool,
    best_effort: bool,
    mutated: bool,
    dc: &'a E,
}

impl<'a, E> View for Txn<'a, E> {
    type V = TxnView;

    closed spec fn view(&self) -> TxnView {
        TxnView {
            context: self.context@,
            finished: self.finished,
            read_only: self.read_only,
            best_effort: self.best_effort,
            mutated: self.mutated,
        }
    }
}

impl<'a, E> Txn<'a, E> {
    /// The endpoint that the transaction talks to.
    pub closed spec fn bound_to(&self) -> E {
        *self.dc
    }

    /// A transaction on `dc` that has done nothing yet.
    pub(crate) fn new(dc: &'a E, read_only: bool, best_effort: bool) -> (r: Txn<'a, E>)
        ensures
            r@ == TxnView::fresh(read_only, best_effort),
            r.bound_to() == *dc,
    {
        Txn { context: TxnContext::new(), finished: false, read_only, best_effort, mutated: false, dc }
    }

    /// The endpoint to send this transaction's requests to.
    pub fn endpoint(&self) -> (e: &'a E)
        ensures
            *e == self.bound_to(),
    {
        self.dc
    }

    /// What the transaction has accumulated so far.
    pub fn context(&self) -> (c: &TxnContext)
        ensures
            c@ == self@.context,
    {
        &self.context
    }

    /// The start timestamp; 0 until the first response has assigned it.
    pub fn start_ts(&self) -> (ts: u64)
        ensures
            ts == self@.context.start_ts,
    {
        self.context.start_ts
    }

    /// Whether the transaction has been committed or discarded.
    pub fn is_finished(&self) -> (b: bool)
        ensures
            b == self@.finished,
    {
        self.finished
    }

    /// Whether the transaction may only read.
    pub fn is_read_only(&self) -> (b: bool)
        ensures
            b == self@.read_only,
    {
        self.read_only
    }

    /// Whether the transaction accepts slightly stale reads.
    pub fn is_best_effort(&self) -> (b: bool)
        ensures
            b == self@.best_effort,
    {
        self.best_effort
    }

    /// Whether a mutation has been submitted.
    pub fn is_mutated(&self) -> (b: bool)
        ensures
            b == self@.mutated,
    {
        self.mutated
    }

    /// Validates `req` against the state and stamps it with the
    /// transaction's start timestamp.
    fn prepare(&mut self, req: Request) -> (r: Result<Request, DgraphError>)
        ensures
            final(self)@ == old(self)@.submit(req@.mutating()),
            final(self).bound_to() == old(self).bound_to(),
            match old(self)@.refusal(req@.mutating()) {
                Some(e) => r == Err::<Request, DgraphError>(e),
                None => r is Ok && r->Ok_0@ == req@.stamped(old(self)@.context.start_ts),
            },
    {
        if self.finished {
            return Err(DgraphError::Finished);
        }
        if !req.mutations.is_empty() {
            if self.read_only {
                return Err(DgraphError::ReadOnly);
            }
            self.mutated = true;
        }
        let mut req = req;
        req.start_ts = self.context.start_ts;
        Ok(req)
    }

    /// Starts a query without variables.
    ///
    /// Fails with `Finished` on a finished transaction. Otherwise returns the
    /// request to send; the state does not change until the reply arrives.
    pub fn query(&mut self, q: &str) -> (r: Result<Request, DgraphError>)
        ensures
            final(self)@ == old(self)@,
            final(self).bound_to() == old(self).bound_to(),
            match old(self)@.refusal(false) {
                Some(e) => r == Err::<Request, DgraphError>(e),
                None => r is Ok && r->Ok_0@ == old(self)@.query_request(q@, Map::empty()),
            },
    {
        self.query_with_vars(q, HashMap::new())
    }

    /// Starts a query with the variable bindings `vars`.
    ///
    /// Fails with `Finished` on a finished transaction. Otherwise returns the
    /// request to send: it carries the start timestamp, the read-only and
    /// best-effort flags, and `vars`.
    pub fn query_with_vars(&mut self, q: &str, vars: HashMap<String, String>) -> (r: Result<
        Request,
        DgraphError,
    >)
        ensures
            final(self)@ == old(self)@,
            final(self).bound_to() == old(self).bound_to(),
            match old(self)@.refusal(false) {
                Some(e) => r == Err::<Request, DgraphError>(e),
                None => r is Ok && r->Ok_0@ == old(self)@.query_request(q@, vars@),
            },
    {
        let req = Request::query(
            q.to_owned(),
            self.context.start_ts,
            self.read_only,
            self.best_effort,
            vars,
        );
        self.prepare(req)
    }

    /// Starts a mutation.
    ///
    /// Fails with `Finished` on a finished transaction and with `ReadOnly` on
    /// an active read-only one; the state is then unchanged. Otherwise the
    /// transaction counts as mutated from now on, and the request to send is
    /// returned; it commits at once where `mu` asks for it.
    pub fn mutate(&mut self, mu: Mutation) -> (r: Result<Request, DgraphError>)
        ensures
            final(self)@ == old(self)@.submit(true),
            final(self).bound_to() == old(self).bound_to(),
            match old(self)@.refusal(true) {
                Some(e) => r == Err::<Request, DgraphError>(e),
                None => r is Ok && r->Ok_0@ == RequestView::mutation(
                    mu@,
                    old(self)@.context.start_ts,
                ),
            },
    {
        let req = Request::mutation(mu, self.context.start_ts);
        self.prepare(req)
    }

    /// Starts a query and a mutation in one round trip that commits.
    ///
    /// Fails as [`Txn::mutate`] does. The commit flag of `mu` is forced on.
    pub fn upsert(&mut self, q: &str, mu: Mutation) -> (r: Result<Request, DgraphError>)
        ensures
            final(self)@ == old(self)@.submit(true),
            final(self).bound_to() == old(self).bound_to(),
            match old(self)@.refusal(true) {
                Some(e) => r == Err::<Request, DgraphError>(e),
                None => r is Ok && r->Ok_0@ == RequestView::upsert(
                    q@,
                    mu@,
                    old(self)@.context.start_ts,
                ),
            },
    {
        let req = Request::upsert(q.to_owned(), mu, self.context.start_ts);
        self.prepare(req)
    }

    /// Takes in the reply to a request that this transaction handed out.
    /// `commit_now` is the flag that the request was sent with.
    ///
    /// After a transport failure the transaction is discarded, and the
    /// failure is the result. After an answer the transaction is finished
    /// where the request committed; an answer without a context is an
    /// `EmptyTransaction`, one whose timestamp disagrees a `StartTsMismatch`
    /// that leaves the context as it was; any other context is merged, and
    /// the response is the result.
    pub fn complete(&mut self, commit_now: bool, reply: Result<Response, grpc::Error>) -> (r:
        Completion)
        ensures
            final(self)@ == old(self)@.reply(commit_now, reply_view(reply)),
            final(self).bound_to() == old(self).bound_to(),
            r.result == match old(self)@.reply_error(reply_view(reply)) {
                Some(e) => Err::<Response, DgraphError>(e),
                None => Ok::<Response, DgraphError>(reply->Ok_0),
            },
            carries(
                r.abort,
                reply is Err && old(self)@.sends_on_close(),
                old(self)@.context.abort(),
            ),
    {
        match reply {
            Err(e) => {
                let abort = self.discard();
                Completion { result: Err(DgraphError::from(e)), abort }
            },
            Ok(response) => {
                if commit_now {
                    self.finished = true;
                }
                let merged = match &response.txn {
                    None => Err(DgraphError::EmptyTransaction),
                    Some(incoming) => self.merge_context(incoming),
                };
                match merged {
                    Err(e) => Completion { result: Err(e), abort: None },
                    Ok(()) => Completion { result: Ok(response), abort: None },
                }
            },
        }
    }

    /// Commits the transaction.
    ///
    /// Fails with `Finished` on a finished transaction and with `ReadOnly` on
    /// an active read-only one. Otherwise the transaction is finished before
    /// anything is sent, and the result holds the accumulated context to send
    /// to the server, or nothing where the transaction never mutated.
    pub fn commit(&mut self) -> (r: Result<Option<TxnContext>, DgraphError>)
        ensures
            final(self)@ == old(self)@.commit(),
            final(self).bound_to() == old(self).bound_to(),
            match old(self)@.refusal(true) {
                Some(e) => r == Err::<Option<TxnContext>, DgraphError>(e),
                None => r is Ok && carries(r->Ok_0, old(self)@.mutated, old(self)@.context),
            },
    {
        if self.finished {
            return Err(DgraphError::Finished);
        }
        if self.read_only {
            return Err(DgraphError::ReadOnly);
        }
        Ok(self.commit_or_abort())
    }

    /// Finishes the transaction and says what to tell the server: the
    /// context as it stands, where the transaction was active and had
    /// mutated, and nothing otherwise.
    pub fn commit_or_abort(&mut self) -> (r: Option<TxnContext>)
        ensures
            final(self)@ == old(self)@.close(),
            final(self).bound_to() == old(self).bound_to(),
            carries(r, old(self)@.sends_on_close(), old(self)@.context),
    {
        if self.finished {
            return None;
        }
        self.finished = true;
        if !self.mutated {
            return None;
        }
        Some(self.context.clone())
    }

    /// Discards the transaction.
    ///
    /// Does nothing on a finished transaction. An active one is marked for
    /// roll-back and finished; where it had mutated, the result is the
    /// context to send to the server.
    pub fn discard(&mut self) -> (r: Option<TxnContext>)
        ensures
            final(self)@ == old(self)@.discard(),
            final(self).bound_to() == old(self).bound_to(),
            carries(r, old(self)@.sends_on_close(), old(self)@.context.abort()),
    {
        if self.finished {
            return None;
        }
        self.context.aborted = true;
        self.commit_or_abort()
    }

    /// Folds the context of a response into the transaction's own.
    ///
    /// Fails with `StartTsMismatch`, and changes nothing, where both carry a
    /// start timestamp and the two differ.
    pub fn merge_context(&mut self, src: &TxnContext) -> (r: Result<(), DgraphError>)
        ensures
            r == if old(self)@.context.accepts(src@) {
                Ok::<(), DgraphError>(())
            } else {
                Err::<(), DgraphError>(DgraphError::StartTsMismatch)
            },
            final(self)@ == (TxnView { context: old(self)@.context.absorb(src@), ..old(self)@ }),
            final(self)@ == old(self)@.reply(false, ReplyView::Context(src@)),
            final(self).bound_to() == old(self).bound_to(),
    {
        self.context.merge(src)
    }
}

/// What the caller of a commit or discard gets once the server has answered:
/// success, or the transport's failure.
pub fn commit_outcome(reply: Result<TxnContext, grpc::Error>) -> (r: Result<(), DgraphError>)
    ensures
        r == match reply {
            Ok(_) => Ok::<(), DgraphError>(()),
            Err(e) => Err::<(), DgraphError>(DgraphError::GrpcError(e)),
        },
{
    match reply {
        Ok(_) => Ok(()),
        Err(e) => Err(DgraphError::from(e)),
    }
}

} // verus!
