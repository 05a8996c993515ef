//! The messages that a transaction exchanges with the server, and the rules
//! that assemble a request from the transaction's state.

use crate::context::{TxnContext, TxnContextView};
use std::collections::HashMap;
use vstd::prelude::*;

verus! {

/// A change to the graph, in any of the encodings that the server reads.
#[derive(Debug, PartialEq, Eq)]
pub struct Mutation {
    /// Triples to set, as JSON.
    pub set_json: Vec<u8>,
    /// Triples to delete, as JSON.
    pub delete_json: Vec<u8>,
    /// Triples to set, as N-Quads.
    pub set_nquads: Vec<u8>,
    /// Triples to delete, as N-Quads.
    pub del_nquads: Vec<u8>,
    /// The condition under which the mutation applies.
    pub cond: String,
    /// Asks the server to commit in the same round trip.
    pub commit_now: bool,
}

/// The mathematical value of a [`Mutation`].
pub struct MutationView {
    pub set_json: Seq<u8>,
    pub delete_json: Seq<u8>,
    pub set_nquads: Seq<u8>,
    pub del_nquads: Seq<u8>,
    pub cond: Seq<char>,
    pub commit_now: bool,
}

impl View for Mutation {
    type V = MutationView;

    open spec fn view(&self) -> MutationView {
        MutationView {
            set_json: self.set_json@,
            delete_json: self.delete_json@,
            set_nquads: self.set_nquads@,
            del_nquads: self.del_nquads@,
            cond: self.cond@,
            commit_now: self.commit_now,
        }
    }
}

impl MutationView {
    /// A mutation that changes nothing.
    pub open spec fn empty() -> MutationView {
        MutationView {
            set_json: Seq::empty(),
            delete_json: Seq::empty(),
            set_nquads: Seq::empty(),
            del_nquads: Seq::empty(),
            cond: Seq::empty(),
            commit_now: false,
        }
    }

    /// `self` with the request to commit in the same round trip.
    pub open spec fn committing(self) -> MutationView {
        MutationView { commit_now: true, ..self }
    }
}

impl Mutation {
    /// A mutation that changes nothing and does not ask for a commit.
    pub fn new() -> (r: Mutation)
        ensures
            r@ == MutationView::empty(),
    {
        Mutation {
            set_json: Vec::new(),
            delete_json: Vec::new(),
            set_nquads: Vec::new(),
            del_nquads: Vec::new(),
            cond: String::new(),
            commit_now: false,
        }
    }
}

impl Default for Mutation {
    fn default() -> (r: Mutation)
        ensures
            r@ == MutationView::empty(),
    {
        Mutation::new()
    }
}

/// One round trip to the server: a query, mutations, or both.
#[derive(Debug, PartialEq, Eq)]
pub struct Request {
    /// The start timestamp of the transaction that sends the request.
    pub start_ts: u64,
    /// The query text; empty for a bare mutation.
    pub query: String,
    /// Values for the variables of the query.
    pub vars: HashMap<String, String>,
    /// The transaction only reads.
    pub read_only: bool,
    /// The transaction accepts slightly stale data.
    pub best_effort: bool,
    /// The mutations to apply; empty for a bare query.
    pub mutations: Vec<Mutation>,
    /// Asks the server to commit in the same round trip.
    pub commit_now: bool,
}

/// The mathematical value of a [`Request`].
pub struct RequestView {
    pub start_ts: u64,
    pub query: Seq<char>,
    pub vars: Map<String, String>,
    pub read_only: bool,
    pub best_effort: bool,
    pub mutations: Seq<MutationView>,
    pub commit_now: bool,
}

impl View for Request {
    type V = RequestView;

    open spec fn view(&self) -> RequestView {
        RequestView {
            start_ts: self.start_ts,
            query: self.query@,
            vars: self.vars@,
            read_only: self.read_only,
            best_effort: self.best_effort,
            mutations: self.mutations@.map_values(|m: Mutation| m@),
            commit_now: self.commit_now,
        }
    }
}

impl RequestView {
    /// A request to run `text` with the bindings `vars`.
    pub open spec fn query(
        text: Seq<char>,
        start_ts: u64,
        read_only: bool,
        best_effort: bool,
        vars: Map<String, String>,
    ) -> RequestView {
        RequestView {
            start_ts,
            query: text,
            vars,
            read_only,
            best_effort,
            mutations: Seq::empty(),
            commit_now: false,
        }
    }

    /// A request to apply `mu`; it commits at once where `mu` asks for it.
    pub open spec fn mutation(mu: MutationView, start_ts: u64) -> RequestView {
        RequestView {
            start_ts,
            query: Seq::empty(),
            vars: Map::empty(),
            read_only: false,
            best_effort: false,
            mutations: seq![mu],
            commit_now: mu.commit_now,
        }
    }

    /// A request to run `text` and apply `mu` in one round trip that commits.
    pub open spec fn upsert(text: Seq<char>, mu: MutationView, start_ts: u64) -> RequestView {
        RequestView {
            start_ts,
            query: text,
            vars: Map::empty(),
            read_only: false,
            best_effort: false,
            mutations: seq![mu.committing()],
            commit_now: true,
        }
    }

    /// Whether the request changes the graph.
    pub open spec fn mutating(self) -> bool {
        self.mutations.len() > 0
    }

    /// `self` stamped with the start timestamp `ts`.
    pub open spec fn stamped(self, ts: u64) -> RequestView {
        RequestView { start_ts: ts, ..self }
    }
}

impl Request {
    /// Assembles a query request from the state of a transaction.
    pub fn query(
        text: String,
        start_ts: u64,
        read_only: bool,
        best_effort: bool,
        vars: HashMap<String, String>,
    ) -> (r: Request)
        ensures
            r@ == RequestView::query(text@, start_ts, read_only, best_effort, vars@),
    {
        let r = Request {
            start_ts,
            query: text,
            vars,
            read_only,
            best_effort,
            mutations: Vec::new(),
            commit_now: false,
        };
        proof {
            assert(r@.mutations =~= Seq::<MutationView>::empty());
        }
        r
    }

    /// Assembles a request that applies `mu`, with the commit flag of `mu`.
    pub fn mutation(mu: Mutation, start_ts: u64) -> (r: Request)
        ensures
            r@ == RequestView::mutation(mu@, start_ts),
    {
        let commit_now = mu.commit_now;
        let mut mutations: Vec<Mutation> = Vec::new();
        mutations.push(mu);
        let r = Request {
            start_ts,
            query: String::new(),
            vars: HashMap::new(),
            read_only: false,
            best_effort: false,
            mutations,
            commit_now,
        };
        proof {
            assert(r@.mutations =~= seq![mu@]);
        }
        r
    }

    /// Assembles a request that runs `text`, applies `mu` and commits, all in
    /// one round trip. The commit flag of `mu` is forced on.
    pub fn upsert(text: String, mu: Mutation, start_ts: u64) -> (r: Request)
        ensures
            r@ == RequestView::upsert(text@, mu@, start_ts),
    {
        let mut mu = mu;
        let ghost given = mu@;
        mu.commit_now = true;
        let mut mutations: Vec<Mutation> = Vec::new();
        mutations.push(mu);
        let r = Request {
            start_ts,
            query: text,
            vars: HashMap::new(),
            read_only: false,
            best_effort: false,
            mutations,
            commit_now: true,
        };
        proof {
            assert(r@.mutations =~= seq![given.committing()]);
        }
        r
    }
}

/// What the server answers to a [`Request`].
#[derive(Debug, PartialEq, Eq)]
pub struct Response {
    /// The result of the query, as JSON.
    pub json: Vec<u8>,
    /// The server's view of the transaction; a well-behaved server always
    /// sends one.
    pub txn: Option<TxnContext>,
    /// The identifiers that the server assigned to blank nodes.
    pub uids: HashMap<String, String>,
}

/// The mathematical value of a [`Response`].
pub struct ResponseView {
    pub json: Seq<u8>,
    pub txn: Option<TxnContextView>,
    pub uids: Map<String, String>,
}

impl View for Response {
    type V = ResponseView;

    open spec fn view(&self) -> ResponseView {
        ResponseView {
            json: self.json@,
            txn: match self.txn {
                Some(c) => Some(c@),
                None => None,
            },
            uids: self.uids@,
        }
    }
}

impl Response {
    /// A response with an empty result and no transaction context.
    pub fn new() -> (r: Response)
        ensures
            r@ == (ResponseView { json: Seq::empty(), txn: None, uids: Map::empty() }),
    {
        Response { json: Vec::new(), txn: None, uids: HashMap::new() }
    }
}

impl Default for Response {
    fn default() -> (r: Response)
        ensures
            r@ == (ResponseView { json: Seq::empty(), txn: None, uids: Map::empty() }),
    {
        Response::new()
    }
}

} // verus!
