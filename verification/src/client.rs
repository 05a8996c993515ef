//! The client: a pool of endpoints, and the transactions created on them.

use crate::txn::{Txn, TxnView};
use rand::seq::SliceRandom;
use rand::Rng;
use rand::SeedableRng;
use vstd::prelude::*;

verus! {

/// The position that `rand`'s `SliceRandom::choose` picks in a slice of
/// `len` elements when it draws from a `Xoroshiro128Plus` generator freshly
/// seeded with `seed`.
pub uninterp spec fn drawn_index(seed: Seq<u8>, len: nat) -> nat;

/// Sixteen random bytes from `rand::thread_rng()`, through `Rng::gen`.
/// Nothing is claimed of them.
#[verifier::external_body]
fn fresh_seed() -> (seed: [u8; 16]) {
    rand::thread_rng().gen()
}

/// Seeds a `rand_xoshiro::Xoroshiro128Plus` with `SeedableRng::from_seed` and
/// lets `SliceRandom::choose` pick one element of `endpoints` with it.
///
/// The generator is a function of the seed. `choose` returns `None` for an
/// empty slice; for any other it draws one index below the length and returns
/// the element there. The contract says that much, and names the index.
#[verifier::external_body]
fn draw<'a, E>(endpoints: &'a Vec<E>, seed: &[u8; 16]) -> (picked: Option<&'a E>)
    ensures
        picked is Some <==> endpoints@.len() > 0,
        picked matches Some(e) ==> endpoints@.contains(*e),
        picked matches Some(e) ==> *e == endpoints@[drawn_index(seed@, endpoints@.len()) as int],
{
    let mut rng = rand_xoshiro::Xoroshiro128Plus::from_seed(*seed);
    endpoints.choose(&mut rng)
}

/// A non-empty pool of endpoints of type `E`, with the seed by which one of
/// them is chosen for each transaction.
pub struct DgraphClient<E> {
    dc: Vec<E>,
    rng_seed: [u8; 16],
}

impl<E> DgraphClient<E> {
    #[verifier::type_invariant]
    spec fn populated(self) -> bool {
        self.dc@.len() > 0
    }

    /// The endpoints of the pool, in the order in which they were given.
    pub closed spec fn endpoints(&self) -> Seq<E> {
        self.dc@
    }

    /// The seed of the pool.
    pub closed spec fn seed(&self) -> Seq<u8> {
        self.rng_seed@
    }

    /// The endpoint on which this client creates its transactions.
    pub open spec fn chosen(&self) -> E {
        self.endpoints()[drawn_index(self.seed(), self.endpoints().len()) as int]
    }

    /// A client over the endpoints `dc`, with a random seed.
    pub fn new(dc: Vec<E>) -> (r: DgraphClient<E>)
        requires
            dc@.len() > 0,
        ensures
            r.endpoints() == dc@,
    {
        DgraphClient::with_seed(dc, fresh_seed())
    }

    /// A client over the endpoints `dc` that chooses by `rng_seed`.
    pub fn with_seed(dc: Vec<E>, rng_seed: [u8; 16]) -> (r: DgraphClient<E>)
        requires
            dc@.len() > 0,
        ensures
            r.endpoints() == dc@,
            r.seed() == rng_seed@,
    {
        DgraphClient { dc, rng_seed }
    }

    /// The number of endpoints in the pool, which is never 0.
    pub fn len(&self) -> (n: usize)
        ensures
            n == self.endpoints().len(),
            n > 0,
    {
        proof {
            use_type_invariant(self);
        }
        self.dc.len()
    }

    /// A fresh read-write transaction on the chosen endpoint.
    pub fn new_txn(&self) -> (t: Txn<'_, E>)
        ensures
            t@ == TxnView::fresh(false, false),
            t.bound_to() == self.chosen(),
            self.endpoints().contains(t.bound_to()),
    {
        Txn::new(self.any_client(), false, false)
    }

    /// A fresh read-only transaction on the chosen endpoint.
    pub fn new_read_only(&self) -> (t: Txn<'_, E>)
        ensures
            t@ == TxnView::fresh(true, false),
            t.bound_to() == self.chosen(),
            self.endpoints().contains(t.bound_to()),
    {
        Txn::new(self.any_client(), true, false)
    }

    /// A fresh read-only transaction that accepts slightly stale reads, on
    /// the chosen endpoint.
    pub fn new_best_effort(&self) -> (t: Txn<'_, E>)
        ensures
            t@ == TxnView::fresh(true, true),
            t.bound_to() == self.chosen(),
            self.endpoints().contains(t.bound_to()),
    {
        Txn::new(self.any_client(), true, true)
    }

    /// Draws one endpoint of the pool with a generator seeded from the
    /// pool's seed. The seed is not advanced, so every draw of one client
    /// gives the same endpoint.
    fn any_client(&self) -> (e: &E)
        ensures
            *e == self.chosen(),
            self.endpoints().contains(*e),
    {
        proof {
            use_type_invariant(self);
        }
        draw(&self.dc, &self.rng_seed).unwrap()
    }
}

} // verus!
