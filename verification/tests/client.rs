use dgraph_client::DgraphClient;
use rand::Rng;

fn seed(s0: u64, s1: u64) -> [u8; 16] {
    let mut bytes = [0u8; 16];
    bytes[..8].copy_from_slice(&s0.to_le_bytes());
    bytes[8..].copy_from_slice(&s1.to_le_bytes());
    bytes
}

#[test]
fn a_pool_of_one_always_gives_that_endpoint() {
    let dg = DgraphClient::new(vec!["only"]);
    assert_eq!(dg.len(), 1);
    for _ in 0..100 {
        assert_eq!(*dg.new_txn().endpoint(), "only");
        assert_eq!(*dg.new_read_only().endpoint(), "only");
        assert_eq!(*dg.new_best_effort().endpoint(), "only");
    }
}

#[test]
fn the_endpoint_is_one_of_the_pool() {
    let pool = vec![10u32, 20, 30, 40, 50];
    for _ in 0..200 {
        let dg = DgraphClient::new(pool.clone());
        assert_eq!(dg.len(), 5);
        assert!(pool.contains(dg.new_txn().endpoint()));
    }
}

#[test]
fn one_client_draws_the_same_endpoint_every_time() {
    let dg = DgraphClient::with_seed(vec![0usize, 1, 2], seed(0x1234_5678_9abc_def0, 0x0fed_cba9_8765_4321));
    let first = *dg.new_txn().endpoint();
    for _ in 0..50 {
        assert_eq!(*dg.new_txn().endpoint(), first);
        assert_eq!(*dg.new_read_only().endpoint(), first);
        assert_eq!(*dg.new_best_effort().endpoint(), first);
    }
}

#[test]
fn two_clients_with_one_seed_agree() {
    let s = seed(0xdead_beef_0000_0001, 0x0000_0000_cafe_f00d);
    let a = DgraphClient::with_seed(vec!["a", "b", "c"], s);
    let b = DgraphClient::with_seed(vec!["a", "b", "c"], s);
    assert_eq!(*a.new_txn().endpoint(), *b.new_txn().endpoint());
}

#[test]
fn the_draw_follows_the_generator() {
    // The first 32-bit output of the generator is the upper half of s0 + s1;
    // multiplied by the pool's size, its upper word is the index.
    let pool = vec!["first", "second", "third"];
    let dg = DgraphClient::with_seed(pool.clone(), seed(0x0000_0001_0000_0000, 0));
    assert_eq!(*dg.new_txn().endpoint(), "first");
    let dg = DgraphClient::with_seed(pool.clone(), seed(0x6000_0000_0000_0000, 0));
    assert_eq!(*dg.new_txn().endpoint(), "second");
    let dg = DgraphClient::with_seed(pool.clone(), seed(0x5000_0000_0000_0000, 0x6000_0000_0000_0000));
    assert_eq!(*dg.new_txn().endpoint(), "third");
}

#[test]
fn every_endpoint_of_three_is_chosen_about_a_third_of_the_time() {
    let mut rng = rand::thread_rng();
    let mut counts = [0usize; 3];
    for _ in 0..10_000 {
        let dg = DgraphClient::with_seed(vec![0usize, 1, 2], rng.gen());
        let first = *dg.new_txn().endpoint();
        let second = *dg.new_txn().endpoint();
        assert_eq!(first, second);
        counts[first] += 1;
    }
    assert_eq!(counts.iter().sum::<usize>(), 10_000);
    for count in counts.iter() {
        assert!(*count > 3_000 && *count < 3_667, "counts: {:?}", counts);
    }
}

#[test]
fn fresh_clients_spread_over_the_pool() {
    let mut counts = [0usize; 3];
    for _ in 0..10_000 {
        let dg = DgraphClient::new(vec![0usize, 1, 2]);
        counts[*dg.new_txn().endpoint()] += 1;
    }
    for count in counts.iter() {
        assert!(*count > 3_000 && *count < 3_667, "counts: {:?}", counts);
    }
}
