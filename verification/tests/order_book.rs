use kraken_rs::book::{BookDelta, OrderBook};
use kraken_rs::common::Side;

fn delta(side: Side, price: u64, qty: u64) -> BookDelta {
    BookDelta { side, price, qty }
}

#[test]
fn snapshot_then_deltas_matches_replay_from_scratch() {
    // Applying a snapshot then deltas with increasing sequence numbers must
    // leave the same book as replaying the same inputs on a fresh book.
    let bids = vec![(100u64, 5u64), (99, 3), (98, 1)];
    let asks = vec![(101u64, 2u64), (102, 4)];
    let deltas = vec![
        delta(Side::Buy, 100, 7),
        delta(Side::Sell, 101, 0),
        delta(Side::Buy, 97, 2),
        delta(Side::Sell, 103, 9),
        delta(Side::Buy, 99, 0),
    ];

    let mut incremental = OrderBook::new();
    incremental.apply_snapshot(&bids, &asks);
    for d in &deltas {
        incremental.apply_delta(*d);
    }

    let mut replayed = OrderBook::new();
    replayed.apply_snapshot(&bids, &asks);
    replayed.apply_deltas(&deltas);

    assert_eq!(incremental.top_bid(), replayed.top_bid());
    assert_eq!(incremental.top_ask(), replayed.top_ask());
    assert_eq!(incremental, replayed);

    assert_eq!(incremental.top_bid(), Some((100, 7)));
    assert_eq!(incremental.top_ask(), Some((102, 4)));
}

#[test]
fn zero_quantity_removes_that_exact_level() {
    let mut book = OrderBook::new();
    book.apply_snapshot(&vec![(100, 5), (99, 3)], &vec![(101, 2)]);
    book.apply_delta(delta(Side::Buy, 100, 0));
    assert_eq!(book.top_bid(), Some((99, 3)));
    book.apply_delta(delta(Side::Buy, 99, 0));
    assert_eq!(book.top_bid(), None);
    // Removing a level that is not there changes nothing.
    book.apply_delta(delta(Side::Sell, 500, 0));
    assert_eq!(book.top_ask(), Some((101, 2)));
}

#[test]
fn zero_quantity_in_snapshot_inserts_nothing() {
    let mut book = OrderBook::new();
    book.apply_snapshot(&vec![(100, 0)], &vec![]);
    assert_eq!(book.top_bid(), None);
}

#[test]
fn delta_replaces_existing_level() {
    let mut book = OrderBook::new();
    book.apply_snapshot(&vec![(100, 5)], &vec![]);
    book.apply_delta(delta(Side::Buy, 100, 9));
    assert_eq!(book.top_bid(), Some((100, 9)));
}

#[test]
fn empty_book_has_no_tops() {
    let book = OrderBook::new();
    assert_eq!(book.top_bid(), None);
    assert_eq!(book.top_ask(), None);
}
