use vstd::prelude::*;

verus! {

// The single-valued wire tags that frame the protocol's envelopes: each is
// an enum with one variant, standing for one fixed string on the wire.

/// The wire tag "all".
#[derive(Clone, Copy, Debug, PartialEq, Eq, Structural)]
pub enum All {
    All,
}

/// The wire tag "account_balances_and_margins".
#[derive(Clone, Copy, Debug, PartialEq, Eq, Structural)]
pub enum AccountBalancesAndMargins {
    AccountBalancesAndMargins,
}

/// The wire tag "book".
#[derive(Clone, Copy, Debug, PartialEq, Eq, Structural)]
pub enum Book {
    Book,
}

/// The wire tag "book_snapshot".
#[derive(Clone, Copy, Debug, PartialEq, Eq, Structural)]
pub enum BookSnapshot {
    BookSnapshot,
}

/// The wire tag "cashAccount".
#[derive(Clone, Copy, Debug, PartialEq, Eq, Structural)]
pub enum CashAccount {
    CashAccount,
}

/// The wire tag "challenge".
#[derive(Clone, Copy, Debug, PartialEq, Eq, Structural)]
pub enum Challenge {
    Challenge,
}

/// The wire tag "fills".
#[derive(Clone, Copy, Debug, PartialEq, Eq, Structural)]
pub enum Fills {
    Fills,
}

/// The wire tag "fills_snapshot".
#[derive(Clone, Copy, Debug, PartialEq, Eq, Structural)]
pub enum FillsSnapshot {
    FillsSnapshot,
}

/// The wire tag "heartbeat".
#[derive(Clone, Copy, Debug, PartialEq, Eq, Structural)]
pub enum Heartbeat {
    Heartbeat,
}

/// The wire tag "info".
#[derive(Clone, Copy, Debug, PartialEq, Eq, Structural)]
pub enum Info {
    Info,
}

/// The wire tag "marginAccount".
#[derive(Clone, Copy, Debug, PartialEq, Eq, Structural)]
pub enum MarginAccount {
    MarginAccount,
}

/// The wire tag "subscribed".
#[derive(Clone, Copy, Debug, PartialEq, Eq, Structural)]
pub enum Subscribed {
    Subscribed,
}

} // verus!
