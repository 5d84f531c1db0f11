//! The book of one runner.

use crate::table::Table;
use rust_decimal::Decimal;
use vstd::prelude::*;

verus! {

/// How much is on offer at a price.
#[derive(Debug)]
pub struct PriceLevel {
    pub price: Decimal,
    pub size: Decimal,
}

/// What is on offer for a runner, on both sides.
#[derive(Debug)]
pub struct Orderbook {
    pub bids: Vec<PriceLevel>,
    pub asks: Vec<PriceLevel>,
}

/// What `Orderbook` stands for.
#[verifier::ext_equal]
pub struct BookState {
    pub bids: Seq<PriceLevel>,
    pub asks: Seq<PriceLevel>,
}

impl View for Orderbook {
    type V = BookState;

    open spec fn view(&self) -> BookState {
        BookState { bids: self.bids@, asks: self.asks@ }
    }
}

impl Clone for PriceLevel {
    fn clone(&self) -> (copy: Self)
        ensures
            copy == *self,
    {
        PriceLevel { price: self.price.clone(), size: self.size.clone() }
    }
}

impl Clone for Orderbook {
    fn clone(&self) -> (copy: Self)
        ensures
            copy@ == self@,
    {
        let copy = Orderbook { bids: self.bids.clone(), asks: self.asks.clone() };
        proof {
            assert(copy@ =~= self@);
        }
        copy
    }
}

/// The books that a table holds, runner by runner.
pub open spec fn books_of(books: Table<Orderbook>) -> Map<Seq<char>, BookState> {
    books@.map_values(|book: Orderbook| book@)
}

/// The books of several markets.
pub open spec fn market_books_of(
    markets: Table<Table<Orderbook>>,
) -> Map<Seq<char>, Map<Seq<char>, BookState>> {
    markets@.map_values(|books: Table<Orderbook>| books_of(books))
}

} // verus!
