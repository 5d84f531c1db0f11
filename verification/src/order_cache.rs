//! What is known of an account's orders, market by market and runner by runner.

use crate::dto::streaming::{OrderChange, OrderRunnerChange, UnmatchedOrder};
use crate::table::Table;
use rust_decimal::Decimal;
use std::collections::HashMap;
use vstd::prelude::*;

verus! {

broadcast use vstd::std_specs::hash::group_hash_axioms;

/// The orders on one runner.
pub struct RunnerOrders {
    pub handicap: Option<Decimal>,
    pub orders: Table<UnmatchedOrder>,
    pub matched_backs: Vec<Vec<Decimal>>,
    pub matched_lays: Vec<Vec<Decimal>>,
}

/// The orders on one market.
pub struct OrderCache {
    pub market_id: String,
    pub timestamp: i64,
    pub runners: HashMap<u64, RunnerOrders>,
}

/// What `RunnerOrders` stands for: orders by their identifiers, and what was matched.
#[verifier::ext_equal]
pub struct RunnerState {
    pub handicap: Option<Decimal>,
    pub orders: Map<Seq<char>, UnmatchedOrder>,
    pub matched_backs: Seq<Seq<Decimal>>,
    pub matched_lays: Seq<Seq<Decimal>>,
}

/// What `OrderCache` stands for: runners by their identifiers.
#[verifier::ext_equal]
pub struct CacheState {
    pub market_id: Seq<char>,
    pub timestamp: i64,
    pub runners: Map<u64, RunnerState>,
}

impl View for RunnerOrders {
    type V = RunnerState;

    open spec fn view(&self) -> RunnerState {
        RunnerState {
            handicap: self.handicap,
            orders: self.orders@,
            matched_backs: rows(self.matched_backs@),
            matched_lays: rows(self.matched_lays@),
        }
    }
}

impl View for OrderCache {
    type V = CacheState;

    open spec fn view(&self) -> CacheState {
        CacheState {
            market_id: self.market_id@,
            timestamp: self.timestamp,
            runners: self.runners@.map_values(|runner: RunnerOrders| runner@),
        }
    }
}

/// The rows of numbers that a list of lists holds.
pub open spec fn rows(lists: Seq<Vec<Decimal>>) -> Seq<Seq<Decimal>> {
    lists.map_values(|list: Vec<Decimal>| list@)
}

/// A runner without orders.
pub open spec fn no_orders() -> RunnerState {
    RunnerState {
        handicap: None,
        orders: Map::empty(),
        matched_backs: Seq::empty(),
        matched_lays: Seq::empty(),
    }
}

/// A market without runners.
pub open spec fn no_runners(market_id: Seq<char>) -> CacheState {
    CacheState { market_id, timestamp: 0, runners: Map::empty() }
}

/// `orders` with every order of `news` put under its identifier, a later one over an earlier one.
pub open spec fn with_orders(
    orders: Map<Seq<char>, UnmatchedOrder>,
    news: Seq<UnmatchedOrder>,
) -> Map<Seq<char>, UnmatchedOrder>
    decreases news.len(),
{
    if news.len() == 0 {
        orders
    } else {
        with_orders(orders, news.drop_last()).insert(news.last().id@, news.last())
    }
}

/// A runner after a change. The handicap is the change's. A full image replaces the orders, any
/// other change adds to them. What was matched is replaced where the change speaks of it.
pub open spec fn runner_after(runner: RunnerState, change: OrderRunnerChange) -> RunnerState {
    RunnerState {
        handicap: change.handicap,
        orders: with_orders(
            if change.full_image {
                Map::empty()
            } else {
                runner.orders
            },
            match change.unmatched_orders {
                Some(orders) => orders@,
                None => Seq::empty(),
            },
        ),
        matched_backs: match change.matched_backs {
            Some(matched) => rows(matched@),
            None => runner.matched_backs,
        },
        matched_lays: match change.matched_lays {
            Some(matched) => rows(matched@),
            None => runner.matched_lays,
        },
    }
}

/// The runner that stands under an identifier, without orders where there is none.
pub open spec fn runner_of(runners: Map<u64, RunnerState>, id: u64) -> RunnerState {
    if runners.contains_key(id) {
        runners[id]
    } else {
        no_orders()
    }
}

/// Runners after a list of changes, taken in order.
pub open spec fn runners_after(
    runners: Map<u64, RunnerState>,
    changes: Seq<OrderRunnerChange>,
) -> Map<u64, RunnerState>
    decreases changes.len(),
{
    if changes.len() == 0 {
        runners
    } else {
        let before = runners_after(runners, changes.drop_last());
        let change = changes.last();
        before.insert(change.id, runner_after(runner_of(before, change.id), change))
    }
}

/// A market after a change that came at `pt`. A full image forgets the runners first.
pub open spec fn cache_after(cache: CacheState, change: OrderChange, pt: i64) -> CacheState {
    CacheState {
        market_id: cache.market_id,
        timestamp: pt,
        runners: runners_after(
            if change.full_image {
                Map::empty()
            } else {
                cache.runners
            },
            match change.order_runner_change {
                Some(changes) => changes@,
                None => Seq::empty(),
            },
        ),
    }
}

/// The market that stands under an identifier, without runners where there is none.
pub open spec fn cache_of(caches: Map<Seq<char>, CacheState>, id: Seq<char>) -> CacheState {
    if caches.contains_key(id) {
        caches[id]
    } else {
        no_runners(id)
    }
}

/// Markets after a list of changes that came at `pt`, taken in order.
pub open spec fn caches_after(
    caches: Map<Seq<char>, CacheState>,
    changes: Seq<OrderChange>,
    pt: i64,
) -> Map<Seq<char>, CacheState>
    decreases changes.len(),
{
    if changes.len() == 0 {
        caches
    } else {
        let before = caches_after(caches, changes.drop_last(), pt);
        let change = changes.last();
        before.insert(change.id@, cache_after(cache_of(before, change.id@), change, pt))
    }
}

fn copied_rows(lists: &Vec<Vec<Decimal>>) -> (copy: Vec<Vec<Decimal>>)
    ensures
        rows(copy@) == rows(lists@),
{
    let copy = lists.clone();
    proof {
        assert forall|i: int| 0 <= i < lists@.len() implies (#[trigger] copy@[i])@
            == lists@[i]@ by {
            assert(cloned(lists@[i], copy@[i]));
            assert(copy@[i]@ =~= lists@[i]@);
        }
        assert(rows(copy@) =~= rows(lists@));
    }
    copy
}

impl RunnerOrders {
    /// A runner without orders.
    pub fn new() -> (runner: Self)
        ensures
            runner@ == no_orders(),
    {
        let runner = RunnerOrders {
            handicap: None,
            orders: Table::new(),
            matched_backs: Vec::new(),
            matched_lays: Vec::new(),
        };
        proof {
            assert(runner@ =~= no_orders());
        }
        runner
    }

    /// Puts an order under its identifier.
    pub fn update_order(&mut self, order: UnmatchedOrder)
        ensures
            final(self)@ == (RunnerState {
                orders: old(self)@.orders.insert(order.id@, order),
                ..old(self)@
            }),
    {
        let id = order.id.clone();
        self.orders.insert(id, order);
    }

    /// Puts a copy of every order under its identifier.
    pub fn update_orders(&mut self, orders: &Vec<UnmatchedOrder>)
        ensures
            final(self)@ == (RunnerState {
                orders: with_orders(old(self)@.orders, orders@),
                ..old(self)@
            }),
    {
        let ghost before = self@;
        proof {
            assert(orders@.take(0) =~= Seq::empty());
        }
        let mut i: usize = 0;
        while i < orders.len()
            invariant
                i <= orders@.len(),
                self@ == (RunnerState {
                    orders: with_orders(before.orders, orders@.take(i as int)),
                    ..before
                }),
            decreases orders@.len() - i,
        {
            proof {
                let done = orders@.take(i + 1);
                assert(done.drop_last() =~= orders@.take(i as int));
                assert(done.last() == orders@[i as int]);
            }
            self.update_order(orders[i].clone());
            i = i + 1;
        }
        proof {
            assert(orders@.take(i as int) =~= orders@);
        }
    }

    /// Forgets the orders and takes copies of the given ones.
    pub fn apply_full_image(&mut self, orders: &Vec<UnmatchedOrder>)
        ensures
            final(self)@ == (RunnerState {
                orders: with_orders(Map::empty(), orders@),
                ..old(self)@
            }),
    {
        self.orders = Table::new();
        self.update_orders(orders);
    }

    /// Takes a change in.
    pub fn apply(&mut self, change: &OrderRunnerChange)
        ensures
            final(self)@ == runner_after(old(self)@, *change),
    {
        self.handicap = change.handicap;
        if change.full_image {
            match &change.unmatched_orders {
                Some(orders) => {
                    self.apply_full_image(orders);
                },
                None => {
                    self.orders = Table::new();
                },
            }
        } else {
            if let Some(orders) = &change.unmatched_orders {
                self.update_orders(orders);
            }
        }
        if let Some(matched) = &change.matched_backs {
            self.matched_backs = copied_rows(matched);
        }
        if let Some(matched) = &change.matched_lays {
            self.matched_lays = copied_rows(matched);
        }
        proof {
            assert(self@ =~= runner_after(old(self)@, *change));
        }
    }
}

impl OrderCache {
    /// A market without runners.
    pub fn new(market_id: String) -> (cache: Self)
        ensures
            cache@ == no_runners(market_id@),
    {
        let cache = OrderCache { market_id, timestamp: 0, runners: HashMap::new() };
        proof {
            assert(cache@ =~= no_runners(market_id@));
        }
        cache
    }

    /// The orders on a runner.
    pub fn get_runner(&self, id: u64) -> (runner: Option<&RunnerOrders>)
        ensures
            match runner {
                Some(runner) => self@.runners.contains_key(id) && runner@ == self@.runners[id],
                None => !self@.runners.contains_key(id),
            },
    {
        self.runners.get(&id)
    }

    /// Takes a change of one runner in. A runner that was not known starts without orders.
    pub fn apply_runner(&mut self, change: &OrderRunnerChange)
        ensures
            final(self)@ == (CacheState {
                runners: old(self)@.runners.insert(
                    change.id,
                    runner_after(runner_of(old(self)@.runners, change.id), *change),
                ),
                ..old(self)@
            }),
    {
        let id = change.id;
        let mut runner = match self.runners.remove(&id) {
            Some(runner) => runner,
            None => RunnerOrders::new(),
        };
        proof {
            assert(runner@ == runner_of(old(self)@.runners, id));
        }
        runner.apply(change);
        self.runners.insert(id, runner);
        proof {
            assert(self@.runners =~= old(self)@.runners.insert(id, runner@));
        }
    }

    /// Takes a change that came at `pt` in.
    pub fn apply(&mut self, change: &OrderChange, pt: i64)
        ensures
            final(self)@ == cache_after(old(self)@, *change, pt),
    {
        self.timestamp = pt;
        if change.full_image {
            self.runners = HashMap::new();
        }
        let ghost before = self@;
        proof {
            assert(change.full_image ==> before.runners =~= Map::empty());
        }
        if let Some(changes) = &change.order_runner_change {
            let mut i: usize = 0;
            proof {
                assert(changes@.take(0) =~= Seq::empty());
            }
            while i < changes.len()
                invariant
                    i <= changes@.len(),
                    self@ == (CacheState {
                        runners: runners_after(before.runners, changes@.take(i as int)),
                        ..before
                    }),
                decreases changes@.len() - i,
            {
                proof {
                    let done = changes@.take(i + 1);
                    assert(done.drop_last() =~= changes@.take(i as int));
                    assert(done.last() == changes@[i as int]);
                }
                self.apply_runner(&changes[i]);
                i = i + 1;
            }
            proof {
                assert(changes@.take(i as int) =~= changes@);
            }
        }
        proof {
            assert(self@ =~= cache_after(old(self)@, *change, pt));
        }
    }
}

} // verus!
