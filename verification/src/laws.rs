//! What holds across operations: subscriptions, messages, orders and sessions.

use crate::api_client::{addressed, login_status, login_token, login_verdict, RestClient};
use crate::connection_state::{ConnectionState, ConnectionStatus};
use crate::dto::rpc::InteractiveLoginResponse;
use crate::dto::streaming::{OrderChange, OrderFilter, OrderRunnerChange, UnmatchedOrder};
use crate::error::ClientError;
use crate::order_cache::{
    cache_after, cache_of, caches_after, no_orders, no_runners, rows, runner_after, runner_of,
    runners_after, with_orders, CacheState, OrderCache, RunnerOrders, RunnerState,
};
use crate::orderbook::{books_of, market_books_of, BookState, Orderbook};
use crate::request_laws::{law_decimal_reads_back, law_quotes_enclose, number_read};
use crate::stream_task::{after_event, Action, StreamAction, StreamEvent, StreamTask, TaskState};
use crate::streaming_client::{
    batch_message, consistent, filter_message, fresh_state, json_or_empty, market_message,
    message_id, order_filter_json, order_message, resubscription_texts, started, subscribed,
    subscribed_all, subscribed_to_orders, unsubscribed, with_books, with_token, StreamState,
    StreamingClient, NO_CONNECTION_PAUSE_MILLIS,
};
use crate::table::Table;
use crate::text::{digits, quoted, quoted_list, texts, trimmed, trimmed_at};
use crate::transport::{rpc_header_pairs, RpcCall};
use crate::unified_client::BetfairClient;
use rust_decimal::Decimal;
use std::time::Instant;
use vstd::prelude::*;

verus! {

// ---------------------------------------------------------------------------------------------
// Subscriptions
// ---------------------------------------------------------------------------------------------

/// The order of the subscribed markets names each of them once: this holds of a client that has
/// done nothing, and subscribing to a market, forgetting one and subscribing to orders keep it.
pub proof fn law_subscriptions_consistent(
    state: StreamState,
    market_id: Seq<char>,
    levels: usize,
    filter: Option<OrderFilter>,
)
    requires
        consistent(state),
    ensures
        consistent(fresh_state(state.api_key, state.session_token)),
        consistent(subscribed(state, market_id, levels)),
        consistent(unsubscribed(state, market_id)),
        consistent(subscribed_to_orders(state, filter)),
{
    let fresh = fresh_state(state.api_key, state.session_token);
    assert(fresh.market_order.to_set() =~= fresh.subscribed_markets.dom());
    lemma_subscribed_consistent(state, market_id, levels);
    lemma_unsubscribed_consistent(state, market_id);
}

proof fn lemma_in_order(state: StreamState, market_id: Seq<char>)
    requires
        consistent(state),
    ensures
        state.market_order.contains(market_id) <==> state.subscribed_markets.contains_key(
            market_id,
        ),
{
    assert(state.market_order.to_set().contains(market_id)
        == state.subscribed_markets.dom().contains(market_id));
}

proof fn lemma_subscribed_consistent(state: StreamState, market_id: Seq<char>, levels: usize)
    requires
        consistent(state),
    ensures
        consistent(subscribed(state, market_id, levels)),
{
    let after = subscribed(state, market_id, levels);
    lemma_in_order(state, market_id);
    assert forall|id: Seq<char>| #[trigger]
        after.market_order.to_set().contains(id) == after.subscribed_markets.dom().contains(id) by {
        lemma_in_order(state, id);
        if !state.subscribed_markets.contains_key(market_id) {
            if state.market_order.contains(id) {
                let i = state.market_order.index_of(id);
                assert(after.market_order[i] == id);
            }
            assert(after.market_order.last() == market_id);
            if after.market_order.contains(id) {
                let i = after.market_order.index_of(id);
                assert(after.market_order[i] == id);
                if i < state.market_order.len() {
                    assert(state.market_order[i] == id);
                }
            }
        }
    }
    assert(after.market_order.to_set() =~= after.subscribed_markets.dom());
}

proof fn lemma_unsubscribed_consistent(state: StreamState, market_id: Seq<char>)
    requires
        consistent(state),
    ensures
        consistent(unsubscribed(state, market_id)),
        !unsubscribed(state, market_id).market_order.contains(market_id),
{
    let after = unsubscribed(state, market_id);
    let order = state.market_order;
    lemma_in_order(state, market_id);
    order.index_of_first_ensures(market_id);
    if order.contains(market_id) {
        let k = order.index_of_first(market_id)->0;
        assert(after.market_order == order.remove(k));
        assert forall|id: Seq<char>| #[trigger]
            after.market_order.to_set().contains(id) == after.subscribed_markets.dom().contains(
                id,
            ) by {
            lemma_in_order(state, id);
            if after.market_order.contains(id) {
                let i = after.market_order.index_of(id);
                assert(after.market_order[i] == id);
                let j = if i < k {
                    i
                } else {
                    i + 1
                };
                assert(order[j] == id);
            }
            if id != market_id && order.contains(id) {
                let j = order.index_of(id);
                assert(order[j] == id);
                let i = if j < k {
                    j
                } else {
                    j - 1
                };
                assert(after.market_order[i] == id);
            }
        }
        assert(after.market_order.to_set() =~= after.subscribed_markets.dom());
        assert(after.market_order.no_duplicates());
        lemma_in_order(after, market_id);
    } else {
        assert(after.market_order == order);
        assert(after.subscribed_markets =~= state.subscribed_markets);
    }
}

/// What a batch subscription leaves behind: each of its markets with the given levels and without
/// prices, every other market as it was, and nothing else touched.
pub proof fn law_batch_subscription(
    state: StreamState,
    market_ids: Seq<Seq<char>>,
    levels: usize,
)
    requires
        consistent(state),
    ensures
        consistent(subscribed_all(state, market_ids, levels)),
        forall|id: Seq<char>| #[trigger]
            subscribed_all(state, market_ids, levels).subscribed_markets.contains_key(id)
                <==> market_ids.contains(id) || state.subscribed_markets.contains_key(id),
        forall|id: Seq<char>|
            market_ids.contains(id) ==> #[trigger] subscribed_all(
                state,
                market_ids,
                levels,
            ).subscribed_markets[id] == levels,
        forall|id: Seq<char>|
            !market_ids.contains(id) && state.subscribed_markets.contains_key(id)
                ==> #[trigger] subscribed_all(state, market_ids, levels).subscribed_markets[id]
                == state.subscribed_markets[id],
        subscribed_all(state, market_ids, levels).orderbooks == state.orderbooks.remove_keys(
            market_ids.to_set(),
        ),
        subscribed_all(state, market_ids, levels).last_update_times
            == state.last_update_times.remove_keys(market_ids.to_set()),
        subscribed_all(state, market_ids, levels) == (StreamState {
            subscribed_markets: subscribed_all(state, market_ids, levels).subscribed_markets,
            market_order: subscribed_all(state, market_ids, levels).market_order,
            orderbooks: subscribed_all(state, market_ids, levels).orderbooks,
            last_update_times: subscribed_all(state, market_ids, levels).last_update_times,
            ..state
        }),
    decreases market_ids.len(),
{
    let after = subscribed_all(state, market_ids, levels);
    if market_ids.len() == 0 {
        assert(after.orderbooks =~= state.orderbooks.remove_keys(market_ids.to_set()));
        assert(after.last_update_times =~= state.last_update_times.remove_keys(
            market_ids.to_set(),
        ));
    } else {
        let front = market_ids.drop_last();
        let last = market_ids.last();
        law_batch_subscription(state, front, levels);
        lemma_subscribed_consistent(subscribed_all(state, front, levels), last, levels);
        assert forall|id: Seq<char>| #[trigger]
            market_ids.contains(id) == (front.contains(id) || id == last) by {
            if front.contains(id) {
                let i = front.index_of(id);
                assert(market_ids[i] == id);
            }
            if market_ids.contains(id) {
                let i = market_ids.index_of(id);
                assert(market_ids[i] == id);
                if i < front.len() {
                    assert(front[i] == id);
                }
            }
            assert(market_ids[market_ids.len() - 1] == last);
        }
        assert forall|id: Seq<char>| #[trigger]
            market_ids.to_set().contains(id) == (front.to_set().contains(id) || id == last) by {
            assert(market_ids.contains(id) == (front.contains(id) || id == last));
        }
        assert(after.orderbooks =~= state.orderbooks.remove_keys(market_ids.to_set()));
        assert(after.last_update_times =~= state.last_update_times.remove_keys(
            market_ids.to_set(),
        ));
    }
}

/// A batch of one market leaves the same state as a subscription to that market.
pub proof fn law_batch_of_one(state: StreamState, market_id: Seq<char>, levels: usize)
    ensures
        subscribed_all(state, seq![market_id], levels) == subscribed(state, market_id, levels),
{
    assert(seq![market_id].drop_last() =~= Seq::empty());
    reveal_with_fuel(subscribed_all, 2);
}

/// Subscribing twice to a market leaves what the second subscription alone would have left.
pub proof fn law_resubscribing_replaces(
    state: StreamState,
    market_id: Seq<char>,
    first_levels: usize,
    second_levels: usize,
)
    ensures
        subscribed(subscribed(state, market_id, first_levels), market_id, second_levels)
            == subscribed(state, market_id, second_levels),
{
    let twice = subscribed(subscribed(state, market_id, first_levels), market_id, second_levels);
    let once = subscribed(state, market_id, second_levels);
    assert(twice.subscribed_markets =~= once.subscribed_markets);
    assert(twice.orderbooks =~= once.orderbooks);
    assert(twice.last_update_times =~= once.last_update_times);
}

/// A market that is forgotten leaves no trace: no subscription, no prices and no time.
pub proof fn law_unsubscribed_is_gone(state: StreamState, market_id: Seq<char>)
    requires
        consistent(state),
    ensures
        !unsubscribed(state, market_id).subscribed_markets.contains_key(market_id),
        !unsubscribed(state, market_id).market_order.contains(market_id),
        !unsubscribed(state, market_id).orderbooks.contains_key(market_id),
        !unsubscribed(state, market_id).last_update_times.contains_key(market_id),
{
    lemma_unsubscribed_consistent(state, market_id);
}

/// Forgetting a market undoes a subscription to it: where it was not subscribed to before, what
/// is left is the state before without the prices of that market.
pub proof fn law_unsubscribe_undoes(state: StreamState, market_id: Seq<char>, levels: usize)
    requires
        consistent(state),
        !state.subscribed_markets.contains_key(market_id),
    ensures
        unsubscribed(subscribed(state, market_id, levels), market_id) == (StreamState {
            orderbooks: state.orderbooks.remove(market_id),
            last_update_times: state.last_update_times.remove(market_id),
            ..state
        }),
{
    let there = subscribed(state, market_id, levels);
    let back = unsubscribed(there, market_id);
    lemma_in_order(state, market_id);
    let order = there.market_order;
    assert(order[state.market_order.len() as int] == market_id);
    assert(order.contains(market_id));
    order.index_of_first_ensures(market_id);
    let k = order.index_of_first(market_id)->0;
    if k < state.market_order.len() {
        assert(state.market_order[k] == market_id);
        assert(state.market_order.contains(market_id));
    }
    assert(back.market_order =~= state.market_order);
    assert(back.subscribed_markets =~= state.subscribed_markets);
    assert(back.orderbooks =~= state.orderbooks.remove(market_id));
    assert(back.last_update_times =~= state.last_update_times.remove(market_id));
}

/// After a reconnection, everything that is subscribed to is asked for again: one message names
/// each subscribed market once and no other, where there is one, and one message asks for the
/// orders, where they are subscribed to.
pub proof fn law_resubscription_is_complete(
    state: StreamState,
    now_millis: u128,
    filter_json: Option<String>,
)
    requires
        consistent(state),
    ensures
        ({
            let messages = resubscription_texts(state, now_millis, filter_json);
            let has_markets = exists|id: Seq<char>| #[trigger]
                state.subscribed_markets.contains_key(id);
            &&& messages.len() == (if has_markets {
                1nat
            } else {
                0nat
            }) + (if state.subscribed_to_orders {
                1nat
            } else {
                0nat
            })
            &&& has_markets ==> exists|order: Seq<Seq<char>>, levels: usize|
                order.no_duplicates() && order.to_set() == state.subscribed_markets.dom()
                    && state.subscribed_markets.contains_value(levels) && messages[0]
                    == #[trigger] batch_message(now_millis, order, levels)
            &&& state.subscribed_to_orders ==> messages.last() == order_message(
                order_filter_json(state.order_filter, filter_json),
            )
        }),
{
    let messages = resubscription_texts(state, now_millis, filter_json);
    let order = state.market_order;
    if order.len() > 0 {
        assert(order.contains(order[0]));
        lemma_in_order(state, order[0]);
        let levels = state.subscribed_markets[order[0]];
        assert(state.subscribed_markets.contains_value(levels));
        assert(messages[0] == batch_message(now_millis, order, levels));
    } else {
        assert forall|id: Seq<char>| !#[trigger] state.subscribed_markets.contains_key(id) by {
            lemma_in_order(state, id);
        }
    }
}

/// The books that came in for a market are its books, with the time at which they came, until the
/// next ones come; books and times of other markets stay, and so does everything else.
pub proof fn law_books_are_read_back(
    state: StreamState,
    market_id: Seq<char>,
    books: Map<Seq<char>, BookState>,
    now: Instant,
    later_books: Map<Seq<char>, BookState>,
    later: Instant,
    other: Seq<char>,
)
    requires
        other != market_id,
    ensures
        with_books(state, market_id, books, now).orderbooks.contains_key(market_id),
        with_books(state, market_id, books, now).orderbooks[market_id] == books,
        with_books(state, market_id, books, now).last_update_times.contains_key(market_id),
        with_books(state, market_id, books, now).last_update_times[market_id] == now,
        with_books(state, market_id, books, now).orderbooks.contains_key(other)
            <==> state.orderbooks.contains_key(other),
        state.orderbooks.contains_key(other) ==> with_books(
            state,
            market_id,
            books,
            now,
        ).orderbooks[other] == state.orderbooks[other],
        with_books(state, market_id, books, now).last_update_times.contains_key(other)
            <==> state.last_update_times.contains_key(other),
        state.last_update_times.contains_key(other) ==> with_books(
            state,
            market_id,
            books,
            now,
        ).last_update_times[other] == state.last_update_times[other],
        with_books(with_books(state, market_id, books, now), market_id, later_books, later)
            == with_books(state, market_id, later_books, later),
        with_books(state, market_id, books, now) == (StreamState {
            orderbooks: with_books(state, market_id, books, now).orderbooks,
            last_update_times: with_books(state, market_id, books, now).last_update_times,
            ..state
        }),
{
    let twice = with_books(
        with_books(state, market_id, books, now),
        market_id,
        later_books,
        later,
    );
    let once = with_books(state, market_id, later_books, later);
    assert(twice.orderbooks =~= once.orderbooks);
    assert(twice.last_update_times =~= once.last_update_times);
}

/// Prices and their times go together: a market has books if and only if it has a time. This holds
/// of a client that has done nothing, and books that come in, subscriptions, alone or in a batch,
/// and markets that are forgotten keep it.
pub proof fn law_books_and_times_go_together(
    state: StreamState,
    market_id: Seq<char>,
    market_ids: Seq<Seq<char>>,
    books: Map<Seq<char>, BookState>,
    now: Instant,
    levels: usize,
)
    requires
        state.orderbooks.dom() == state.last_update_times.dom(),
    ensures
        ({
            let fresh = fresh_state(state.api_key, state.session_token);
            fresh.orderbooks.dom() == fresh.last_update_times.dom()
        }),
        with_books(state, market_id, books, now).orderbooks.dom() == with_books(
            state,
            market_id,
            books,
            now,
        ).last_update_times.dom(),
        subscribed(state, market_id, levels).orderbooks.dom() == subscribed(
            state,
            market_id,
            levels,
        ).last_update_times.dom(),
        subscribed_all(state, market_ids, levels).orderbooks.dom() == subscribed_all(
            state,
            market_ids,
            levels,
        ).last_update_times.dom(),
        unsubscribed(state, market_id).orderbooks.dom() == unsubscribed(
            state,
            market_id,
        ).last_update_times.dom(),
    decreases market_ids.len(),
{
    if market_ids.len() > 0 {
        let front = market_ids.drop_last();
        law_books_and_times_go_together(state, market_id, front, books, now, levels);
        let batch = subscribed_all(state, market_ids, levels);
        assert(batch.orderbooks.dom() =~= batch.last_update_times.dom());
    }
    let fresh = fresh_state(state.api_key, state.session_token);
    assert(fresh.orderbooks.dom() =~= fresh.last_update_times.dom());
    let came = with_books(state, market_id, books, now);
    assert(came.orderbooks.dom() =~= came.last_update_times.dom());
    let after = subscribed(state, market_id, levels);
    assert(after.orderbooks.dom() =~= after.last_update_times.dom());
    let gone = unsubscribed(state, market_id);
    assert(gone.orderbooks.dom() =~= gone.last_update_times.dom());
}

/// A client that has done nothing knows nothing, is not connected and is to reconnect.
pub proof fn law_fresh_client(api_key: Seq<char>, session_token: Option<Seq<char>>)
    ensures
        ({
            let fresh = fresh_state(api_key, session_token);
            &&& fresh.api_key == api_key
            &&& fresh.session_token == session_token
            &&& !fresh.has_command_sender
            &&& !fresh.has_streaming_task
            &&& fresh.orderbooks == Map::<Seq<char>, Map<Seq<char>, BookState>>::empty()
            &&& fresh.orders == Map::<Seq<char>, CacheState>::empty()
            &&& !fresh.is_connected
            &&& fresh.last_update_times == Map::<Seq<char>, Instant>::empty()
            &&& !fresh.has_orderbook_callback
            &&& !fresh.has_order_callback
            &&& !fresh.order_callback_in_use
            &&& fresh.connection_state == ConnectionStatus::Disconnected
            &&& fresh.reconnect_attempts == 0
            &&& fresh.subscribed_markets == Map::<Seq<char>, usize>::empty()
            &&& fresh.market_order == Seq::<Seq<char>>::empty()
            &&& !fresh.subscribed_to_orders
            &&& fresh.order_filter is None
            &&& fresh.enable_reconnection
        }),
{
}

/// Starting opens the way for commands and takes the callback for orders that is set by then. It
/// touches nothing else.
pub proof fn law_starting(state: StreamState)
    ensures
        started(state).has_command_sender,
        started(state).has_streaming_task,
        started(state).order_callback_in_use == state.has_order_callback,
        started(state) == (StreamState {
            has_command_sender: started(state).has_command_sender,
            has_streaming_task: started(state).has_streaming_task,
            order_callback_in_use: started(state).order_callback_in_use,
            ..state
        }),
{
}

/// A subscription notes its market with its levels, as the last one where it is new, and forgets
/// the prices of that market. Every other market keeps its subscription, its levels, its books and
/// its time, and nothing else is touched.
pub proof fn law_subscription_is_local(
    state: StreamState,
    market_id: Seq<char>,
    levels: usize,
    other: Seq<char>,
)
    requires
        other != market_id,
    ensures
        ({
            let after = subscribed(state, market_id, levels);
            &&& after.subscribed_markets.contains_key(market_id)
            &&& after.subscribed_markets[market_id] == levels
            &&& !after.orderbooks.contains_key(market_id)
            &&& !after.last_update_times.contains_key(market_id)
            &&& state.subscribed_markets.contains_key(market_id) ==> after.market_order
                == state.market_order
            &&& !state.subscribed_markets.contains_key(market_id) ==> after.market_order
                == state.market_order + seq![market_id]
            &&& after.subscribed_markets.contains_key(other)
                <==> state.subscribed_markets.contains_key(other)
            &&& state.subscribed_markets.contains_key(other) ==> after.subscribed_markets[other]
                == state.subscribed_markets[other]
            &&& after.orderbooks.contains_key(other) <==> state.orderbooks.contains_key(other)
            &&& state.orderbooks.contains_key(other) ==> after.orderbooks[other]
                == state.orderbooks[other]
            &&& after.last_update_times.contains_key(other)
                <==> state.last_update_times.contains_key(other)
            &&& state.last_update_times.contains_key(other) ==> after.last_update_times[other]
                == state.last_update_times[other]
            &&& after == (StreamState {
                subscribed_markets: after.subscribed_markets,
                market_order: after.market_order,
                orderbooks: after.orderbooks,
                last_update_times: after.last_update_times,
                ..state
            })
        }),
{
    assert(state.market_order.push(market_id) =~= state.market_order + seq![market_id]);
}

/// Forgetting a market takes away its subscription, its books and its time, whether or not it had
/// any. Every other market keeps its subscription, its levels, its place, its books and its time,
/// and nothing else is touched.
pub proof fn law_forgetting_is_local(state: StreamState, market_id: Seq<char>, other: Seq<char>)
    requires
        consistent(state),
        other != market_id,
    ensures
        ({
            let after = unsubscribed(state, market_id);
            &&& !after.subscribed_markets.contains_key(market_id)
            &&& !after.market_order.contains(market_id)
            &&& !after.orderbooks.contains_key(market_id)
            &&& !after.last_update_times.contains_key(market_id)
            &&& after.subscribed_markets.contains_key(other)
                <==> state.subscribed_markets.contains_key(other)
            &&& state.subscribed_markets.contains_key(other) ==> after.subscribed_markets[other]
                == state.subscribed_markets[other]
            &&& after.market_order.contains(other) <==> state.market_order.contains(other)
            &&& after.orderbooks.contains_key(other) <==> state.orderbooks.contains_key(other)
            &&& state.orderbooks.contains_key(other) ==> after.orderbooks[other]
                == state.orderbooks[other]
            &&& after.last_update_times.contains_key(other)
                <==> state.last_update_times.contains_key(other)
            &&& state.last_update_times.contains_key(other) ==> after.last_update_times[other]
                == state.last_update_times[other]
            &&& after == (StreamState {
                subscribed_markets: after.subscribed_markets,
                market_order: after.market_order,
                orderbooks: after.orderbooks,
                last_update_times: after.last_update_times,
                ..state
            })
        }),
{
    lemma_unsubscribed_consistent(state, market_id);
    lemma_in_order(state, other);
    lemma_in_order(unsubscribed(state, market_id), other);
}

/// Forgetting a market leaves the others in the order in which they stood: those before it where
/// they were, and those behind it one place further up.
pub proof fn law_forgetting_keeps_the_order(state: StreamState, i: int)
    requires
        consistent(state),
        0 <= i < state.market_order.len(),
    ensures
        unsubscribed(state, state.market_order[i]).market_order == state.market_order.take(i)
            + state.market_order.skip(i + 1),
{
    let order = state.market_order;
    order.index_of_first_ensures(order[i]);
    assert(order.contains(order[i]));
    assert(order.index_of_first(order[i]) == Some(i));
    assert(order.remove(i) =~= order.take(i) + order.skip(i + 1));
}

/// A subscription to orders keeps its filter, and touches nothing else.
pub proof fn law_order_subscription(state: StreamState, filter: Option<OrderFilter>)
    ensures
        subscribed_to_orders(state, filter).subscribed_to_orders,
        subscribed_to_orders(state, filter).order_filter == filter,
        subscribed_to_orders(state, filter) == (StreamState {
            subscribed_to_orders: subscribed_to_orders(state, filter).subscribed_to_orders,
            order_filter: subscribed_to_orders(state, filter).order_filter,
            ..state
        }),
{
}

/// A batch that comes in two parts does what it does in one, and an empty one does nothing.
pub proof fn law_batch_in_parts(
    state: StreamState,
    first: Seq<Seq<char>>,
    second: Seq<Seq<char>>,
    levels: usize,
)
    ensures
        subscribed_all(state, Seq::empty(), levels) == state,
        subscribed_all(subscribed_all(state, first, levels), second, levels) == subscribed_all(
            state,
            first + second,
            levels,
        ),
    decreases second.len(),
{
    if second.len() == 0 {
        assert(first + second =~= first);
    } else {
        law_batch_in_parts(state, first, second.drop_last(), levels);
        assert((first + second).drop_last() =~= first + second.drop_last());
        assert((first + second).last() == second.last());
    }
}

/// What a state says of a client is what the client holds, field by field.
pub proof fn law_states_show_clients(client: StreamingClient, id: Seq<char>)
    ensures
        client@.api_key == client.api_key@,
        client@.session_token is Some <==> client.session_token is Some,
        client.session_token matches Some(token) ==> client@.session_token == Some(token@),
        client@.has_command_sender == client.has_command_sender,
        client@.has_streaming_task == client.has_streaming_task,
        client@.orderbooks.contains_key(id) <==> client.orderbooks@.contains_key(id),
        client.orderbooks@.contains_key(id) ==> client@.orderbooks[id] == books_of(
            client.orderbooks@[id],
        ),
        client@.orders.contains_key(id) <==> client.orders@.contains_key(id),
        client.orders@.contains_key(id) ==> client@.orders[id] == client.orders@[id]@,
        client@.is_connected == client.is_connected,
        client@.last_update_times == client.last_update_times@,
        client@.has_orderbook_callback == client.has_orderbook_callback,
        client@.has_order_callback == client.has_order_callback,
        client@.order_callback_in_use == client.order_callback_in_use,
        client@.connection_state == client.connection_state@,
        client@.reconnect_attempts == client.reconnect_attempts,
        client@.subscribed_markets == client.subscribed_markets@,
        client@.market_order == client.subscribed_markets.keys(),
        client@.subscribed_to_orders == client.subscribed_to_orders,
        client@.order_filter == client.order_filter,
        client@.enable_reconnection == client.enable_reconnection,
{
}

/// What a state says of books is what they hold, on both sides and runner by runner.
pub proof fn law_states_show_books(
    book: Orderbook,
    books: Table<Orderbook>,
    markets: Table<Table<Orderbook>>,
    id: Seq<char>,
)
    ensures
        book@.bids == book.bids@,
        book@.asks == book.asks@,
        books_of(books).contains_key(id) <==> books@.contains_key(id),
        books@.contains_key(id) ==> books_of(books)[id].bids == books@[id].bids@
            && books_of(books)[id].asks == books@[id].asks@,
        market_books_of(markets).contains_key(id) <==> markets@.contains_key(id),
        markets@.contains_key(id) ==> market_books_of(markets)[id] == books_of(markets@[id]),
{
}

/// What a state says of a task, an action or a connection is what it holds, field by field.
pub proof fn law_states_show_tasks(
    task: StreamTask,
    action: StreamAction,
    connection: ConnectionState,
)
    ensures
        task@.api_key == task.api_key@,
        task@.session_token == task.session_token@,
        task@.first_start == task.first_start,
        task@.attempt == task.reconnect_attempt,
        task@.reconnects == task.enable_reconnection,
        action is Connect <==> action@ is Connect,
        action is FindSender <==> action@ is FindSender,
        action is Exit <==> action@ is Exit,
        action is Wait <==> action@ is Wait,
        action matches StreamAction::Wait(seconds) ==> action@ == Action::Wait(seconds as nat),
        action is Listen <==> action@ is Listen,
        action matches StreamAction::Listen(messages, ready) ==> action@ == Action::Listen(
            texts(messages@),
            ready,
        ),
        action is Abort <==> action@ is Abort,
        action matches StreamAction::Abort(error) ==> action@ == Action::Abort(error.wording()),
        connection is Disconnected <==> connection@ is Disconnected,
        connection is Connecting <==> connection@ is Connecting,
        connection is Connected <==> connection@ is Connected,
        connection is Reconnecting <==> connection@ is Reconnecting,
        connection is Failed <==> connection@ is Failed,
        connection matches ConnectionState::Failed(reason) ==> connection@
            == ConnectionStatus::Failed(reason@),
{
}

/// What a state says of orders is what is held of them, field by field.
pub proof fn law_states_show_orders(
    runner: RunnerOrders,
    cache: OrderCache,
    lists: Seq<Vec<Decimal>>,
    id: u64,
)
    ensures
        runner@.handicap == runner.handicap,
        runner@.orders == runner.orders@,
        runner@.matched_backs == rows(runner.matched_backs@),
        runner@.matched_lays == rows(runner.matched_lays@),
        cache@.market_id == cache.market_id@,
        cache@.timestamp == cache.timestamp,
        cache@.runners.contains_key(id) <==> cache.runners@.contains_key(id),
        cache.runners@.contains_key(id) ==> cache@.runners[id] == cache.runners@[id]@,
        rows(lists).len() == lists.len(),
        forall|i: int| 0 <= i < lists.len() ==> #[trigger] rows(lists)[i] == lists[i]@,
{
}

/// The order of the subscribed markets is consistent if it names every one of them, once, and no
/// other, and only then.
pub proof fn law_consistent_order(state: StreamState)
    ensures
        consistent(state) <==> {
            &&& forall|i: int, j: int|
                0 <= i < j < state.market_order.len() ==> #[trigger] state.market_order[i]
                    != #[trigger] state.market_order[j]
            &&& forall|id: Seq<char>| #[trigger]
                state.subscribed_markets.contains_key(id) <==> state.market_order.contains(id)
        },
{
    if consistent(state) {
        assert forall|id: Seq<char>| #[trigger]
            state.subscribed_markets.contains_key(id) <==> state.market_order.contains(id) by {
            lemma_in_order(state, id);
        }
    }
    if (forall|i: int, j: int|
        0 <= i < j < state.market_order.len() ==> #[trigger] state.market_order[i]
            != #[trigger] state.market_order[j]) && (forall|id: Seq<char>| #[trigger]
        state.subscribed_markets.contains_key(id) <==> state.market_order.contains(id)) {
        assert forall|id: Seq<char>| #[trigger]
            state.market_order.to_set().contains(id) == state.subscribed_markets.dom().contains(
                id,
            ) by {
            assert(state.subscribed_markets.contains_key(id) <==> state.market_order.contains(id));
        }
        assert(state.market_order.to_set() =~= state.subscribed_markets.dom());
    }
}

// ---------------------------------------------------------------------------------------------
// Orders
// ---------------------------------------------------------------------------------------------

/// Of orders with one identifier, the last one stays; an order that is not named stays as it was.
pub proof fn law_last_order_stays(
    orders: Map<Seq<char>, UnmatchedOrder>,
    news: Seq<UnmatchedOrder>,
    id: Seq<char>,
)
    ensures
        (exists|i: int| 0 <= i < news.len() && (#[trigger] news[i]).id@ == id) ==> with_orders(
            orders,
            news,
        ).contains_key(id) && exists|i: int|
            0 <= i < news.len() && (#[trigger] news[i]).id@ == id && with_orders(orders, news)[id]
                == news[i] && forall|j: int|
                i < j < news.len() ==> (#[trigger] news[j]).id@ != id,
        (forall|i: int| 0 <= i < news.len() ==> (#[trigger] news[i]).id@ != id) ==> (with_orders(
            orders,
            news,
        ).contains_key(id) <==> orders.contains_key(id)) && (orders.contains_key(id)
            ==> with_orders(orders, news)[id] == orders[id]),
    decreases news.len(),
{
    if news.len() > 0 {
        let front = news.drop_last();
        let last = news.len() - 1;
        law_last_order_stays(orders, front, id);
        assert(forall|i: int| 0 <= i < front.len() ==> front[i] == news[i]);
        if news[last].id@ != id {
            if exists|i: int| 0 <= i < news.len() && (#[trigger] news[i]).id@ == id {
                let i = choose|i: int| 0 <= i < news.len() && (#[trigger] news[i]).id@ == id;
                assert(front[i].id@ == id);
                let k = choose|k: int|
                    0 <= k < front.len() && (#[trigger] front[k]).id@ == id && with_orders(
                        orders,
                        front,
                    )[id] == front[k] && forall|j: int|
                        k < j < front.len() ==> (#[trigger] front[j]).id@ != id;
                assert(news[k].id@ == id);
                assert forall|j: int| k < j < news.len() implies (#[trigger] news[j]).id@ != id by {
                    if j < front.len() {
                        assert(front[j].id@ != id);
                    }
                }
            } else {
                assert forall|i: int| 0 <= i < front.len() implies (#[trigger] front[i]).id@
                    != id by {
                    assert(news[i].id@ != id);
                }
            }
        }
    }
}

/// A full image of a runner does not depend on the orders that were known of it.
pub proof fn law_runner_image_replaces(
    one: RunnerState,
    other: RunnerState,
    change: OrderRunnerChange,
)
    requires
        change.full_image,
    ensures
        runner_after(one, change).orders == runner_after(other, change).orders,
        change.unmatched_orders is None ==> runner_after(one, change).orders == Map::<
            Seq<char>,
            UnmatchedOrder,
        >::empty(),
{
}

/// A full image of a market does not depend on the runners that were known of it.
pub proof fn law_market_image_replaces(
    one: CacheState,
    other: CacheState,
    change: OrderChange,
    pt: i64,
)
    requires
        change.full_image,
    ensures
        cache_after(one, change, pt).runners == cache_after(other, change, pt).runners,
{
}

/// A runner that no change names stays as it was.
pub proof fn law_other_runners_stay(
    runners: Map<u64, RunnerState>,
    changes: Seq<OrderRunnerChange>,
    id: u64,
)
    requires
        forall|i: int| 0 <= i < changes.len() ==> (#[trigger] changes[i]).id != id,
    ensures
        runners_after(runners, changes).contains_key(id) <==> runners.contains_key(id),
        runners.contains_key(id) ==> runners_after(runners, changes)[id] == runners[id],
    decreases changes.len(),
{
    if changes.len() > 0 {
        let front = changes.drop_last();
        assert forall|i: int| 0 <= i < front.len() implies (#[trigger] front[i]).id != id by {
            assert(changes[i].id != id);
        }
        law_other_runners_stay(runners, front, id);
        assert(changes[changes.len() - 1].id != id);
    }
}

/// A market that no change names stays as it was.
pub proof fn law_other_markets_stay(
    caches: Map<Seq<char>, CacheState>,
    changes: Seq<OrderChange>,
    pt: i64,
    id: Seq<char>,
)
    requires
        forall|i: int| 0 <= i < changes.len() ==> (#[trigger] changes[i]).id@ != id,
    ensures
        caches_after(caches, changes, pt).contains_key(id) <==> caches.contains_key(id),
        caches.contains_key(id) ==> caches_after(caches, changes, pt)[id] == caches[id],
    decreases changes.len(),
{
    if changes.len() > 0 {
        let front = changes.drop_last();
        assert forall|i: int| 0 <= i < front.len() implies (#[trigger] front[i]).id@ != id by {
            assert(changes[i].id@ != id);
        }
        law_other_markets_stay(caches, front, pt, id);
        assert(changes[changes.len() - 1].id@ != id);
    }
}

/// A market that a change names is known afterwards, with the time of the change.
pub proof fn law_changed_market_is_dated(
    caches: Map<Seq<char>, CacheState>,
    changes: Seq<OrderChange>,
    pt: i64,
    i: int,
)
    requires
        0 <= i < changes.len(),
    ensures
        caches_after(caches, changes, pt).contains_key(changes[i].id@),
        caches_after(caches, changes, pt)[changes[i].id@].timestamp == pt,
    decreases changes.len(),
{
    let front = changes.drop_last();
    if i < front.len() {
        law_changed_market_is_dated(caches, front, pt, i);
        assert(front[i] == changes[i]);
    }
}

/// After changes, the markets that are known are those that were known before and those that a
/// change names. None is forgotten, not even one that is closed.
pub proof fn law_known_markets(
    caches: Map<Seq<char>, CacheState>,
    changes: Seq<OrderChange>,
    pt: i64,
)
    ensures
        caches_after(caches, changes, pt).dom() == caches.dom() + changes.map_values(
            |change: OrderChange| change.id@,
        ).to_set(),
{
    let named = changes.map_values(|change: OrderChange| change.id@);
    let after = caches_after(caches, changes, pt);
    assert forall|id: Seq<char>| #[trigger]
        after.dom().contains(id) == (caches.dom() + named.to_set()).contains(id) by {
        if named.contains(id) {
            let i = named.index_of(id);
            assert(named[i] == id);
            law_changed_market_is_dated(caches, changes, pt, i);
        } else {
            assert forall|i: int| 0 <= i < changes.len() implies (#[trigger] changes[i]).id@
                != id by {
                assert(named[i] == changes[i].id@);
            }
            law_other_markets_stay(caches, changes, pt, id);
        }
    }
    assert(after.dom() =~= caches.dom() + named.to_set());
}

/// Every market is kept under its own identifier: this holds of no markets, and changes keep it.
pub proof fn law_markets_keep_their_names(
    caches: Map<Seq<char>, CacheState>,
    changes: Seq<OrderChange>,
    pt: i64,
)
    requires
        forall|id: Seq<char>| #[trigger]
            caches.contains_key(id) ==> caches[id].market_id == id,
    ensures
        forall|id: Seq<char>| #[trigger]
            caches_after(caches, changes, pt).contains_key(id) ==> caches_after(
                caches,
                changes,
                pt,
            )[id].market_id == id,
    decreases changes.len(),
{
    if changes.len() > 0 {
        law_markets_keep_their_names(caches, changes.drop_last(), pt);
        let before = caches_after(caches, changes.drop_last(), pt);
        let after = caches_after(caches, changes, pt);
        assert forall|id: Seq<char>| #[trigger] after.contains_key(id) implies after[id].market_id
            == id by {
            assert(before.contains_key(id) ==> before[id].market_id == id);
            assert(cache_of(before, id).market_id == id);
        }
    }
}

/// Changes that come in two parts at one time do what they do in one.
pub proof fn law_changes_in_parts(
    caches: Map<Seq<char>, CacheState>,
    first: Seq<OrderChange>,
    second: Seq<OrderChange>,
    pt: i64,
)
    ensures
        caches_after(caches_after(caches, first, pt), second, pt) == caches_after(
            caches,
            first + second,
            pt,
        ),
    decreases second.len(),
{
    if second.len() == 0 {
        assert(first + second =~= first);
    } else {
        law_changes_in_parts(caches, first, second.drop_last(), pt);
        assert((first + second).drop_last() =~= first + second.drop_last());
        assert((first + second).last() == second.last());
    }
}

/// A runner and a market that nothing is known of hold nothing.
pub proof fn law_nothing_known(market_id: Seq<char>)
    ensures
        no_orders().handicap is None,
        no_orders().orders == Map::<Seq<char>, UnmatchedOrder>::empty(),
        no_orders().matched_backs.len() == 0,
        no_orders().matched_lays.len() == 0,
        no_runners(market_id).market_id == market_id,
        no_runners(market_id).timestamp == 0,
        no_runners(market_id).runners == Map::<u64, RunnerState>::empty(),
{
}

/// A runner or a market that is known is itself, and one that is not holds nothing.
pub proof fn law_known_or_empty(
    runners: Map<u64, RunnerState>,
    id: u64,
    caches: Map<Seq<char>, CacheState>,
    market_id: Seq<char>,
)
    ensures
        runners.contains_key(id) ==> runner_of(runners, id) == runners[id],
        !runners.contains_key(id) ==> runner_of(runners, id).handicap is None && runner_of(
            runners,
            id,
        ).orders == Map::<Seq<char>, UnmatchedOrder>::empty() && runner_of(
            runners,
            id,
        ).matched_backs.len() == 0 && runner_of(runners, id).matched_lays.len() == 0,
        caches.contains_key(market_id) ==> cache_of(caches, market_id) == caches[market_id],
        !caches.contains_key(market_id) ==> cache_of(caches, market_id).market_id == market_id
            && cache_of(caches, market_id).runners == Map::<u64, RunnerState>::empty(),
{
}

/// A change of a runner brings its handicap. What it says was matched, on either side, is what the
/// runner has matched afterwards, row by row; a side of which it says nothing stays as it was.
pub proof fn law_matched_is_taken_in(runner: RunnerState, change: OrderRunnerChange)
    ensures
        runner_after(runner, change).handicap == change.handicap,
        change.matched_backs matches Some(matched) ==> {
            &&& runner_after(runner, change).matched_backs.len() == matched@.len()
            &&& forall|i: int|
                0 <= i < matched@.len() ==> #[trigger] runner_after(runner, change).matched_backs[i]
                    == matched@[i]@
        },
        change.matched_backs is None ==> runner_after(runner, change).matched_backs
            == runner.matched_backs,
        change.matched_lays matches Some(matched) ==> {
            &&& runner_after(runner, change).matched_lays.len() == matched@.len()
            &&& forall|i: int|
                0 <= i < matched@.len() ==> #[trigger] runner_after(runner, change).matched_lays[i]
                    == matched@[i]@
        },
        change.matched_lays is None ==> runner_after(runner, change).matched_lays
            == runner.matched_lays,
{
}

/// After a change of a runner, an order that the change names is the last one that it names so. An
/// order that it does not name is gone after a full image, and otherwise as it was.
pub proof fn law_orders_are_taken_in(
    runner: RunnerState,
    change: OrderRunnerChange,
    news: Vec<UnmatchedOrder>,
    id: Seq<char>,
)
    ensures
        ({
            let after = runner_after(runner, change).orders;
            &&& change.unmatched_orders is None && !change.full_image ==> after == runner.orders
            &&& change.unmatched_orders is None && change.full_image ==> !after.contains_key(id)
            &&& change.unmatched_orders == Some(news) && (exists|i: int|
                0 <= i < news@.len() && (#[trigger] news@[i]).id@ == id) ==> after.contains_key(id)
                && exists|i: int|
                0 <= i < news@.len() && (#[trigger] news@[i]).id@ == id && after[id] == news@[i]
                    && forall|j: int| i < j < news@.len() ==> (#[trigger] news@[j]).id@ != id
            &&& change.unmatched_orders == Some(news) && (forall|i: int|
                0 <= i < news@.len() ==> (#[trigger] news@[i]).id@ != id) && change.full_image
                ==> !after.contains_key(id)
            &&& change.unmatched_orders == Some(news) && (forall|i: int|
                0 <= i < news@.len() ==> (#[trigger] news@[i]).id@ != id) && !change.full_image
                ==> (after.contains_key(id) <==> runner.orders.contains_key(id)) && (
            runner.orders.contains_key(id) ==> after[id] == runner.orders[id])
        }),
{
    if change.unmatched_orders == Some(news) {
        if change.full_image {
            law_last_order_stays(Map::empty(), news@, id);
        } else {
            law_last_order_stays(runner.orders, news@, id);
        }
    }
}

/// One change of a runner makes it known and changes it from what it was, or from nothing; every
/// other runner stays. No change changes nothing, and changes in two parts do what they do in one.
pub proof fn law_runner_changes_one_by_one(
    runners: Map<u64, RunnerState>,
    change: OrderRunnerChange,
    other: u64,
    first: Seq<OrderRunnerChange>,
    second: Seq<OrderRunnerChange>,
)
    requires
        other != change.id,
    ensures
        runners_after(runners, Seq::empty()) == runners,
        ({
            let after = runners_after(runners, seq![change]);
            &&& after.contains_key(change.id)
            &&& runners.contains_key(change.id) ==> after[change.id] == runner_after(
                runners[change.id],
                change,
            )
            &&& !runners.contains_key(change.id) ==> after[change.id] == runner_after(
                no_orders(),
                change,
            )
            &&& after.contains_key(other) <==> runners.contains_key(other)
            &&& runners.contains_key(other) ==> after[other] == runners[other]
        }),
        runners_after(runners_after(runners, first), second) == runners_after(
            runners,
            first + second,
        ),
    decreases second.len(),
{
    assert(seq![change].drop_last() =~= Seq::empty());
    reveal_with_fuel(runners_after, 2);
    if second.len() == 0 {
        assert(first + second =~= first);
    } else {
        law_runner_changes_one_by_one(runners, change, other, first, second.drop_last());
        assert((first + second).drop_last() =~= first + second.drop_last());
        assert((first + second).last() == second.last());
    }
}

/// A change of a market keeps its name and brings its time. Its runner changes are taken in over
/// the runners that were known, or after a full image over none.
pub proof fn law_market_change(
    cache: CacheState,
    change: OrderChange,
    changes: Vec<OrderRunnerChange>,
    pt: i64,
)
    ensures
        ({
            let after = cache_after(cache, change, pt);
            &&& after.market_id == cache.market_id
            &&& after.timestamp == pt
            &&& change.order_runner_change is None && !change.full_image ==> after.runners
                == cache.runners
            &&& change.order_runner_change is None && change.full_image ==> after.runners == Map::<
                u64,
                RunnerState,
            >::empty()
            &&& change.order_runner_change == Some(changes) && !change.full_image ==> after.runners
                == runners_after(cache.runners, changes@)
            &&& change.order_runner_change == Some(changes) && change.full_image ==> after.runners
                == runners_after(Map::empty(), changes@)
        }),
{
}

/// One change of a market makes it known and changes it from what it was, or from nothing; every
/// other market stays. No change changes nothing.
pub proof fn law_market_changes_one_by_one(
    caches: Map<Seq<char>, CacheState>,
    change: OrderChange,
    pt: i64,
    other: Seq<char>,
)
    requires
        other != change.id@,
    ensures
        caches_after(caches, Seq::empty(), pt) == caches,
        ({
            let after = caches_after(caches, seq![change], pt);
            &&& after.contains_key(change.id@)
            &&& caches.contains_key(change.id@) ==> after[change.id@] == cache_after(
                caches[change.id@],
                change,
                pt,
            )
            &&& !caches.contains_key(change.id@) ==> after[change.id@] == cache_after(
                no_runners(change.id@),
                change,
                pt,
            )
            &&& after.contains_key(other) <==> caches.contains_key(other)
            &&& caches.contains_key(other) ==> after[other] == caches[other]
        }),
{
    assert(seq![change].drop_last() =~= Seq::empty());
    reveal_with_fuel(caches_after, 2);
}

// ---------------------------------------------------------------------------------------------
// Messages
// ---------------------------------------------------------------------------------------------

/// Whether a text holds no line break.
pub open spec fn unbroken(text: Seq<char>) -> bool {
    forall|i: int| 0 <= i < text.len() ==> #[trigger] text[i] != '\r' && text[i] != '\n'
}

/// Whether a text is one line: it ends with carriage return and line feed, and no line break
/// stands before them.
pub open spec fn one_line(text: Seq<char>) -> bool {
    text.len() >= 2 && text[text.len() - 2] == '\r' && text[text.len() - 1] == '\n' && unbroken(
        text.take(text.len() - 2),
    )
}

proof fn lemma_digits_unbroken(number: nat)
    ensures
        unbroken(digits(number)),
    decreases number,
{
    if number >= 10 {
        lemma_digits_unbroken(number / 10);
    }
}

proof fn lemma_quoted_list_unbroken(items: Seq<Seq<char>>)
    requires
        forall|i: int| 0 <= i < items.len() ==> unbroken(#[trigger] items[i]),
    ensures
        unbroken(quoted_list(items)),
    decreases items.len(),
{
    reveal_strlit("\"");
    reveal_strlit(",");
    if items.len() > 1 {
        assert forall|i: int| 0 <= i < items.drop_last().len() implies unbroken(
            #[trigger] items.drop_last()[i],
        ) by {
            assert(items.drop_last()[i] == items[i]);
        }
        lemma_quoted_list_unbroken(items.drop_last());
        assert(unbroken(items[items.len() - 1]));
        assert(unbroken(quoted(items.last())));
    } else if items.len() == 1 {
        assert(unbroken(items[0]));
    }
}

/// Every message of the stream is one line, as long as the texts that it is made of hold no line
/// break.
pub proof fn law_messages_are_lines(
    now_millis: u128,
    market_id: Seq<char>,
    market_ids: Seq<Seq<char>>,
    filter_json: Seq<char>,
    levels: usize,
)
    requires
        unbroken(market_id),
        forall|i: int| 0 <= i < market_ids.len() ==> unbroken(#[trigger] market_ids[i]),
        unbroken(filter_json),
    ensures
        one_line(market_message(now_millis, market_id, levels)),
        one_line(batch_message(now_millis, market_ids, levels)),
        one_line(filter_message(now_millis, filter_json, levels)),
        one_line(order_message(filter_json)),
{
    lemma_digits_unbroken((now_millis % 10000) as nat);
    lemma_digits_unbroken(levels as nat);
    lemma_quoted_list_unbroken(market_ids);
    reveal_strlit("\"");
    reveal_strlit("{\"op\": \"marketSubscription\", \"id\": ");
    reveal_strlit(", \"marketFilter\": { \"marketIds\":[");
    reveal_strlit(
        "]}, \"marketDataFilter\": { \"fields\": [\"EX_BEST_OFFERS\"], \"ladderLevels\": ",
    );
    reveal_strlit(
        "]}, \"marketDataFilter\": { \"fields\": [\"EX_BEST_OFFERS\", \"EX_MARKET_DEF\"], \"ladderLevels\": ",
    );
    reveal_strlit(", \"marketFilter\": ");
    reveal_strlit(
        ", \"marketDataFilter\": { \"fields\": [\"EX_BEST_OFFERS\", \"EX_MARKET_DEF\"], \"ladderLevels\": ",
    );
    reveal_strlit("}}\r\n");
    reveal_strlit("{\"op\":\"orderSubscription\",\"orderFilter\":");
    reveal_strlit(",\"segmentationEnabled\":true,\"heartbeatMs\":5000}\r\n");
}

/// The identifier of a message reads back as the time in milliseconds modulo ten thousand.
pub proof fn law_message_id_reads_back(now_millis: u128)
    ensures
        number_read(message_id(now_millis)) == now_millis % 10000,
{
    law_decimal_reads_back((now_millis % 10000) as nat);
}

/// The message for one market asks for the best offers of that market, with the given levels.
pub proof fn law_market_message(now_millis: u128, market_id: Seq<char>, levels: usize)
    ensures
        market_message(now_millis, market_id, levels)
            == "{\"op\": \"marketSubscription\", \"id\": "@ + digits((now_millis % 10000) as nat)
            + ", \"marketFilter\": { \"marketIds\":["@ + (seq!['"'] + market_id + seq!['"'])
            + "]}, \"marketDataFilter\": { \"fields\": [\"EX_BEST_OFFERS\"], \"ladderLevels\": "@
            + digits(levels as nat) + "}}\r\n"@,
{
    law_quotes_enclose(market_id);
}

/// The message for several markets names them as a list in quotes, and asks for their best offers
/// and definitions with the given levels.
pub proof fn law_batch_message(now_millis: u128, market_ids: Seq<Seq<char>>, levels: usize)
    ensures
        batch_message(now_millis, market_ids, levels)
            == "{\"op\": \"marketSubscription\", \"id\": "@ + digits((now_millis % 10000) as nat)
            + ", \"marketFilter\": { \"marketIds\":["@ + quoted_list(market_ids)
            + "]}, \"marketDataFilter\": { \"fields\": [\"EX_BEST_OFFERS\", \"EX_MARKET_DEF\"], \"ladderLevels\": "@
            + digits(levels as nat) + "}}\r\n"@,
{
}

/// The message for a filter holds its JSON form as it is, and asks for best offers and definitions
/// with the given levels.
pub proof fn law_filter_message(now_millis: u128, filter_json: Seq<char>, levels: usize)
    ensures
        filter_message(now_millis, filter_json, levels)
            == "{\"op\": \"marketSubscription\", \"id\": "@ + digits((now_millis % 10000) as nat)
            + ", \"marketFilter\": "@ + filter_json
            + ", \"marketDataFilter\": { \"fields\": [\"EX_BEST_OFFERS\", \"EX_MARKET_DEF\"], \"ladderLevels\": "@
            + digits(levels as nat) + "}}\r\n"@,
{
}

/// The message for orders holds the JSON form of its filter as it is. A filter without a JSON form,
/// and no filter, count as an empty one.
pub proof fn law_order_message(filter: OrderFilter, json: String, any_json: Option<String>)
    ensures
        json_or_empty(Some(json)) == json@,
        json_or_empty(None) == "{}"@,
        order_filter_json(Some(filter), Some(json)) == json@,
        order_filter_json(Some(filter), None) == "{}"@,
        order_filter_json(None, any_json) == "{}"@,
        order_message(json@) == "{\"op\":\"orderSubscription\",\"orderFilter\":"@ + json@
            + ",\"segmentationEnabled\":true,\"heartbeatMs\":5000}\r\n"@,
{
}

/// A stream that is up again is asked for everything that was subscribed to. One message names the
/// subscribed markets in their order, with the levels of the first; one asks for the orders under
/// the filter that they were subscribed to with, in the JSON form that came with the event. What is
/// not subscribed to is not asked for, and nobody is told that streaming has started.
pub proof fn law_back_asks_for_everything(
    task: TaskState,
    client: StreamState,
    now_millis: u128,
    filter: OrderFilter,
    json: String,
)
    requires
        !task.first_start,
        consistent(client),
    ensures
        ({
            let back = after_event(
                task,
                client,
                StreamEvent::SenderReady(now_millis, Some(json)),
            );
            let bare = after_event(task, client, StreamEvent::SenderReady(now_millis, None));
            let messages = back.action->Listen_0;
            let plain = bare.action->Listen_0;
            &&& back.action is Listen
            &&& bare.action is Listen
            &&& !back.action->Listen_1
            &&& !bare.action->Listen_1
            &&& back.task == task
            &&& back.client == client
            &&& messages.len() == (if client.market_order.len() > 0 {
                1nat
            } else {
                0nat
            }) + (if client.subscribed_to_orders {
                1nat
            } else {
                0nat
            })
            &&& plain.len() == messages.len()
            &&& client.market_order.len() > 0 ==> messages[0] == plain[0] && messages[0]
                == "{\"op\": \"marketSubscription\", \"id\": "@ + digits(
                (now_millis % 10000) as nat,
            ) + ", \"marketFilter\": { \"marketIds\":["@ + quoted_list(client.market_order)
                + "]}, \"marketDataFilter\": { \"fields\": [\"EX_BEST_OFFERS\", \"EX_MARKET_DEF\"], \"ladderLevels\": "@
                + digits(client.subscribed_markets[client.market_order[0]] as nat) + "}}\r\n"@
            &&& client.subscribed_to_orders && client.order_filter == Some(filter)
                ==> messages.last() == "{\"op\":\"orderSubscription\",\"orderFilter\":"@ + json@
                + ",\"segmentationEnabled\":true,\"heartbeatMs\":5000}\r\n"@
            &&& client.subscribed_to_orders && client.order_filter is None ==> messages.last()
                == "{\"op\":\"orderSubscription\",\"orderFilter\":"@ + "{}"@
                + ",\"segmentationEnabled\":true,\"heartbeatMs\":5000}\r\n"@
            &&& client.subscribed_to_orders ==> plain.last()
                == "{\"op\":\"orderSubscription\",\"orderFilter\":"@ + "{}"@
                + ",\"segmentationEnabled\":true,\"heartbeatMs\":5000}\r\n"@
        }),
{
    let back = after_event(task, client, StreamEvent::SenderReady(now_millis, Some(json)));
    let bare = after_event(task, client, StreamEvent::SenderReady(now_millis, None));
    assert(back.action->Listen_0 =~= resubscription_texts(client, now_millis, Some(json)));
    assert(bare.action->Listen_0 =~= resubscription_texts(client, now_millis, None));
}

/// A handler of commands that finds no connection rests for a tenth of a second.
pub proof fn law_rest_is_short()
    ensures
        NO_CONNECTION_PAUSE_MILLIS == 100,
{
}

proof fn lemma_digits_nonempty(number: nat)
    ensures
        digits(number).len() >= 1,
        number >= 10 ==> digits(number).len() >= 2,
    decreases number,
{
    if number >= 10 {
        lemma_digits_nonempty(number / 10);
    }
}

proof fn lemma_digits_differ(one: nat, other: nat)
    requires
        one != other,
    ensures
        digits(one) != digits(other),
    decreases one,
{
    lemma_digits_nonempty(one);
    lemma_digits_nonempty(other);
    if one < 10 && other < 10 {
        assert(digits(one)[0] != digits(other)[0]);
    } else if one >= 10 && other >= 10 {
        if one % 10 != other % 10 {
            assert(digits(one).last() != digits(other).last());
        } else {
            lemma_digits_differ(one / 10, other / 10);
            assert(digits(one).drop_last() =~= digits(one / 10));
            assert(digits(other).drop_last() =~= digits(other / 10));
        }
    }
}

/// Messages that are made at different times within ten seconds have different identifiers, and
/// no identifier is longer than four digits.
pub proof fn law_message_ids_differ(one_millis: u128, other_millis: u128)
    requires
        one_millis < other_millis < one_millis + 10000,
    ensures
        message_id(one_millis) != message_id(other_millis),
        1 <= message_id(one_millis).len() <= 4,
{
    let id = (one_millis % 10000) as nat;
    lemma_digits_differ(id, (other_millis % 10000) as nat);
    lemma_digits_nonempty(id);
    reveal_with_fuel(digits, 5);
}

/// Trimming a text has one outcome.
pub proof fn law_trimming_is_determined(text: Seq<char>, one: Seq<char>, other: Seq<char>)
    requires
        trimmed(text, one),
        trimmed(text, other),
    ensures
        one == other,
{
    let (start, end) = choose|start: int, end: int| #[trigger] trimmed_at(text, one, start, end);
    let (first, last) = choose|start: int, end: int|
        #[trigger] trimmed_at(text, other, start, end);
    if one.len() > 0 {
        assert(one[0] == text[start]);
        assert(one.last() == text[end - 1]);
    }
    if other.len() > 0 {
        assert(other[0] == text[first]);
        assert(other.last() == text[last - 1]);
    }
    assert(one =~= other);
}

// ---------------------------------------------------------------------------------------------
// Sessions
// ---------------------------------------------------------------------------------------------

/// A client without a session refuses every call. Once a token is set, every call goes out under
/// that token and the key of the application.
pub proof fn law_token_is_used<T>(
    client: RestClient,
    token: String,
    url: Seq<char>,
    method: Seq<char>,
    call: Result<RpcCall<T>, ClientError>,
)
    ensures
        client.session_token is None && addressed(client, url, method, call) ==> call is Err,
        addressed(client.with_token(token), url, method, call) ==> (
        call matches Ok(call) && rpc_header_pairs(call.api_key@, call.session_token@)
            == rpc_header_pairs(client.config.betfair.api_key@, token@)),
{
}

/// The token that was set last is the one that is read, on both sides of a client, and setting it
/// changes nothing else.
pub proof fn law_last_token_is_read_back(
    client: RestClient,
    state: StreamState,
    first: String,
    second: String,
)
    ensures
        client.with_token(first).with_token(second).session_token == Some(second),
        client.with_token(first).with_token(second) == client.with_token(second),
        client.with_token(second).config == client.config,
        with_token(with_token(state, first@), second@).session_token == Some(second@),
        with_token(with_token(state, first@), second@) == with_token(state, second@),
        with_token(state, second@) == (StreamState {
            session_token: with_token(state, second@).session_token,
            ..state
        }),
{
}

/// An interactive login that is accepted brings a token that is not empty: the first of its two
/// token fields that is filled. One that is refused by its status is refused whatever its tokens
/// are.
pub proof fn law_accepted_login_has_a_token(
    response: InteractiveLoginResponse,
    upper_status: Seq<char>,
    verdict: Result<String, ClientError>,
)
    requires
        login_verdict(response, upper_status, verdict),
    ensures
        verdict matches Ok(token) ==> token@.len() > 0 && token@ == login_token(response),
        verdict is Ok <==> login_token(response).len() > 0 && (login_status(response).len() == 0
            || upper_status == "SUCCESS"@),
{
}

/// Setting a token on the streaming side changes the token alone.
pub proof fn law_setting_a_streaming_token(state: StreamState, token: Seq<char>)
    ensures
        with_token(state, token).session_token == Some(token),
        with_token(state, token) == (StreamState {
            session_token: with_token(state, token).session_token,
            ..state
        }),
{
}

/// Both sides of a client are in step if and only if they act under one configuration, one key and
/// one token.
pub proof fn law_in_step(client: BetfairClient)
    ensures
        client.in_step() <==> client.api_client.config == client.config && (
        client.streaming_client matches Some(streaming) ==> streaming.api_key@
            == client.config.betfair.api_key@ && (streaming.session_token is Some
            <==> client.api_client.session_token is Some) && (
        streaming.session_token is Some ==> streaming.session_token->0@
            == client.api_client.session_token->0@)),
        client.streaming_state() is Some <==> client.streaming_client is Some,
        client.streaming_client matches Some(streaming) ==> client.streaming_state() == Some(
            streaming@,
        ),
{
}

} // verus!
