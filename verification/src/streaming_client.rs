//! The streaming side of a client: subscriptions, the messages that ask for them, and what has
//! come in.

use crate::config::Config;
use crate::connection_state::{ConnectionState, ConnectionStatus};
use crate::dto::streaming::{MarketFilter, OrderChangeMessage, OrderFilter};
use crate::error::ClientError;
use crate::order_cache::{cache_of, caches_after, CacheState, OrderCache};
use crate::orderbook::{books_of, market_books_of, BookState, Orderbook};
use crate::stream_task::{StreamTask, TaskState};
use crate::table::Table;
use crate::text::{
    decimal_text, digits, quoted, quoted_list, quoted_list_text, text_of, texts,
};
use std::time::Instant;
use vstd::hash_map::StringHashMap;
use vstd::prelude::*;
use vstd::string::StringExecFns;

verus! {

/// A point in time of the standard library, as an opaque value.
#[verifier::external_type_specification]
#[verifier::external_body]
pub struct ExInstant(std::time::Instant);

/// How long a command handler rests, in milliseconds, when a command finds no connection.
pub const NO_CONNECTION_PAUSE_MILLIS: u64 = 100;

/// What the background task is told to do.
#[derive(Debug)]
pub enum StreamingCommand {
    /// Subscribe to a market with a number of price levels.
    Subscribe(String, usize),
    /// Subscribe to several markets at once.
    SubscribeBatch(Vec<String>, usize),
    /// Subscribe to the markets that a filter lets pass.
    SubscribeWithFilter(MarketFilter, usize),
    /// Forget a market.
    Unsubscribe(String),
    /// Subscribe to orders.
    SubscribeOrders(Option<OrderFilter>),
    /// Stop streaming.
    Stop,
}

/// What a command comes down to.
#[derive(Debug)]
pub enum CommandAction {
    /// There is no connection: the command is lost, and the handler rests for a while.
    Rest,
    /// Send a message.
    Send(String),
    /// Nothing is left to do.
    Done,
    /// Stop the background task and take no more commands.
    Stop,
}

/// What a callback for prices is to be called with: a market, the books of its runners and its
/// definition.
pub struct OrderbookUpdate<D> {
    pub market_id: String,
    pub runner_orderbooks: Table<Orderbook>,
    pub market_definition: D,
}

/// The streaming state of a client. Connecting, sending and receiving are left to the caller.
pub struct StreamingClient {
    pub api_key: String,
    pub session_token: Option<String>,
    /// Whether commands can be handed to the background task.
    pub has_command_sender: bool,
    /// Whether there is a background task to wait for.
    pub has_streaming_task: bool,
    pub orderbooks: Table<Table<Orderbook>>,
    pub orders: Table<OrderCache>,
    pub is_connected: bool,
    pub last_update_times: StringHashMap<Instant>,
    /// Whether a callback for prices is set.
    pub has_orderbook_callback: bool,
    /// Whether a callback for orders is set.
    pub has_order_callback: bool,
    /// Whether a callback for orders was set when streaming was last started.
    pub order_callback_in_use: bool,
    pub connection_state: ConnectionState,
    pub reconnect_attempts: u32,
    pub subscribed_markets: Table<usize>,
    pub subscribed_to_orders: bool,
    pub order_filter: Option<OrderFilter>,
    pub enable_reconnection: bool,
}

/// What `StreamingClient` stands for.
#[verifier::ext_equal]
pub struct StreamState {
    pub api_key: Seq<char>,
    pub session_token: Option<Seq<char>>,
    pub has_command_sender: bool,
    pub has_streaming_task: bool,
    pub orderbooks: Map<Seq<char>, Map<Seq<char>, BookState>>,
    pub orders: Map<Seq<char>, CacheState>,
    pub is_connected: bool,
    pub last_update_times: Map<Seq<char>, Instant>,
    pub has_orderbook_callback: bool,
    pub has_order_callback: bool,
    pub order_callback_in_use: bool,
    pub connection_state: ConnectionStatus,
    pub reconnect_attempts: u32,
    /// The price levels of each market that is subscribed to.
    pub subscribed_markets: Map<Seq<char>, usize>,
    /// The markets that are subscribed to, in the order in which they came.
    pub market_order: Seq<Seq<char>>,
    pub subscribed_to_orders: bool,
    pub order_filter: Option<OrderFilter>,
    pub enable_reconnection: bool,
}

impl View for StreamingClient {
    type V = StreamState;

    open spec fn view(&self) -> StreamState {
        StreamState {
            api_key: self.api_key@,
            session_token: text_of(self.session_token),
            has_command_sender: self.has_command_sender,
            has_streaming_task: self.has_streaming_task,
            orderbooks: market_books_of(self.orderbooks),
            orders: self.orders@.map_values(|cache: OrderCache| cache@),
            is_connected: self.is_connected,
            last_update_times: self.last_update_times@,
            has_orderbook_callback: self.has_orderbook_callback,
            has_order_callback: self.has_order_callback,
            order_callback_in_use: self.order_callback_in_use,
            connection_state: self.connection_state@,
            reconnect_attempts: self.reconnect_attempts,
            subscribed_markets: self.subscribed_markets@,
            market_order: self.subscribed_markets.keys(),
            subscribed_to_orders: self.subscribed_to_orders,
            order_filter: self.order_filter,
            enable_reconnection: self.enable_reconnection,
        }
    }
}

/// The state of a client that has done nothing yet.
pub open spec fn fresh_state(api_key: Seq<char>, session_token: Option<Seq<char>>) -> StreamState {
    StreamState {
        api_key,
        session_token,
        has_command_sender: false,
        has_streaming_task: false,
        orderbooks: Map::empty(),
        orders: Map::empty(),
        is_connected: false,
        last_update_times: Map::empty(),
        has_orderbook_callback: false,
        has_order_callback: false,
        order_callback_in_use: false,
        connection_state: ConnectionStatus::Disconnected,
        reconnect_attempts: 0,
        subscribed_markets: Map::empty(),
        market_order: Seq::empty(),
        subscribed_to_orders: false,
        order_filter: None,
        enable_reconnection: true,
    }
}

/// The state with another session token.
pub open spec fn with_token(state: StreamState, token: Seq<char>) -> StreamState {
    StreamState { session_token: Some(token), ..state }
}

/// The state after streaming was started. The callback for orders that is set by then, if any, is
/// the one that is used until the next start.
pub open spec fn started(state: StreamState) -> StreamState {
    StreamState {
        has_command_sender: true,
        has_streaming_task: true,
        order_callback_in_use: state.has_order_callback,
        ..state
    }
}

/// Whether the order of the subscribed markets names each of them once, and no other.
pub open spec fn consistent(state: StreamState) -> bool {
    state.market_order.no_duplicates() && state.market_order.to_set()
        == state.subscribed_markets.dom()
}

/// The state after a subscription to a market. What was known of its prices is forgotten.
pub open spec fn subscribed(
    state: StreamState,
    market_id: Seq<char>,
    levels: usize,
) -> StreamState {
    StreamState {
        subscribed_markets: state.subscribed_markets.insert(market_id, levels),
        market_order: if state.subscribed_markets.contains_key(market_id) {
            state.market_order
        } else {
            state.market_order.push(market_id)
        },
        orderbooks: state.orderbooks.remove(market_id),
        last_update_times: state.last_update_times.remove(market_id),
        ..state
    }
}

/// The state after subscriptions to a list of markets, taken in order.
pub open spec fn subscribed_all(
    state: StreamState,
    market_ids: Seq<Seq<char>>,
    levels: usize,
) -> StreamState
    decreases market_ids.len(),
{
    if market_ids.len() == 0 {
        state
    } else {
        subscribed(subscribed_all(state, market_ids.drop_last(), levels), market_ids.last(), levels)
    }
}

/// The state after a market is forgotten.
pub open spec fn unsubscribed(state: StreamState, market_id: Seq<char>) -> StreamState {
    StreamState {
        subscribed_markets: state.subscribed_markets.remove(market_id),
        market_order: state.market_order.remove_value(market_id),
        orderbooks: state.orderbooks.remove(market_id),
        last_update_times: state.last_update_times.remove(market_id),
        ..state
    }
}

/// The state after the books of a market's runners came in at a time.
pub open spec fn with_books(
    state: StreamState,
    market_id: Seq<char>,
    books: Map<Seq<char>, BookState>,
    now: Instant,
) -> StreamState {
    StreamState {
        orderbooks: state.orderbooks.insert(market_id, books),
        last_update_times: state.last_update_times.insert(market_id, now),
        ..state
    }
}

/// The state after a subscription to orders.
pub open spec fn subscribed_to_orders(
    state: StreamState,
    filter: Option<OrderFilter>,
) -> StreamState {
    StreamState { subscribed_to_orders: true, order_filter: filter, ..state }
}

/// The identifier of a message that is made at a time: its last four digits in milliseconds.
pub open spec fn message_id(now_millis: u128) -> Seq<char> {
    digits((now_millis % 10000) as nat)
}

/// The message that subscribes to one market.
pub open spec fn market_message(
    now_millis: u128,
    market_id: Seq<char>,
    levels: usize,
) -> Seq<char> {
    "{\"op\": \"marketSubscription\", \"id\": "@ + message_id(now_millis)
        + ", \"marketFilter\": { \"marketIds\":["@ + quoted(market_id)
        + "]}, \"marketDataFilter\": { \"fields\": [\"EX_BEST_OFFERS\"], \"ladderLevels\": "@
        + digits(levels as nat) + "}}\r\n"@
}

/// The message that subscribes to several markets.
pub open spec fn batch_message(
    now_millis: u128,
    market_ids: Seq<Seq<char>>,
    levels: usize,
) -> Seq<char> {
    "{\"op\": \"marketSubscription\", \"id\": "@ + message_id(now_millis)
        + ", \"marketFilter\": { \"marketIds\":["@ + quoted_list(market_ids)
        + "]}, \"marketDataFilter\": { \"fields\": [\"EX_BEST_OFFERS\", \"EX_MARKET_DEF\"], \"ladderLevels\": "@
        + digits(levels as nat) + "}}\r\n"@
}

/// The message that subscribes to the markets that a filter lets pass.
pub open spec fn filter_message(
    now_millis: u128,
    filter_json: Seq<char>,
    levels: usize,
) -> Seq<char> {
    "{\"op\": \"marketSubscription\", \"id\": "@ + message_id(now_millis) + ", \"marketFilter\": "@
        + filter_json
        + ", \"marketDataFilter\": { \"fields\": [\"EX_BEST_OFFERS\", \"EX_MARKET_DEF\"], \"ladderLevels\": "@
        + digits(levels as nat) + "}}\r\n"@
}

/// The message that subscribes to orders.
pub open spec fn order_message(filter_json: Seq<char>) -> Seq<char> {
    "{\"op\":\"orderSubscription\",\"orderFilter\":"@ + filter_json
        + ",\"segmentationEnabled\":true,\"heartbeatMs\":5000}\r\n"@
}

/// The JSON form of a filter, or that of an empty one where there is none.
pub open spec fn json_or_empty(filter_json: Option<String>) -> Seq<char> {
    match filter_json {
        Some(json) => json@,
        None => "{}"@,
    }
}

/// The JSON form of an optional order filter, given that of the filter where it has one.
pub open spec fn order_filter_json(
    filter: Option<OrderFilter>,
    filter_json: Option<String>,
) -> Seq<char> {
    if filter is Some {
        json_or_empty(filter_json)
    } else {
        "{}"@
    }
}

/// The messages that ask again for everything that is subscribed to: the markets in one message,
/// with the levels of the one that came first, and then the orders.
pub open spec fn resubscription_texts(
    state: StreamState,
    now_millis: u128,
    filter_json: Option<String>,
) -> Seq<Seq<char>> {
    let markets = if state.market_order.len() > 0 {
        seq![
            batch_message(
                now_millis,
                state.market_order,
                state.subscribed_markets[state.market_order[0]],
            ),
        ]
    } else {
        Seq::empty()
    };
    let orders = if state.subscribed_to_orders {
        seq![order_message(order_filter_json(state.order_filter, filter_json))]
    } else {
        Seq::empty()
    };
    markets + orders
}

impl StreamingClient {
    /// Makes a client for an application key.
    pub fn new(api_key: String) -> (client: Self)
        ensures
            client@ == fresh_state(api_key@, None),
    {
        let client = StreamingClient {
            api_key,
            session_token: None,
            has_command_sender: false,
            has_streaming_task: false,
            orderbooks: Table::new(),
            orders: Table::new(),
            is_connected: false,
            last_update_times: StringHashMap::new(),
            has_orderbook_callback: false,
            has_order_callback: false,
            order_callback_in_use: false,
            connection_state: ConnectionState::Disconnected,
            reconnect_attempts: 0,
            subscribed_markets: Table::new(),
            subscribed_to_orders: false,
            order_filter: None,
            enable_reconnection: true,
        };
        proof {
            assert(client@ =~= fresh_state(api_key@, None));
        }
        client
    }

    /// Makes a client for an application key and a session that is open.
    pub fn with_session_token(api_key: String, session_token: String) -> (client: Self)
        ensures
            client@ == fresh_state(api_key@, Some(session_token@)),
    {
        let mut client = StreamingClient::new(api_key);
        client.session_token = Some(session_token);
        client
    }

    /// Makes a client out of the settings.
    pub fn from_config(config: Config) -> (client: Self)
        ensures
            client@ == fresh_state(config.betfair.api_key@, None),
    {
        StreamingClient::new(config.betfair.api_key)
    }

    /// Sets the session token.
    pub fn set_session_token(&mut self, token: String)
        ensures
            final(self)@ == with_token(old(self)@, token@),
    {
        self.session_token = Some(token);
    }

    /// Says whether a lost connection is to be made again. A background task that is running
    /// keeps to what held when it was started.
    pub fn set_reconnection_enabled(&mut self, enabled: bool)
        ensures
            final(self)@ == (StreamState { enable_reconnection: enabled, ..old(self)@ }),
    {
        self.enable_reconnection = enabled;
    }

    /// Notes that a callback for prices is set. It is used as soon as prices come in.
    pub fn set_orderbook_callback(&mut self)
        ensures
            final(self)@ == (StreamState { has_orderbook_callback: true, ..old(self)@ }),
    {
        self.has_orderbook_callback = true;
    }

    /// Notes that a callback for orders is set. It is used from the next start on.
    pub fn set_order_callback(&mut self)
        ensures
            final(self)@ == (StreamState { has_order_callback: true, ..old(self)@ }),
    {
        self.has_order_callback = true;
    }

    /// How the connection stands.
    pub fn get_connection_state(&self) -> (state: ConnectionState)
        ensures
            state == self.connection_state,
            state@ == self@.connection_state,
    {
        self.connection_state.clone()
    }

    /// How often a connection that was lost has been tried again since it was last up.
    pub fn get_reconnect_attempts(&self) -> (attempts: u32)
        ensures
            attempts == self@.reconnect_attempts,
    {
        self.reconnect_attempts
    }

    /// The books of all markets, runner by runner.
    pub fn get_orderbooks(&self) -> (orderbooks: &Table<Table<Orderbook>>)
        ensures
            *orderbooks == self.orderbooks,
            market_books_of(*orderbooks) == self@.orderbooks,
    {
        &self.orderbooks
    }

    /// When the prices of a market last came in.
    pub fn get_last_update_time(&self, market_id: &str) -> (time: Option<Instant>)
        ensures
            time == (if self@.last_update_times.contains_key(market_id@) {
                Some(self@.last_update_times[market_id@])
            } else {
                None
            }),
    {
        match self.last_update_times.get(market_id) {
            Some(time) => Some(*time),
            None => None,
        }
    }

    /// The orders on all markets.
    pub fn get_orders(&self) -> (orders: &Table<OrderCache>)
        ensures
            *orders == self.orders,
            orders@.map_values(|cache: OrderCache| cache@) == self@.orders,
    {
        &self.orders
    }

    /// Whether the stream is up.
    pub fn is_connected(&self) -> (connected: bool)
        ensures
            connected == self@.is_connected,
    {
        self.is_connected
    }

    /// Starts streaming: commands can be given from now on, and the background task is to be run
    /// as the result says. Without a session token it is refused.
    pub fn start(&mut self) -> (task: Result<StreamTask, ClientError>)
        ensures
            match old(self)@.session_token {
                Some(token) => (task matches Ok(task) && task@ == (TaskState {
                    api_key: old(self)@.api_key,
                    session_token: token,
                    first_start: true,
                    attempt: 0,
                    reconnects: old(self)@.enable_reconnection,
                })) && final(self)@ == started(old(self)@),
                None => task matches Err(error) && error is SessionTokenNotSet && final(self)@
                    == old(self)@,
            },
    {
        let session_token = match &self.session_token {
            Some(token) => token.clone(),
            None => return Err(ClientError::SessionTokenNotSet),
        };
        self.has_command_sender = true;
        self.has_streaming_task = true;
        self.order_callback_in_use = self.has_order_callback;
        Ok(
            StreamTask {
                api_key: self.api_key.clone(),
                session_token,
                first_start: true,
                reconnect_attempt: 0,
                enable_reconnection: self.enable_reconnection,
            },
        )
    }

    /// The command that subscribes to a market.
    pub fn subscribe_to_market(
        &self,
        market_id: String,
        levels: usize,
    ) -> (command: Result<StreamingCommand, ClientError>)
        ensures
            if self@.has_command_sender {
                command == Ok::<StreamingCommand, ClientError>(
                    StreamingCommand::Subscribe(market_id, levels),
                )
            } else {
                command matches Err(error) && error is StreamingNotStarted
            },
    {
        if self.has_command_sender {
            Ok(StreamingCommand::Subscribe(market_id, levels))
        } else {
            Err(ClientError::StreamingNotStarted)
        }
    }

    /// The command that subscribes to several markets at once.
    pub fn subscribe_to_markets(
        &self,
        market_ids: Vec<String>,
        levels: usize,
    ) -> (command: Result<StreamingCommand, ClientError>)
        ensures
            if market_ids@.len() == 0 {
                command matches Err(error) && error is EmptyMarketList
            } else if self@.has_command_sender {
                command == Ok::<StreamingCommand, ClientError>(
                    StreamingCommand::SubscribeBatch(market_ids, levels),
                )
            } else {
                command matches Err(error) && error is StreamingNotStarted
            },
    {
        if market_ids.len() == 0 {
            return Err(ClientError::EmptyMarketList);
        }
        if self.has_command_sender {
            Ok(StreamingCommand::SubscribeBatch(market_ids, levels))
        } else {
            Err(ClientError::StreamingNotStarted)
        }
    }

    /// The command that subscribes to the markets that a filter lets pass.
    pub fn subscribe_with_filter(
        &self,
        filter: MarketFilter,
        levels: usize,
    ) -> (command: Result<StreamingCommand, ClientError>)
        ensures
            if self@.has_command_sender {
                command == Ok::<StreamingCommand, ClientError>(
                    StreamingCommand::SubscribeWithFilter(filter, levels),
                )
            } else {
                command matches Err(error) && error is StreamingNotStarted
            },
    {
        if self.has_command_sender {
            Ok(StreamingCommand::SubscribeWithFilter(filter, levels))
        } else {
            Err(ClientError::StreamingNotStarted)
        }
    }

    /// The command that forgets a market.
    pub fn unsubscribe_from_market(
        &self,
        market_id: String,
    ) -> (command: Result<StreamingCommand, ClientError>)
        ensures
            if self@.has_command_sender {
                command == Ok::<StreamingCommand, ClientError>(
                    StreamingCommand::Unsubscribe(market_id),
                )
            } else {
                command matches Err(error) && error is StreamingNotStarted
            },
    {
        if self.has_command_sender {
            Ok(StreamingCommand::Unsubscribe(market_id))
        } else {
            Err(ClientError::StreamingNotStarted)
        }
    }

    /// The command that subscribes to orders.
    pub fn subscribe_to_orders(
        &self,
        filter: Option<OrderFilter>,
    ) -> (command: Result<StreamingCommand, ClientError>)
        ensures
            if self@.has_command_sender {
                command == Ok::<StreamingCommand, ClientError>(
                    StreamingCommand::SubscribeOrders(filter),
                )
            } else {
                command matches Err(error) && error is StreamingNotStarted
            },
    {
        if self.has_command_sender {
            Ok(StreamingCommand::SubscribeOrders(filter))
        } else {
            Err(ClientError::StreamingNotStarted)
        }
    }

    /// The command that stops streaming, where it was started.
    pub fn stop(&self) -> (command: Option<StreamingCommand>)
        ensures
            command == (if self@.has_command_sender {
                Some(StreamingCommand::Stop)
            } else {
                None
            }),
    {
        if self.has_command_sender {
            Some(StreamingCommand::Stop)
        } else {
            None
        }
    }

    /// Gives up the background task, and says whether there was one to wait for.
    pub fn take_streaming_task(&mut self) -> (had_task: bool)
        ensures
            had_task == old(self)@.has_streaming_task,
            final(self)@ == (StreamState { has_streaming_task: false, ..old(self)@ }),
    {
        let had_task = self.has_streaming_task;
        self.has_streaming_task = false;
        had_task
    }

    /// Notes a subscription to a market.
    fn note_subscription(&mut self, market_id: &String, levels: usize)
        ensures
            final(self)@ == subscribed(old(self)@, market_id@, levels),
    {
        self.subscribed_markets.insert(market_id.clone(), levels);
        let _ = self.orderbooks.remove(market_id.as_str());
        self.last_update_times.remove(market_id.as_str());
    }

    /// Carries a command out, as far as it is about this state, and says what is left to do. A
    /// stop is heeded with or without a connection. `connected` tells whether a message can be
    /// sent, and `filter_json` is the JSON form of the filter of the command, where it has one.
    pub fn handle_command(
        &mut self,
        command: StreamingCommand,
        connected: bool,
        now_millis: u128,
        filter_json: Option<String>,
    ) -> (action: CommandAction)
        ensures
            command is Stop ==> action is Stop && final(self)@ == old(self)@,
            !connected && !(command is Stop) ==> action is Rest && final(self)@ == old(self)@,
            connected ==> match command {
                StreamingCommand::Subscribe(market_id, levels) => final(self)@ == subscribed(
                    old(self)@,
                    market_id@,
                    levels,
                ) && (action matches CommandAction::Send(text) && text@ == market_message(
                    now_millis,
                    market_id@,
                    levels,
                )),
                StreamingCommand::SubscribeBatch(market_ids, levels) => final(self)@
                    == subscribed_all(old(self)@, texts(market_ids@), levels) && (
                action matches CommandAction::Send(text) && text@ == batch_message(
                    now_millis,
                    texts(market_ids@),
                    levels,
                )),
                StreamingCommand::SubscribeWithFilter(filter, levels) => final(self)@ == old(self)@
                    && (action matches CommandAction::Send(text) && text@ == filter_message(
                    now_millis,
                    json_or_empty(filter_json),
                    levels,
                )),
                StreamingCommand::Unsubscribe(market_id) => final(self)@ == unsubscribed(
                    old(self)@,
                    market_id@,
                ) && action is Done,
                StreamingCommand::SubscribeOrders(filter) => final(self)@ == subscribed_to_orders(
                    old(self)@,
                    filter,
                ) && (action matches CommandAction::Send(text) && text@ == order_message(
                    order_filter_json(filter, filter_json),
                )),
                StreamingCommand::Stop => final(self)@ == old(self)@ && action is Stop,
            },
    {
        if let StreamingCommand::Stop = command {
            return CommandAction::Stop;
        }
        if !connected {
            return CommandAction::Rest;
        }
        match command {
            StreamingCommand::Subscribe(market_id, levels) => {
                self.note_subscription(&market_id, levels);
                CommandAction::Send(
                    StreamingClient::create_market_subscription_message(
                        now_millis,
                        market_id.as_str(),
                        levels,
                    ),
                )
            },
            StreamingCommand::SubscribeBatch(market_ids, levels) => {
                self.note_subscriptions(&market_ids, levels);
                CommandAction::Send(
                    StreamingClient::create_batch_market_subscription_message(
                        now_millis,
                        &market_ids,
                        levels,
                    ),
                )
            },
            StreamingCommand::SubscribeWithFilter(_, levels) => {
                CommandAction::Send(
                    StreamingClient::create_filter_subscription_message(
                        now_millis,
                        filter_json,
                        levels,
                    ),
                )
            },
            StreamingCommand::Unsubscribe(market_id) => {
                let _ = self.subscribed_markets.remove(market_id.as_str());
                let _ = self.orderbooks.remove(market_id.as_str());
                self.last_update_times.remove(market_id.as_str());
                CommandAction::Done
            },
            StreamingCommand::SubscribeOrders(filter) => {
                let text = StreamingClient::create_order_subscription_message(&filter, filter_json);
                self.subscribed_to_orders = true;
                self.order_filter = filter;
                CommandAction::Send(text)
            },
            StreamingCommand::Stop => CommandAction::Stop,
        }
    }

    /// Notes subscriptions to several markets.
    fn note_subscriptions(&mut self, market_ids: &Vec<String>, levels: usize)
        ensures
            final(self)@ == subscribed_all(old(self)@, texts(market_ids@), levels),
    {
        let ghost before = self@;
        let mut i: usize = 0;
        proof {
            assert(texts(market_ids@).take(0) =~= Seq::empty());
        }
        while i < market_ids.len()
            invariant
                i <= market_ids@.len(),
                self@ == subscribed_all(before, texts(market_ids@).take(i as int), levels),
            decreases market_ids@.len() - i,
        {
            proof {
                let done = texts(market_ids@).take(i + 1);
                assert(done.drop_last() =~= texts(market_ids@).take(i as int));
                assert(done.last() == market_ids@[i as int]@);
            }
            self.note_subscription(&market_ids[i], levels);
            i = i + 1;
        }
        proof {
            assert(texts(market_ids@).take(i as int) =~= texts(market_ids@));
        }
    }

    /// Writes the message that subscribes to one market.
    pub fn create_market_subscription_message(
        now_millis: u128,
        market_id: &str,
        levels: usize,
    ) -> (text: String)
        ensures
            text@ == market_message(now_millis, market_id@, levels),
    {
        let mut text = "{\"op\": \"marketSubscription\", \"id\": ".to_string();
        text.append(decimal_text(now_millis % 10000).as_str());
        text.append(", \"marketFilter\": { \"marketIds\":[");
        text.append("\"");
        text.append(market_id);
        text.append("\"");
        text.append(
            "]}, \"marketDataFilter\": { \"fields\": [\"EX_BEST_OFFERS\"], \"ladderLevels\": ",
        );
        text.append(decimal_text(levels as u128).as_str());
        text.append("}}\r\n");
        proof {
            assert(text@ =~= market_message(now_millis, market_id@, levels));
        }
        text
    }

    /// Writes the message that subscribes to several markets.
    pub fn create_batch_market_subscription_message(
        now_millis: u128,
        market_ids: &Vec<String>,
        levels: usize,
    ) -> (text: String)
        ensures
            text@ == batch_message(now_millis, texts(market_ids@), levels),
    {
        let mut text = "{\"op\": \"marketSubscription\", \"id\": ".to_string();
        text.append(decimal_text(now_millis % 10000).as_str());
        text.append(", \"marketFilter\": { \"marketIds\":[");
        text.append(quoted_list_text(market_ids).as_str());
        text.append(
            "]}, \"marketDataFilter\": { \"fields\": [\"EX_BEST_OFFERS\", \"EX_MARKET_DEF\"], \"ladderLevels\": ",
        );
        text.append(decimal_text(levels as u128).as_str());
        text.append("}}\r\n");
        text
    }

    /// Writes the message that subscribes to the markets that a filter lets pass, given the JSON
    /// form of the filter where it has one.
    pub fn create_filter_subscription_message(
        now_millis: u128,
        filter_json: Option<String>,
        levels: usize,
    ) -> (text: String)
        ensures
            text@ == filter_message(now_millis, json_or_empty(filter_json), levels),
    {
        let json = match filter_json {
            Some(json) => json,
            None => "{}".to_string(),
        };
        let mut text = "{\"op\": \"marketSubscription\", \"id\": ".to_string();
        text.append(decimal_text(now_millis % 10000).as_str());
        text.append(", \"marketFilter\": ");
        text.append(json.as_str());
        text.append(
            ", \"marketDataFilter\": { \"fields\": [\"EX_BEST_OFFERS\", \"EX_MARKET_DEF\"], \"ladderLevels\": ",
        );
        text.append(decimal_text(levels as u128).as_str());
        text.append("}}\r\n");
        text
    }

    /// Writes the message that subscribes to orders, given the JSON form of the filter where it has
    /// one.
    pub fn create_order_subscription_message(
        filter: &Option<OrderFilter>,
        filter_json: Option<String>,
    ) -> (text: String)
        ensures
            text@ == order_message(order_filter_json(*filter, filter_json)),
    {
        let json = match filter {
            Some(_) => match filter_json {
                Some(json) => json,
                None => "{}".to_string(),
            },
            None => "{}".to_string(),
        };
        let mut text = "{\"op\":\"orderSubscription\",\"orderFilter\":".to_string();
        text.append(json.as_str());
        text.append(",\"segmentationEnabled\":true,\"heartbeatMs\":5000}\r\n");
        text
    }

    /// The messages that ask again for everything that is subscribed to. `filter_json` is the
    /// JSON form of the order filter, where it has one.
    pub fn resubscription_messages(
        &self,
        now_millis: u128,
        filter_json: Option<String>,
    ) -> (messages: Vec<String>)
        ensures
            texts(messages@) == resubscription_texts(self@, now_millis, filter_json),
            consistent(self@),
    {
        let mut messages: Vec<String> = Vec::new();
        let count = self.subscribed_markets.len();
        if count > 0 {
            let mut market_ids: Vec<String> = Vec::new();
            let mut i: usize = 0;
            while i < count
                invariant
                    i <= count,
                    count == self.subscribed_markets.keys().len(),
                    texts(market_ids@) == self.subscribed_markets.keys().take(i as int),
                decreases count - i,
            {
                let ghost before = market_ids@;
                let market_id = self.subscribed_markets.key_at(i).clone();
                market_ids.push(market_id);
                proof {
                    assert(texts(market_ids@) =~= texts(before).push(market_id@));
                    assert(self.subscribed_markets.keys().take(i + 1)
                        =~= self.subscribed_markets.keys().take(i as int).push(market_id@));
                }
                i = i + 1;
            }
            proof {
                assert(texts(market_ids@) =~= self.subscribed_markets.keys());
            }
            let levels = *self.subscribed_markets.value_at(0);
            messages.push(
                StreamingClient::create_batch_market_subscription_message(
                    now_millis,
                    &market_ids,
                    levels,
                ),
            );
        }
        if self.subscribed_to_orders {
            messages.push(
                StreamingClient::create_order_subscription_message(
                    &self.order_filter,
                    filter_json,
                ),
            );
        }
        proof {
            assert(texts(messages@) =~= resubscription_texts(self@, now_millis, filter_json));
        }
        messages
    }

    /// Takes the books of a market's runners in, as they came at a time, and says what the callback
    /// for prices is to be called with, where there is one. It is to be called once, now that the
    /// books and their time are in place.
    pub fn on_orderbooks<D>(
        &mut self,
        market_id: String,
        runner_orderbooks: Table<Orderbook>,
        market_definition: D,
        now: Instant,
    ) -> (update: Option<OrderbookUpdate<D>>)
        ensures
            final(self)@ == with_books(
                old(self)@,
                market_id@,
                books_of(runner_orderbooks),
                now,
            ),
            update == (if old(self)@.has_orderbook_callback {
                Some(OrderbookUpdate { market_id, runner_orderbooks, market_definition })
            } else {
                None
            }),
    {
        let kept = runner_orderbooks.clone();
        self.orderbooks.insert(market_id.clone(), kept);
        self.last_update_times.insert(market_id.clone(), now);
        proof {
            assert(books_of(kept) =~= books_of(runner_orderbooks));
            assert(self@.orderbooks =~= old(self)@.orderbooks.insert(
                market_id@,
                books_of(runner_orderbooks),
            ));
        }
        if self.has_orderbook_callback {
            Some(OrderbookUpdate { market_id, runner_orderbooks, market_definition })
        } else {
            None
        }
    }

    /// Takes changes of orders in, and says what the callback for orders is to be called with,
    /// where one was set when streaming was started: the whole message, also one without changes.
    /// It is to be called once, now that the changes are in place.
    pub fn on_order_changes(&mut self, message: OrderChangeMessage) -> (update: Option<
        OrderChangeMessage,
    >)
        ensures
            final(self)@ == (StreamState {
                orders: caches_after(old(self)@.orders, message.order_changes@, message.pt),
                ..old(self)@
            }),
            update == (if old(self)@.order_callback_in_use {
                Some(message)
            } else {
                None
            }),
    {
        let ghost before = self@;
        let ghost changes = message.order_changes@;
        let mut i: usize = 0;
        proof {
            assert(changes.take(0) =~= Seq::empty());
        }
        while i < message.order_changes.len()
            invariant
                i <= changes.len(),
                changes == message.order_changes@,
                self@ == (StreamState {
                    orders: caches_after(before.orders, changes.take(i as int), message.pt),
                    ..before
                }),
            decreases changes.len() - i,
        {
            let ghost caches = self@.orders;
            let change = &message.order_changes[i];
            let mut cache = match self.orders.remove(change.id.as_str()) {
                Some(cache) => cache,
                None => OrderCache::new(change.id.clone()),
            };
            proof {
                assert(cache@ == cache_of(caches, change.id@));
                let done = changes.take(i + 1);
                assert(done.drop_last() =~= changes.take(i as int));
                assert(done.last() == *change);
            }
            cache.apply(change, message.pt);
            self.orders.insert(change.id.clone(), cache);
            proof {
                assert(self@.orders =~= caches.insert(change.id@, cache@));
            }
            i = i + 1;
        }
        proof {
            assert(changes.take(i as int) =~= changes);
        }
        if self.order_callback_in_use {
            Some(message)
        } else {
            None
        }
    }
}

} // verus!
