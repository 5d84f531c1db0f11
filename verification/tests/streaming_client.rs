use betfair_rs::config::{BetfairConfig, Config};
use betfair_rs::connection_state::ConnectionState;
use betfair_rs::dto::streaming::{
    HeartbeatMessage, HeartbeatRequest, LoginResponse, MarketFilter, OrderChange,
    OrderChangeMessage, OrderFilter, OrderRunnerChange, UnmatchedOrder,
};
use betfair_rs::error::ClientError;
use betfair_rs::orderbook::{Orderbook, PriceLevel};
use betfair_rs::stream_task::{StreamAction, StreamEvent};
use betfair_rs::streaming_client::{CommandAction, StreamingClient, StreamingCommand};
use betfair_rs::table::Table;
use rust_decimal::Decimal;
use std::time::Instant;

fn create_test_config() -> Config {
    Config {
        betfair: BetfairConfig {
            username: "test_user".to_string(),
            password: "test_pass".to_string(),
            api_key: "test_api_key".to_string(),
            pem_path: "/tmp/test.pem".to_string(),
        },
    }
}

fn books() -> Table<Orderbook> {
    let mut books = Table::new();
    books.insert(
        "47972".to_string(),
        Orderbook {
            bids: vec![PriceLevel { price: Decimal::new(21, 1), size: Decimal::new(100, 0) }],
            asks: Vec::new(),
        },
    );
    books
}

fn order(id: &str, size: i64) -> UnmatchedOrder {
    UnmatchedOrder {
        id: id.to_string(),
        p: Decimal::new(20, 1),
        s: Decimal::new(size, 0),
        bsp: None,
        side: "B".to_string(),
        status: "E".to_string(),
        pt: "L".to_string(),
        ot: "L".to_string(),
        pd: 1,
        md: None,
        cd: None,
        ld: None,
        lsrc: None,
        avp: None,
        sm: None,
        sr: None,
        sl: None,
        sc: None,
        sv: None,
        rac: None,
        rc: None,
        rfo: None,
        rfs: None,
    }
}

fn runner_change(id: u64, full_image: bool, orders: Option<Vec<UnmatchedOrder>>) -> OrderRunnerChange {
    OrderRunnerChange {
        id,
        handicap: None,
        full_image,
        unmatched_orders: orders,
        matched_backs: None,
        matched_lays: None,
        strategy_matches: None,
    }
}

fn changes(pt: i64, market: &str, full_image: bool, runners: Vec<OrderRunnerChange>) -> OrderChangeMessage {
    OrderChangeMessage {
        clock: "c".to_string(),
        pt,
        order_changes: vec![OrderChange {
            id: market.to_string(),
            order_runner_change: Some(runners),
            full_image,
            closed: false,
        }],
    }
}

fn sent(action: CommandAction) -> String {
    match action {
        CommandAction::Send(text) => text,
        other => panic!("nothing is sent: {:?}", other),
    }
}

#[test]
fn test_new_streaming_client() {
    let client = StreamingClient::new("test_api_key".to_string());
    assert_eq!(client.api_key, "test_api_key");
    assert!(client.session_token.is_none());
    assert!(!client.has_streaming_task);
    assert!(!client.has_command_sender);
    assert!(!client.is_connected());
}

#[test]
fn test_with_session_token() {
    let client = StreamingClient::with_session_token(
        "test_api_key".to_string(),
        "test_token".to_string(),
    );
    assert_eq!(client.api_key, "test_api_key");
    assert_eq!(client.session_token, Some("test_token".to_string()));
    assert!(!client.is_connected());
}

#[test]
fn test_from_config() {
    let config = create_test_config();
    let client = StreamingClient::from_config(config);
    assert_eq!(client.api_key, "test_api_key");
    assert!(client.session_token.is_none());
    assert!(!client.is_connected());
}

#[test]
fn test_set_session_token() {
    let mut client = StreamingClient::new("test_api_key".to_string());
    assert!(client.session_token.is_none());

    client.set_session_token("new_token".to_string());
    assert_eq!(client.session_token, Some("new_token".to_string()));
}

#[test]
fn test_get_orderbooks_empty() {
    let client = StreamingClient::new("test_api_key".to_string());
    let books = client.get_orderbooks();
    assert!(books.is_empty());
}

#[test]
fn test_get_orderbooks_returns_same_reference() {
    let client = StreamingClient::new("test_api_key".to_string());
    let ob1 = client.get_orderbooks();
    let ob2 = client.get_orderbooks();
    assert!(std::ptr::eq(ob1, ob2));
}

#[test]
fn test_get_last_update_time_none() {
    let client = StreamingClient::new("test_api_key".to_string());
    let time = client.get_last_update_time("1.123456");
    assert!(time.is_none());
}

#[test]
fn test_get_last_update_time_with_data() {
    let mut client = StreamingClient::new("test_api_key".to_string());
    let now = Instant::now();
    client.last_update_times.insert("1.123456".to_string(), now);
    let time = client.get_last_update_time("1.123456");
    assert!(time.is_some());
    assert_eq!(time.unwrap(), now);
}

#[test]
fn test_subscribe_without_start() {
    let client = StreamingClient::new("test_api_key".to_string());
    let result = client.subscribe_to_market("1.123456".to_string(), 5);
    assert!(result.is_err());
    assert!(result.unwrap_err().message().contains("Streaming client not started"));
}

#[test]
fn test_unsubscribe_without_start() {
    let client = StreamingClient::new("test_api_key".to_string());
    let result = client.unsubscribe_from_market("1.123456".to_string());
    assert!(result.is_err());
    assert!(result.unwrap_err().message().contains("Streaming client not started"));
}

#[test]
fn test_stop_without_start() {
    let mut client = StreamingClient::new("test_api_key".to_string());
    assert!(client.stop().is_none());
    assert!(!client.take_streaming_task());
}

#[test]
fn test_is_connected_false() {
    let client = StreamingClient::new("test_api_key".to_string());
    assert!(!client.is_connected());
}

#[test]
fn test_is_connected_true() {
    let mut client = StreamingClient::new("test_api_key".to_string());
    client.is_connected = true;
    assert!(client.is_connected());
}

#[test]
fn starting_needs_a_token() {
    let mut client = StreamingClient::new("key".to_string());
    assert!(matches!(client.start().unwrap_err(), ClientError::SessionTokenNotSet));
    assert!(client.stop().is_none());
    client.set_session_token("token".to_string());
    client.set_reconnection_enabled(false);
    let task = client.start().unwrap();
    assert_eq!(task.api_key, "key");
    assert_eq!(task.session_token, "token");
    assert!(!task.enable_reconnection);
    assert!(matches!(client.stop(), Some(StreamingCommand::Stop)));
    assert!(client.take_streaming_task());
    assert!(!client.take_streaming_task());
}

#[test]
fn commands_are_given_once_started() {
    let mut client = StreamingClient::with_session_token("key".to_string(), "token".to_string());
    assert!(matches!(
        client.subscribe_to_markets(Vec::new(), 3).unwrap_err(),
        ClientError::EmptyMarketList
    ));
    assert!(client.subscribe_to_markets(vec!["1.1".to_string()], 3).is_err());
    assert!(client.subscribe_to_orders(None).is_err());
    assert!(client.subscribe_with_filter(MarketFilter::default(), 3).is_err());
    client.start().unwrap();
    assert!(matches!(
        client.subscribe_to_markets(Vec::new(), 3).unwrap_err(),
        ClientError::EmptyMarketList
    ));
    assert!(matches!(
        client.subscribe_to_market("1.1".to_string(), 3).unwrap(),
        StreamingCommand::Subscribe(market, 3) if market == "1.1"
    ));
    assert!(matches!(
        client.subscribe_to_markets(vec!["1.1".to_string()], 4).unwrap(),
        StreamingCommand::SubscribeBatch(markets, 4) if markets == vec!["1.1".to_string()]
    ));
    assert!(matches!(
        client.unsubscribe_from_market("1.1".to_string()).unwrap(),
        StreamingCommand::Unsubscribe(market) if market == "1.1"
    ));
    assert!(matches!(
        client.subscribe_to_orders(Some(OrderFilter::default())).unwrap(),
        StreamingCommand::SubscribeOrders(Some(_))
    ));
    assert!(matches!(
        client.subscribe_with_filter(MarketFilter::default(), 5).unwrap(),
        StreamingCommand::SubscribeWithFilter(_, 5)
    ));
}

#[test]
fn a_subscription_is_noted_and_worded() {
    let mut client = StreamingClient::new("key".to_string());
    client.on_orderbooks("1.1".to_string(), books(), (), Instant::now());
    let action = client.handle_command(
        StreamingCommand::Subscribe("1.1".to_string(), 5),
        true,
        1700000012345,
        None,
    );
    assert_eq!(
        sent(action),
        "{\"op\": \"marketSubscription\", \"id\": 2345, \"marketFilter\": { \"marketIds\":[\"1.1\"]}, \
         \"marketDataFilter\": { \"fields\": [\"EX_BEST_OFFERS\"], \"ladderLevels\": 5}}\r\n"
    );
    assert_eq!(client.subscribed_markets.get("1.1"), Some(&5));
    assert!(client.get_orderbooks().is_empty());
    assert!(client.get_last_update_time("1.1").is_none());
}

#[test]
fn a_batch_is_noted_and_worded() {
    let mut client = StreamingClient::new("key".to_string());
    let action = client.handle_command(
        StreamingCommand::SubscribeBatch(vec!["1.1".to_string(), "1.2".to_string()], 10),
        true,
        10000,
        None,
    );
    assert_eq!(
        sent(action),
        "{\"op\": \"marketSubscription\", \"id\": 0, \"marketFilter\": { \"marketIds\":[\"1.1\",\"1.2\"]}, \
         \"marketDataFilter\": { \"fields\": [\"EX_BEST_OFFERS\", \"EX_MARKET_DEF\"], \"ladderLevels\": 10}}\r\n"
    );
    assert_eq!(client.subscribed_markets.len(), 2);
    assert_eq!(client.subscribed_markets.get("1.2"), Some(&10));
}

#[test]
fn a_filter_is_worded_and_not_noted() {
    let mut client = StreamingClient::new("key".to_string());
    let filter = MarketFilter::with_event_type_ids(vec!["1".to_string()]);
    let action = client.handle_command(
        StreamingCommand::SubscribeWithFilter(filter, 3),
        true,
        42,
        Some("{\"eventTypeIds\":[\"1\"]}".to_string()),
    );
    assert_eq!(
        sent(action),
        "{\"op\": \"marketSubscription\", \"id\": 42, \"marketFilter\": {\"eventTypeIds\":[\"1\"]}, \
         \"marketDataFilter\": { \"fields\": [\"EX_BEST_OFFERS\", \"EX_MARKET_DEF\"], \"ladderLevels\": 3}}\r\n"
    );
    assert!(client.subscribed_markets.is_empty());
}

#[test]
fn order_subscriptions_are_noted_and_worded() {
    let mut client = StreamingClient::new("key".to_string());
    let plain = client.handle_command(StreamingCommand::SubscribeOrders(None), true, 0, None);
    assert_eq!(
        sent(plain),
        "{\"op\":\"orderSubscription\",\"orderFilter\":{},\"segmentationEnabled\":true,\"heartbeatMs\":5000}\r\n"
    );
    assert!(client.subscribed_to_orders);
    let filtered = client.handle_command(
        StreamingCommand::SubscribeOrders(Some(OrderFilter::default())),
        true,
        0,
        Some("{\"x\":1}".to_string()),
    );
    assert_eq!(
        sent(filtered),
        "{\"op\":\"orderSubscription\",\"orderFilter\":{\"x\":1},\"segmentationEnabled\":true,\"heartbeatMs\":5000}\r\n"
    );
    assert_eq!(client.order_filter.as_ref().unwrap().include_overall_position, Some(true));
    assert_eq!(
        client.order_filter.as_ref().unwrap().partition_matched_by_strategy_ref,
        Some(false)
    );
}

#[test]
fn commands_without_a_connection_are_lost() {
    let mut client = StreamingClient::new("key".to_string());
    let action = client.handle_command(
        StreamingCommand::Subscribe("1.1".to_string(), 5),
        false,
        0,
        None,
    );
    assert!(matches!(action, CommandAction::Rest));
    assert!(client.subscribed_markets.is_empty());
    assert!(matches!(
        client.handle_command(StreamingCommand::Stop, true, 0, None),
        CommandAction::Stop
    ));
}

#[test]
fn unsubscribing_undoes_a_subscription() {
    let mut client = StreamingClient::new("key".to_string());
    client.handle_command(StreamingCommand::Subscribe("1.1".to_string(), 5), true, 0, None);
    client.handle_command(StreamingCommand::Subscribe("1.2".to_string(), 5), true, 0, None);
    client.on_orderbooks("1.1".to_string(), books(), (), Instant::now());
    assert!(client.get_last_update_time("1.1").is_some());
    let action =
        client.handle_command(StreamingCommand::Unsubscribe("1.1".to_string()), true, 0, None);
    assert!(matches!(action, CommandAction::Done));
    assert!(client.subscribed_markets.get("1.1").is_none());
    assert!(client.subscribed_markets.get("1.2").is_some());
    assert!(client.get_orderbooks().get("1.1").is_none());
    assert!(client.get_last_update_time("1.1").is_none());
}

#[test]
fn books_replace_what_was_there() {
    let mut client = StreamingClient::new("key".to_string());
    client.on_orderbooks("1.1".to_string(), Table::new(), (), Instant::now());
    let now = Instant::now();
    let books = books();
    client.on_orderbooks("1.1".to_string(), books.clone(), (), now);
    let market = client.get_orderbooks().get("1.1").unwrap();
    assert_eq!(market.len(), 1);
    assert_eq!(market.key_at(0), "47972");
    assert_eq!(market.get("47972").unwrap().bids[0].price, Decimal::new(21, 1));
    assert_eq!(client.get_last_update_time("1.1"), Some(now));
}

#[test]
fn a_lost_stream_is_tried_five_times() {
    let mut client = StreamingClient::with_session_token("key".to_string(), "token".to_string());
    let mut task = client.start().unwrap();
    assert!(matches!(task.step(&mut client, StreamEvent::Begun), StreamAction::Connect));
    assert!(matches!(client.get_connection_state(), ConnectionState::Connecting));
    assert!(matches!(task.step(&mut client, StreamEvent::Connected), StreamAction::FindSender));
    assert!(client.is_connected());
    assert!(matches!(client.get_connection_state(), ConnectionState::Connected));
    match task.step(&mut client, StreamEvent::SenderReady(0, None)) {
        StreamAction::Listen(messages, ready) => {
            assert!(messages.is_empty());
            assert!(ready);
        }
        other => panic!("not listening: {:?}", other),
    }
    let mut action = task.step(&mut client, StreamEvent::ListenEnded);
    assert!(!client.is_connected());
    for (attempt, expected) in [(1, 2), (2, 4), (3, 8), (4, 16), (5, 32)] {
        assert!(matches!(action, StreamAction::Wait(seconds) if seconds == expected));
        assert!(matches!(client.get_connection_state(), ConnectionState::Reconnecting));
        assert_eq!(client.get_reconnect_attempts(), attempt);
        assert!(matches!(task.step(&mut client, StreamEvent::Waited), StreamAction::Connect));
        assert!(matches!(client.get_connection_state(), ConnectionState::Connecting));
        action = task.step(&mut client, StreamEvent::ConnectFailed("no route".to_string()));
    }
    assert!(matches!(action, StreamAction::Exit));
    assert!(matches!(
        client.get_connection_state(),
        ConnectionState::Failed(reason) if reason == "Max reconnection attempts exceeded"
    ));
}

#[test]
fn a_stream_that_is_back_asks_for_everything_again() {
    let mut client = StreamingClient::with_session_token("key".to_string(), "token".to_string());
    let mut task = client.start().unwrap();
    task.step(&mut client, StreamEvent::Begun);
    task.step(&mut client, StreamEvent::Connected);
    task.step(&mut client, StreamEvent::SenderReady(0, None));
    client.handle_command(StreamingCommand::Subscribe("1.1".to_string(), 5), true, 0, None);
    client.handle_command(StreamingCommand::Subscribe("1.2".to_string(), 7), true, 0, None);
    client.handle_command(StreamingCommand::SubscribeOrders(None), true, 0, None);
    task.step(&mut client, StreamEvent::ListenEnded);
    task.step(&mut client, StreamEvent::Waited);
    task.step(&mut client, StreamEvent::Connected);
    assert_eq!(client.get_reconnect_attempts(), 0);
    match task.step(&mut client, StreamEvent::SenderReady(10007, None)) {
        StreamAction::Listen(messages, ready) => {
            assert!(!ready);
            assert_eq!(
                messages,
                vec![
                    "{\"op\": \"marketSubscription\", \"id\": 7, \"marketFilter\": { \"marketIds\":[\"1.1\",\"1.2\"]}, \
                     \"marketDataFilter\": { \"fields\": [\"EX_BEST_OFFERS\", \"EX_MARKET_DEF\"], \"ladderLevels\": 5}}\r\n"
                        .to_string(),
                    "{\"op\":\"orderSubscription\",\"orderFilter\":{},\"segmentationEnabled\":true,\"heartbeatMs\":5000}\r\n"
                        .to_string(),
                ]
            );
        }
        other => panic!("not listening: {:?}", other),
    }
}

#[test]
fn a_first_connection_that_fails_is_the_end() {
    let mut client = StreamingClient::with_session_token("key".to_string(), "token".to_string());
    let mut task = client.start().unwrap();
    task.step(&mut client, StreamEvent::Begun);
    match task.step(&mut client, StreamEvent::ConnectFailed("refused".to_string())) {
        StreamAction::Abort(error) => assert_eq!(error.message(), "Connection failed: refused"),
        other => panic!("not aborted: {:?}", other),
    }
    assert!(matches!(client.get_connection_state(), ConnectionState::Disconnected));
    let mut task = client.start().unwrap();
    task.step(&mut client, StreamEvent::Begun);
    task.step(&mut client, StreamEvent::Connected);
    match task.step(&mut client, StreamEvent::SenderMissing) {
        StreamAction::Abort(error) => assert_eq!(error.message(), "Message sender not available"),
        other => panic!("not aborted: {:?}", other),
    }
    assert!(!client.is_connected());
    assert!(matches!(client.get_connection_state(), ConnectionState::Disconnected));
}

#[test]
fn without_reconnection_the_end_is_the_end() {
    let mut client = StreamingClient::with_session_token("key".to_string(), "token".to_string());
    client.set_reconnection_enabled(false);
    let mut task = client.start().unwrap();
    client.set_reconnection_enabled(true);
    task.step(&mut client, StreamEvent::Begun);
    task.step(&mut client, StreamEvent::Connected);
    task.step(&mut client, StreamEvent::SenderReady(0, None));
    assert!(matches!(task.step(&mut client, StreamEvent::ListenEnded), StreamAction::Exit));
    assert!(matches!(client.get_connection_state(), ConnectionState::Disconnected));
}

#[test]
fn a_missing_sender_later_is_another_round() {
    let mut client = StreamingClient::with_session_token("key".to_string(), "token".to_string());
    let mut task = client.start().unwrap();
    task.step(&mut client, StreamEvent::Begun);
    task.step(&mut client, StreamEvent::Connected);
    task.step(&mut client, StreamEvent::SenderReady(0, None));
    task.step(&mut client, StreamEvent::ListenEnded);
    task.step(&mut client, StreamEvent::Waited);
    task.step(&mut client, StreamEvent::Connected);
    assert!(matches!(
        task.step(&mut client, StreamEvent::SenderMissing),
        StreamAction::Wait(2)
    ));
    assert!(!client.is_connected());
    assert!(matches!(client.get_connection_state(), ConnectionState::Reconnecting));
}

#[test]
fn order_changes_add_up() {
    let mut client = StreamingClient::new("key".to_string());
    client.on_order_changes(changes(
        10,
        "1.1",
        false,
        vec![runner_change(7, false, Some(vec![order("a", 1), order("b", 2), order("a", 3)]))],
    ));
    client.on_order_changes(changes(
        20,
        "1.1",
        false,
        vec![
            OrderRunnerChange {
                handicap: Some(Decimal::new(5, 1)),
                matched_backs: Some(vec![vec![Decimal::new(20, 1), Decimal::new(4, 0)]]),
                ..runner_change(7, false, Some(vec![order("c", 4)]))
            },
            runner_change(8, false, None),
        ],
    ));
    let cache = client.get_orders().get("1.1").unwrap();
    assert_eq!(cache.market_id, "1.1");
    assert_eq!(cache.timestamp, 20);
    let runner = cache.get_runner(7).unwrap();
    assert_eq!(runner.orders.len(), 3);
    assert_eq!(runner.orders.get("a").unwrap().s, Decimal::new(3, 0));
    assert_eq!(runner.orders.get("c").unwrap().s, Decimal::new(4, 0));
    assert_eq!(runner.handicap, Some(Decimal::new(5, 1)));
    assert_eq!(runner.matched_backs.len(), 1);
    assert!(runner.matched_lays.is_empty());
    assert!(cache.get_runner(8).unwrap().orders.is_empty());
    assert!(cache.get_runner(9).is_none());
}

#[test]
fn full_images_replace() {
    let mut client = StreamingClient::new("key".to_string());
    client.on_order_changes(changes(
        10,
        "1.1",
        false,
        vec![
            runner_change(7, false, Some(vec![order("a", 1)])),
            runner_change(8, false, Some(vec![order("b", 1)])),
        ],
    ));
    client.on_order_changes(changes(
        11,
        "1.1",
        false,
        vec![runner_change(7, true, Some(vec![order("c", 1)])), runner_change(8, true, None)],
    ));
    {
        let cache = client.get_orders().get("1.1").unwrap();
        let runner = cache.get_runner(7).unwrap();
        assert_eq!(runner.orders.len(), 1);
        assert!(runner.orders.get("c").is_some());
        assert!(cache.get_runner(8).unwrap().orders.is_empty());
    }
    client.on_order_changes(changes(12, "1.2", false, vec![]));
    client.on_order_changes(changes(13, "1.1", true, vec![runner_change(9, false, None)]));
    let cache = client.get_orders().get("1.1").unwrap();
    assert!(cache.get_runner(7).is_none());
    assert!(cache.get_runner(9).is_some());
    assert_eq!(client.get_orders().get("1.2").unwrap().timestamp, 12);
}

#[test]
fn stream_messages_show_themselves() {
    let login = LoginResponse {
        session_token: Some("hidden".to_string()),
        login_status: "SUCCESS".to_string(),
    };
    assert_eq!(login.to_text(), "LoginResponse { status: SUCCESS }");
    let beat = HeartbeatMessage { op: "mcm".to_string(), id: -9223372036854775808 };
    assert_eq!(beat.to_text(), "HeartbeatMessage { op: mcm, id: -9223372036854775808 }");
    let request = HeartbeatRequest::new(12);
    assert_eq!(request.op, "heartbeat");
    assert_eq!(request.id, 12);
}

#[test]
fn stream_filters_restrict_one_thing() {
    let by_market = MarketFilter::with_market_ids(vec!["1.1".to_string()]);
    assert_eq!(by_market.market_ids, Some(vec!["1.1".to_string()]));
    assert!(by_market.event_type_ids.is_none());
    let by_sport = MarketFilter::with_event_type_ids(vec!["1".to_string()]);
    assert_eq!(by_sport.event_type_ids, Some(vec!["1".to_string()]));
    assert!(by_sport.market_ids.is_none());
    let by_competition = MarketFilter::with_competition_ids(vec!["9".to_string()]);
    assert_eq!(by_competition.competition_ids, Some(vec!["9".to_string()]));
    assert!(by_competition.race_types.is_none());
}

#[test]
fn tables_keep_the_order_of_their_keys() {
    let mut table: Table<i32> = Table::new();
    assert!(table.is_empty());
    table.insert("b".to_string(), 1);
    table.insert("a".to_string(), 2);
    table.insert("b".to_string(), 3);
    assert_eq!(table.len(), 2);
    assert_eq!(table.key_at(0), "b");
    assert_eq!(*table.value_at(0), 3);
    assert_eq!(table.remove("b"), Some(3));
    assert_eq!(table.remove("b"), None);
    assert_eq!(table.key_at(0), "a");
    let copy = table.clone();
    assert_eq!(copy.get("a"), Some(&2));
}

#[test]
fn messages_of_one_moment_differ_from_the_next() {
    let mut seen: Vec<String> = Vec::new();
    for now in [1700000009998u128, 1700000009999, 1700000010000, 1700000010001] {
        let text = StreamingClient::create_market_subscription_message(now, "1.1", 1);
        assert!(!seen.contains(&text));
        seen.push(text);
    }
    assert!(seen[0].contains("\"id\": 9998,"));
    assert!(seen[2].contains("\"id\": 0,"));
    let again = StreamingClient::create_market_subscription_message(1700000019998, "1.1", 1);
    assert_eq!(again, seen[0]);
}

#[test]
fn a_batch_forgets_the_prices_of_its_markets_only() {
    let mut client = StreamingClient::new("key".to_string());
    for market in ["1.1", "1.2", "1.3"] {
        client.handle_command(StreamingCommand::Subscribe(market.to_string(), 3), true, 0, None);
        client.on_orderbooks(market.to_string(), books(), (), Instant::now());
    }
    client.handle_command(
        StreamingCommand::SubscribeBatch(
            vec!["1.2".to_string(), "1.4".to_string(), "1.2".to_string()],
            9,
        ),
        true,
        0,
        None,
    );
    assert_eq!(client.subscribed_markets.len(), 4);
    assert_eq!(client.subscribed_markets.get("1.1"), Some(&3));
    assert_eq!(client.subscribed_markets.get("1.2"), Some(&9));
    assert_eq!(client.subscribed_markets.get("1.4"), Some(&9));
    assert!(client.get_orderbooks().get("1.1").is_some());
    assert!(client.get_orderbooks().get("1.2").is_none());
    assert!(client.get_last_update_time("1.2").is_none());
    assert!(client.get_last_update_time("1.3").is_some());
}

#[test]
fn filters_without_a_json_form_are_empty() {
    assert_eq!(
        StreamingClient::create_filter_subscription_message(7, None, 1),
        "{\"op\": \"marketSubscription\", \"id\": 7, \"marketFilter\": {}, \
         \"marketDataFilter\": { \"fields\": [\"EX_BEST_OFFERS\", \"EX_MARKET_DEF\"], \"ladderLevels\": 1}}\r\n"
    );
    assert_eq!(
        StreamingClient::create_order_subscription_message(
            &None,
            Some("{\"ignored\":true}".to_string())
        ),
        "{\"op\":\"orderSubscription\",\"orderFilter\":{},\"segmentationEnabled\":true,\"heartbeatMs\":5000}\r\n"
    );
    assert_eq!(
        StreamingClient::create_batch_market_subscription_message(7, &Vec::new(), 1),
        "{\"op\": \"marketSubscription\", \"id\": 7, \"marketFilter\": { \"marketIds\":[]}, \
         \"marketDataFilter\": { \"fields\": [\"EX_BEST_OFFERS\", \"EX_MARKET_DEF\"], \"ladderLevels\": 1}}\r\n"
    );
}

#[test]
fn a_batch_of_one_is_a_subscription() {
    let mut single = StreamingClient::new("key".to_string());
    let mut batch = StreamingClient::new("key".to_string());
    for client in [&mut single, &mut batch] {
        client.handle_command(StreamingCommand::Subscribe("1.1".to_string(), 2), true, 0, None);
        client.handle_command(StreamingCommand::Subscribe("1.2".to_string(), 2), true, 0, None);
    }
    single.handle_command(StreamingCommand::Subscribe("1.1".to_string(), 5), true, 0, None);
    batch.handle_command(
        StreamingCommand::SubscribeBatch(vec!["1.1".to_string()], 5),
        true,
        0,
        None,
    );
    for client in [&single, &batch] {
        assert_eq!(client.subscribed_markets.len(), 2);
        assert_eq!(client.subscribed_markets.key_at(0), "1.1");
        assert_eq!(client.subscribed_markets.get("1.1"), Some(&5));
        assert_eq!(client.subscribed_markets.get("1.2"), Some(&2));
    }
}

#[test]
fn changes_may_come_in_parts() {
    let part = |market: &str, order_id: &str| OrderChange {
        id: market.to_string(),
        order_runner_change: Some(vec![runner_change(
            7,
            false,
            Some(vec![order(order_id, 1)]),
        )]),
        full_image: false,
        closed: false,
    };
    let message = |order_changes: Vec<OrderChange>| OrderChangeMessage {
        clock: "c".to_string(),
        pt: 5,
        order_changes,
    };
    let mut at_once = StreamingClient::new("key".to_string());
    at_once.on_order_changes(message(vec![part("1.1", "a"), part("1.2", "b"), part("1.1", "c")]));
    let mut in_parts = StreamingClient::new("key".to_string());
    in_parts.on_order_changes(message(vec![part("1.1", "a")]));
    in_parts.on_order_changes(message(vec![part("1.2", "b"), part("1.1", "c")]));
    for client in [&at_once, &in_parts] {
        assert_eq!(client.get_orders().len(), 2);
        let first = client.get_orders().get("1.1").unwrap();
        assert_eq!(first.timestamp, 5);
        assert_eq!(first.get_runner(7).unwrap().orders.len(), 2);
        let second = client.get_orders().get("1.2").unwrap();
        assert_eq!(second.get_runner(7).unwrap().orders.len(), 1);
    }
}

#[test]
fn a_stop_is_heeded_without_a_connection() {
    let mut client = StreamingClient::new("key".to_string());
    assert!(matches!(
        client.handle_command(StreamingCommand::Stop, false, 0, None),
        CommandAction::Stop
    ));
    assert!(matches!(
        client.handle_command(StreamingCommand::Stop, true, 0, None),
        CommandAction::Stop
    ));
}

#[test]
fn a_stop_ends_a_healthy_stream() {
    let mut client = StreamingClient::with_session_token("key".to_string(), "token".to_string());
    let mut task = client.start().unwrap();
    task.step(&mut client, StreamEvent::Begun);
    task.step(&mut client, StreamEvent::Connected);
    task.step(&mut client, StreamEvent::SenderReady(0, None));
    client.handle_command(StreamingCommand::Subscribe("1.1".to_string(), 5), true, 0, None);
    assert!(client.is_connected());
    let command = client.stop().unwrap();
    assert!(matches!(client.handle_command(command, true, 0, None), CommandAction::Stop));
    assert!(matches!(task.step(&mut client, StreamEvent::Stopped), StreamAction::Exit));
    assert!(client.take_streaming_task());
    assert!(!client.is_connected());
    assert!(matches!(client.get_connection_state(), ConnectionState::Disconnected));
    assert!(client.subscribed_markets.get("1.1").is_some());
}

#[test]
fn a_stop_ends_a_wait() {
    let mut client = StreamingClient::with_session_token("key".to_string(), "token".to_string());
    let mut task = client.start().unwrap();
    task.step(&mut client, StreamEvent::Begun);
    task.step(&mut client, StreamEvent::Connected);
    task.step(&mut client, StreamEvent::SenderReady(0, None));
    assert!(matches!(
        task.step(&mut client, StreamEvent::ListenEnded),
        StreamAction::Wait(2)
    ));
    assert!(matches!(task.step(&mut client, StreamEvent::Stopped), StreamAction::Exit));
    assert!(!client.is_connected());
}

#[test]
fn books_are_handed_on_to_a_callback() {
    let mut client = StreamingClient::new("key".to_string());
    assert!(client.on_orderbooks("1.1".to_string(), books(), 7, Instant::now()).is_none());
    client.set_orderbook_callback();
    let update = client.on_orderbooks("1.2".to_string(), books(), 8, Instant::now()).unwrap();
    assert_eq!(update.market_id, "1.2");
    assert_eq!(update.market_definition, 8);
    assert_eq!(update.runner_orderbooks.len(), 1);
    assert_eq!(
        update.runner_orderbooks.get("47972").unwrap().bids[0].size,
        Decimal::new(100, 0)
    );
    assert_eq!(client.get_orderbooks().get("1.2").unwrap().len(), 1);
}

#[test]
fn order_messages_are_handed_on_to_a_callback() {
    let mut client = StreamingClient::with_session_token("key".to_string(), "token".to_string());
    let message = || changes(3, "1.1", false, vec![runner_change(7, false, None)]);
    client.start().unwrap();
    assert!(client.on_order_changes(message()).is_none());
    client.set_order_callback();
    assert!(client.on_order_changes(message()).is_none());
    client.start().unwrap();
    let update = client.on_order_changes(message()).unwrap();
    assert_eq!(update.clock, "c");
    assert_eq!(update.pt, 3);
    assert_eq!(update.order_changes.len(), 1);
    assert_eq!(update.order_changes[0].id, "1.1");
    let empty = OrderChangeMessage {
        clock: "d".to_string(),
        pt: 4,
        order_changes: Vec::new(),
    };
    assert_eq!(client.on_order_changes(empty).unwrap().clock, "d");
}

#[test]
fn closed_markets_stay_known() {
    let mut client = StreamingClient::new("key".to_string());
    client.on_order_changes(changes(1, "1.1", false, vec![]));
    client.on_order_changes(OrderChangeMessage {
        clock: "c".to_string(),
        pt: 2,
        order_changes: vec![OrderChange {
            id: "1.2".to_string(),
            order_runner_change: None,
            full_image: false,
            closed: true,
        }],
    });
    assert_eq!(client.get_orders().len(), 2);
    assert_eq!(client.get_orders().get("1.1").unwrap().timestamp, 1);
    assert_eq!(client.get_orders().get("1.2").unwrap().timestamp, 2);
}

#[test]
fn tables_find_their_keys_after_removals() {
    let mut table: Table<usize> = Table::new();
    for i in 0..50usize {
        table.insert(format!("k{i}"), i);
    }
    for i in (0..50usize).step_by(3) {
        assert_eq!(table.remove(&format!("k{i}")), Some(i));
    }
    let copy = table.clone();
    for table in [&table, &copy] {
        assert_eq!(table.len(), 33);
        for i in 0..50usize {
            let expected = if i % 3 == 0 { None } else { Some(i) };
            assert_eq!(table.get(&format!("k{i}")).copied(), expected);
        }
        assert_eq!(table.key_at(0), "k1");
        assert_eq!(table.key_at(32), "k49");
    }
}
